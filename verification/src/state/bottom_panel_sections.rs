//! Sections shown in the bottom panel and in the right panel.
//!
//! Every section lives either in the bottom panel or in the right panel; each
//! panel remembers which of its sections is active.
use vstd::prelude::*;

verus! {

/// Sections that the two panels can show.
#[derive(Debug, Clone, Copy, PartialEq, Eq, Hash, Structural)]
pub enum BottomPanelSection {
    Overview,
    Logs,
    Indicators,
    Orders,
    Account,
    TradeHistory,
    Strategies,
}

/// Every section, in display order.
pub open spec fn all_sections() -> Seq<BottomPanelSection> {
    seq![
        BottomPanelSection::Overview,
        BottomPanelSection::Logs,
        BottomPanelSection::Indicators,
        BottomPanelSection::Orders,
        BottomPanelSection::Account,
        BottomPanelSection::TradeHistory,
        BottomPanelSection::Strategies,
    ]
}

/// The label shown for a section.
pub open spec fn section_label(s: BottomPanelSection) -> Seq<char> {
    match s {
        BottomPanelSection::Overview => "Vue d'ensemble"@,
        BottomPanelSection::Logs => "Logs"@,
        BottomPanelSection::Indicators => "Indicateurs"@,
        BottomPanelSection::Orders => "Ordres"@,
        BottomPanelSection::Account => "Compte"@,
        BottomPanelSection::TradeHistory => "Historique"@,
        BottomPanelSection::Strategies => "Stratégies"@,
    }
}

/// Every section occurs in `all_sections()`.
pub proof fn lemma_all_sections_complete(s: BottomPanelSection)
    ensures
        all_sections().contains(s),
{
    let a = all_sections();
    match s {
        BottomPanelSection::Overview => assert(a[0] == s),
        BottomPanelSection::Logs => assert(a[1] == s),
        BottomPanelSection::Indicators => assert(a[2] == s),
        BottomPanelSection::Orders => assert(a[3] == s),
        BottomPanelSection::Account => assert(a[4] == s),
        BottomPanelSection::TradeHistory => assert(a[5] == s),
        BottomPanelSection::Strategies => assert(a[6] == s),
    }
}

impl BottomPanelSection {
    /// All sections, in display order.
    pub fn all() -> (v: Vec<Self>)
        ensures
            v@ == all_sections(),
    {
        let mut v: Vec<Self> = Vec::new();
        v.push(BottomPanelSection::Overview);
        v.push(BottomPanelSection::Logs);
        v.push(BottomPanelSection::Indicators);
        v.push(BottomPanelSection::Orders);
        v.push(BottomPanelSection::Account);
        v.push(BottomPanelSection::TradeHistory);
        v.push(BottomPanelSection::Strategies);
        assert(v@ =~= all_sections());
        v
    }

    /// The label shown for the section.
    pub fn display_name(&self) -> (name: &'static str)
        ensures
            name@ == section_label(*self),
    {
        match self {
            BottomPanelSection::Overview => "Vue d'ensemble",
            BottomPanelSection::Logs => "Logs",
            BottomPanelSection::Indicators => "Indicateurs",
            BottomPanelSection::Orders => "Ordres",
            BottomPanelSection::Account => "Compte",
            BottomPanelSection::TradeHistory => "Historique",
            BottomPanelSection::Strategies => "Stratégies",
        }
    }
}

/// Abstract state of the two panels.
pub struct SectionsView {
    pub active_bottom: BottomPanelSection,
    pub active_right: Option<BottomPanelSection>,
    pub right: Seq<BottomPanelSection>,
}

/// Sections of the bottom panel: those of `all_sections()` that the right panel does not hold.
pub open spec fn bottom_sections_of(right: Seq<BottomPanelSection>) -> Seq<BottomPanelSection> {
    all_sections().filter(|x: BottomPanelSection| !right.contains(x))
}

/// `right` with every occurrence of `s` taken out, order kept.
pub open spec fn without(right: Seq<BottomPanelSection>, s: BottomPanelSection) -> Seq<
    BottomPanelSection,
> {
    right.filter(|x: BottomPanelSection| x != s)
}

/// State after moving `s` to the right panel.
pub open spec fn after_move_to_right(v: SectionsView, s: BottomPanelSection) -> SectionsView {
    let right = without(v.right, s).push(s);
    let bottom = bottom_sections_of(right);
    SectionsView {
        active_bottom: if v.active_bottom == s && bottom.len() > 0 {
            bottom[0]
        } else {
            v.active_bottom
        },
        active_right: Some(s),
        right,
    }
}

/// State after moving `s` to the bottom panel.
pub open spec fn after_move_to_bottom(v: SectionsView, s: BottomPanelSection) -> SectionsView {
    let right = without(v.right, s);
    SectionsView {
        active_bottom: s,
        active_right: if v.active_right == Some(s) {
            if right.len() > 0 {
                Some(right[0])
            } else {
                None
            }
        } else {
            v.active_right
        },
        right,
    }
}

/// State after asking to activate `s` in the bottom panel.
pub open spec fn after_set_active_section(v: SectionsView, s: BottomPanelSection) -> SectionsView {
    if v.right.contains(s) {
        v
    } else {
        SectionsView { active_bottom: s, ..v }
    }
}

/// State after asking to activate `s` in the right panel.
pub open spec fn after_set_active_right_section(
    v: SectionsView,
    s: BottomPanelSection,
) -> SectionsView {
    if v.right.contains(s) {
        SectionsView { active_right: Some(s), ..v }
    } else {
        v
    }
}

/// The state that both panels start in.
pub open spec fn initial_sections() -> SectionsView {
    SectionsView {
        active_bottom: BottomPanelSection::Overview,
        active_right: Some(BottomPanelSection::Orders),
        right: seq![BottomPanelSection::Orders, BottomPanelSection::TradeHistory],
    }
}

/// Consistency of the panels: no section twice in the right panel, the right
/// panel's active section (if any) is one of its sections, and the bottom
/// panel's active section is not in the right panel.
pub open spec fn sections_consistent(v: SectionsView) -> bool {
    &&& v.right.no_duplicates()
    &&& (v.active_right matches Some(r) ==> v.right.contains(r))
    &&& !v.right.contains(v.active_bottom)
}

/// State of the sections of the bottom and right panels.
#[derive(Debug, Clone)]
pub struct BottomPanelSectionsState {
    /// Active section of the bottom panel.
    pub active_bottom_section: BottomPanelSection,
    /// Active section of the right panel.
    pub active_right_section: Option<BottomPanelSection>,
    /// Sections of the right panel, in order.
    pub right_panel_sections: Vec<BottomPanelSection>,
}

impl View for BottomPanelSectionsState {
    type V = SectionsView;

    open spec fn view(&self) -> SectionsView {
        SectionsView {
            active_bottom: self.active_bottom_section,
            active_right: self.active_right_section,
            right: self.right_panel_sections@,
        }
    }
}

/// Whether `v` holds `s`.
fn contains_section(v: &Vec<BottomPanelSection>, s: BottomPanelSection) -> (b: bool)
    ensures
        b == v@.contains(s),
{
    let mut i: usize = 0;
    while i < v.len()
        invariant
            i <= v.len(),
            forall|j: int| 0 <= j < i ==> v@[j] != s,
        decreases v.len() - i,
    {
        if v[i] == s {
            assert(v@[i as int] == s);
            return true;
        }
        i = i + 1;
    }
    false
}

/// `v` without `s`, order kept.
fn remove_section(v: &Vec<BottomPanelSection>, s: BottomPanelSection) -> (r: Vec<
    BottomPanelSection,
>)
    ensures
        r@ == without(v@, s),
{
    let mut r: Vec<BottomPanelSection> = Vec::new();
    let mut i: usize = 0;
    while i < v.len()
        invariant
            i <= v.len(),
            r@ == without(v@.take(i as int), s),
        decreases v.len() - i,
    {
        proof {
            reveal(Seq::filter);
            assert(v@.take(i + 1).drop_last() =~= v@.take(i as int));
        }
        if v[i] != s {
            r.push(v[i]);
        }
        i = i + 1;
    }
    assert(v@.take(v.len() as int) =~= v@);
    r
}

impl BottomPanelSectionsState {
    /// Overview active at the bottom; Orders and TradeHistory in the right panel,
    /// with Orders active.
    pub fn new() -> (st: Self)
        ensures
            st@ == initial_sections(),
    {
        let mut right: Vec<BottomPanelSection> = Vec::new();
        right.push(BottomPanelSection::Orders);
        right.push(BottomPanelSection::TradeHistory);
        let st = BottomPanelSectionsState {
            active_bottom_section: BottomPanelSection::Overview,
            active_right_section: Some(BottomPanelSection::Orders),
            right_panel_sections: right,
        };
        assert(st@.right =~= initial_sections().right);
        st
    }

    /// Sections of the bottom panel: every section that is not in the right panel,
    /// in display order.
    pub fn bottom_panel_sections(&self) -> (v: Vec<BottomPanelSection>)
        ensures
            v@ == bottom_sections_of(self.right_panel_sections@),
            forall|s: BottomPanelSection|
                v@.contains(s) <==> !self.right_panel_sections@.contains(s),
    {
        let all = BottomPanelSection::all();
        let mut v: Vec<BottomPanelSection> = Vec::new();
        let ghost right = self.right_panel_sections@;
        let ghost pred = |x: BottomPanelSection| !right.contains(x);
        let mut i: usize = 0;
        while i < all.len()
            invariant
                i <= all.len(),
                all@ == all_sections(),
                right == self.right_panel_sections@,
                pred == (|x: BottomPanelSection| !right.contains(x)),
                v@ == all@.take(i as int).filter(pred),
            decreases all.len() - i,
        {
            proof {
                reveal(Seq::filter);
                assert(all@.take(i + 1).drop_last() =~= all@.take(i as int));
            }
            if !contains_section(&self.right_panel_sections, all[i]) {
                v.push(all[i]);
            }
            i = i + 1;
        }
        assert(all@.take(all.len() as int) =~= all@);
        proof {
            lemma_bottom_sections_membership(right);
        }
        v
    }

    /// Activates `section` in the bottom panel, unless it belongs to the right panel.
    pub fn set_active_section(&mut self, section: BottomPanelSection)
        ensures
            final(self)@ == after_set_active_section(old(self)@, section),
    {
        if !self.is_section_in_right_panel(section) {
            self.active_bottom_section = section;
        }
    }

    /// Activates `section` in the right panel, if it belongs to it.
    pub fn set_active_right_section(&mut self, section: BottomPanelSection)
        ensures
            final(self)@ == after_set_active_right_section(old(self)@, section),
    {
        if self.is_section_in_right_panel(section) {
            self.active_right_section = Some(section);
        }
    }

    /// Whether `section` is in the right panel.
    pub fn is_section_in_right_panel(&self, section: BottomPanelSection) -> (b: bool)
        ensures
            b == self.right_panel_sections@.contains(section),
    {
        contains_section(&self.right_panel_sections, section)
    }

    /// Whether the right panel holds any section.
    pub fn has_right_panel_sections(&self) -> (b: bool)
        ensures
            b == (self.right_panel_sections@.len() > 0),
    {
        self.right_panel_sections.len() > 0
    }

    /// Moves `section` to the end of the right panel and activates it there. When it
    /// was the active bottom section, the first remaining bottom section (if any)
    /// becomes active at the bottom.
    pub fn move_to_right_panel(&mut self, section: BottomPanelSection)
        ensures
            final(self)@ == after_move_to_right(old(self)@, section),
    {
        let mut right = remove_section(&self.right_panel_sections, section);
        right.push(section);
        self.right_panel_sections = right;
        if self.active_bottom_section == section {
            let bottom = self.bottom_panel_sections();
            if bottom.len() > 0 {
                self.active_bottom_section = bottom[0];
            }
        }
        self.active_right_section = Some(section);
    }

    /// Takes `section` out of the right panel and activates it in the bottom panel.
    /// When it was the active right section, the first remaining right section (or
    /// none) becomes active there.
    pub fn move_to_bottom_panel(&mut self, section: BottomPanelSection)
        ensures
            final(self)@ == after_move_to_bottom(old(self)@, section),
    {
        let right = remove_section(&self.right_panel_sections, section);
        self.right_panel_sections = right;
        let was_active = match self.active_right_section {
            Some(r) => r == section,
            None => false,
        };
        if was_active {
            if self.right_panel_sections.len() > 0 {
                self.active_right_section = Some(self.right_panel_sections[0]);
            } else {
                self.active_right_section = None;
            }
        }
        self.active_bottom_section = section;
    }
}

/// A section is in the bottom panel exactly when it is not in the right panel.
pub proof fn lemma_bottom_sections_membership(right: Seq<BottomPanelSection>)
    ensures
        forall|s: BottomPanelSection|
            bottom_sections_of(right).contains(s) <==> !right.contains(s),
{
    broadcast use vstd::seq_lib::group_filter_ensures;
    let pred = |x: BottomPanelSection| !right.contains(x);
    assert forall|s: BottomPanelSection|
        bottom_sections_of(right).contains(s) <==> !right.contains(s) by {
        if bottom_sections_of(right).contains(s) {
            let k = choose|k: int|
                0 <= k < bottom_sections_of(right).len() && bottom_sections_of(right)[k] == s;
            assert(pred(all_sections().filter(pred)[k]));
        }
        if !right.contains(s) {
            lemma_all_sections_complete(s);
            let k = choose|k: int| 0 <= k < all_sections().len() && all_sections()[k] == s;
            assert(pred(all_sections()[k]));
        }
    }
}

/// Removing a section keeps the others: `x` is in `without(r, s)` exactly when it is
/// in `r` and differs from `s`; and a list without repeats stays without repeats.
pub proof fn lemma_without(r: Seq<BottomPanelSection>, s: BottomPanelSection)
    ensures
        forall|x: BottomPanelSection| without(r, s).contains(x) <==> (r.contains(x) && x != s),
        r.no_duplicates() ==> without(r, s).no_duplicates(),
        !r.contains(s) ==> without(r, s) == r,
        without(r, s).len() <= r.len(),
    decreases r.len(),
{
    reveal(Seq::filter);
    if r.len() > 0 {
        lemma_without(r.drop_last(), s);
        let w = without(r, s);
        let w0 = without(r.drop_last(), s);
        assert forall|x: BottomPanelSection| w.contains(x) <==> (r.contains(x) && x != s) by {
            if r.contains(x) && x != s {
                let k = choose|k: int| 0 <= k < r.len() && r[k] == x;
                if k < r.len() - 1 {
                    assert(r.drop_last()[k] == x);
                    assert(w0.contains(x));
                    let j = choose|j: int| 0 <= j < w0.len() && w0[j] == x;
                    assert(w[j] == x);
                } else {
                    assert(w[w.len() - 1] == x);
                }
            }
            if w.contains(x) {
                let j = choose|j: int| 0 <= j < w.len() && w[j] == x;
                if j < w0.len() {
                    assert(w0[j] == x);
                    assert(w0.contains(x));
                    assert(r.drop_last().contains(x));
                    let k = choose|k: int| 0 <= k < r.drop_last().len() && r.drop_last()[k] == x;
                    assert(r[k] == x);
                } else {
                    assert(r[r.len() - 1] == x);
                    assert(r.last() != s);
                }
            }
        }
        if r.no_duplicates() {
            assert(r.drop_last().no_duplicates()) by {
                assert forall|i: int, j: int|
                    0 <= i < r.drop_last().len() && 0 <= j < r.drop_last().len() && i != j
                    implies r.drop_last()[i] != r.drop_last()[j] by {
                    assert(r.drop_last()[i] == r[i]);
                    assert(r.drop_last()[j] == r[j]);
                }
            }
            if r.last() != s {
                assert(!r.drop_last().contains(r.last())) by {
                    if r.drop_last().contains(r.last()) {
                        let k = choose|k: int|
                            0 <= k < r.drop_last().len() && r.drop_last()[k] == r.last();
                        assert(r[k] == r[r.len() - 1]);
                    }
                }
                assert(!w0.contains(r.last()));
                assert forall|i: int, j: int| 0 <= i < w.len() && 0 <= j < w.len() && i != j
                    implies w[i] != w[j] by {
                    if i == w.len() - 1 {
                        assert(w0.contains(w[j]) || j == w.len() - 1);
                        if j < w.len() - 1 { assert(w0[j] == w[j]); }
                    } else if j == w.len() - 1 {
                        assert(w0[i] == w[i]);
                    } else {
                        assert(w0[i] == w[i]);
                        assert(w0[j] == w[j]);
                    }
                }
            }
        }
        if !r.contains(s) {
            assert(!r.drop_last().contains(s)) by {
                if r.drop_last().contains(s) {
                    let k = choose|k: int| 0 <= k < r.drop_last().len() && r.drop_last()[k] == s;
                    assert(r[k] == s);
                }
            }
            assert(r.last() != s);
            assert(r.drop_last().push(r.last()) =~= r);
        }
    }
}

/// Moving a section to the right panel puts it there, takes it out of the
/// bottom panel and activates it in the right panel.
pub proof fn law_move_to_right_places_section(v: SectionsView, s: BottomPanelSection)
    ensures
        after_move_to_right(v, s).right.contains(s),
        !bottom_sections_of(after_move_to_right(v, s).right).contains(s),
        after_move_to_right(v, s).active_right == Some(s),
        after_move_to_right(v, s).right.last() == s,
{
    let r = after_move_to_right(v, s).right;
    assert(r[r.len() - 1] == s);
    lemma_bottom_sections_membership(r);
}

/// Moving a section to the bottom panel takes it out of the right panel and
/// activates it in the bottom panel.
pub proof fn law_move_to_bottom_places_section(v: SectionsView, s: BottomPanelSection)
    ensures
        !after_move_to_bottom(v, s).right.contains(s),
        bottom_sections_of(after_move_to_bottom(v, s).right).contains(s),
        after_move_to_bottom(v, s).active_bottom == s,
{
    lemma_without(v.right, s);
    lemma_bottom_sections_membership(after_move_to_bottom(v, s).right);
}

/// Moving the same section to the right panel twice is the same as moving it once.
pub proof fn law_move_to_right_idempotent(v: SectionsView, s: BottomPanelSection)
    ensures
        after_move_to_right(after_move_to_right(v, s), s) == after_move_to_right(v, s),
{
    let v1 = after_move_to_right(v, s);
    let w = without(v.right, s);
    lemma_without(v.right, s);
    lemma_without(v1.right, s);
    assert(!w.contains(s));
    assert forall|x: BottomPanelSection| without(v1.right, s).contains(x) <==> w.contains(x) by {
        if w.contains(x) {
            let k = choose|k: int| 0 <= k < w.len() && w[k] == x;
            assert(v1.right[k] == x);
        }
        if v1.right.contains(x) && x != s {
            let k = choose|k: int| 0 <= k < v1.right.len() && v1.right[k] == x;
            if k < w.len() {
                assert(w[k] == x);
            }
        }
    }
    assert(without(v1.right, s) =~= w) by {
        reveal(Seq::filter);
        assert(v1.right.drop_last() =~= w);
        lemma_without(w, s);
    }
    let v2 = after_move_to_right(v1, s);
    assert(v2.right =~= v1.right);
    lemma_bottom_sections_membership(v1.right);
    if v.active_bottom == s {
        let b = bottom_sections_of(v1.right);
        if b.len() > 0 {
            assert(b.contains(b[0]));
            assert(v1.active_bottom != s);
        }
    }
}

/// Moving a section to the right panel and then back to the bottom panel leaves
/// the right panel as it was, minus that section, and leaves the section active
/// in the bottom panel.
pub proof fn law_move_right_then_bottom(v: SectionsView, s: BottomPanelSection)
    ensures
        after_move_to_bottom(after_move_to_right(v, s), s).right == without(v.right, s),
        after_move_to_bottom(after_move_to_right(v, s), s).active_bottom == s,
{
    let w = without(v.right, s);
    lemma_without(v.right, s);
    reveal(Seq::filter);
    assert(w.push(s).drop_last() =~= w);
    lemma_without(w, s);
}

/// The initial state is consistent.
pub proof fn law_initial_consistent()
    ensures
        sections_consistent(initial_sections()),
{
    let v = initial_sections();
    assert(v.right[0] == BottomPanelSection::Orders);
    assert(v.right.contains(BottomPanelSection::Orders));
    assert(!v.right.contains(BottomPanelSection::Overview));
}

/// Every operation keeps the panels consistent; moving a section to the right
/// panel does so as long as some section is left in the bottom panel.
pub proof fn law_consistency_preserved(v: SectionsView, s: BottomPanelSection)
    requires
        sections_consistent(v),
    ensures
        sections_consistent(after_move_to_bottom(v, s)),
        sections_consistent(after_set_active_section(v, s)),
        sections_consistent(after_set_active_right_section(v, s)),
        bottom_sections_of(after_move_to_right(v, s).right).len() > 0 ==> sections_consistent(
            after_move_to_right(v, s),
        ),
{
    lemma_without(v.right, s);
    let vb = after_move_to_bottom(v, s);
    if vb.active_right is Some {
        if v.active_right == Some(s) {
            assert(vb.right.contains(vb.right[0]));
        }
    }
    let vr = after_move_to_right(v, s);
    let w = without(v.right, s);
    assert(vr.right.no_duplicates()) by {
        assert forall|i: int, j: int| 0 <= i < vr.right.len() && 0 <= j < vr.right.len() && i != j
            implies vr.right[i] != vr.right[j] by {
            if i == vr.right.len() - 1 {
                assert(w.contains(vr.right[j]) || j == i);
                if j < w.len() { assert(w[j] == vr.right[j]); }
            } else if j == vr.right.len() - 1 {
                assert(w[i] == vr.right[i]);
            } else {
                assert(w[i] == vr.right[i]);
                assert(w[j] == vr.right[j]);
            }
        }
    }
    assert(vr.right.contains(s)) by {
        assert(vr.right[vr.right.len() - 1] == s);
    }
    let b = bottom_sections_of(vr.right);
    lemma_bottom_sections_membership(vr.right);
    if b.len() > 0 {
        assert(b.contains(b[0]));
        if v.active_bottom != s {
            assert forall|k: int| 0 <= k < vr.right.len() implies vr.right[k] != v.active_bottom by {
                if k < w.len() {
                    assert(w[k] == vr.right[k]);
                    assert(w.contains(w[k]));
                }
            }
        }
    }
}

impl Default for BottomPanelSectionsState {
    /// The initial state (see `initial_sections`).
    fn default() -> (st: Self)
        ensures
            st@ == initial_sections(),
    {
        BottomPanelSectionsState::new()
    }
}

} // verus!
