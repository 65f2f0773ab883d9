//! The symbols of the assets the user selected, saved in sorted order.
use vstd::prelude::*;
use std::collections::HashSet;
use crate::text::{lex_lt, lemma_lex_irreflexive, lemma_lex_total, lemma_lex_transitive, str_less};

verus! {

/// Names what a set of strings holds, as texts.
pub uninterp spec fn string_set_contents(s: HashSet<String>) -> Set<Seq<char>>;

/// Wraps `HashSet::new`: an empty set.
#[verifier::external_body]
fn string_set_new() -> (s: HashSet<String>)
    ensures
        string_set_contents(s) == Set::<Seq<char>>::empty(),
{
    HashSet::new()
}

/// Wraps `HashSet::insert`: afterwards the set holds `k` besides what it held (a
/// string equal to one already there leaves the set as it was).
#[verifier::external_body]
fn string_set_insert(s: &mut HashSet<String>, k: String)
    ensures
        string_set_contents(*final(s)) == string_set_contents(*old(s)).insert(k@),
{
    s.insert(k);
}

/// Wraps `HashSet::contains`: whether the set holds a string with the text of `k`.
#[verifier::external_body]
fn string_set_contains(s: &HashSet<String>, k: &String) -> (b: bool)
    ensures
        b == string_set_contents(*s).contains(k@),
{
    s.contains(k)
}

/// Wraps `HashSet::remove`: afterwards the set no longer holds `k`; the result tells
/// whether it held it.
#[verifier::external_body]
fn string_set_remove(s: &mut HashSet<String>, k: &String) -> (b: bool)
    ensures
        string_set_contents(*final(s)) == string_set_contents(*old(s)).remove(k@),
        b == string_set_contents(*old(s)).contains(k@),
{
    s.remove(k)
}

/// Wraps `HashSet::iter` with `cloned` and `collect`: the set's strings, each once, in
/// an order that the set's hashing decides.
#[verifier::external_body]
fn string_set_to_vec(s: &HashSet<String>) -> (v: Vec<String>)
    ensures
        forall|i: int| 0 <= i < v@.len() ==> string_set_contents(*s).contains(#[trigger] v@[i]@),
        forall|k: Seq<char>| string_set_contents(*s).contains(k) ==> exists|i: int| 0 <= i < v@.len() && #[trigger] v@[i]@ == k,
        forall|i: int, j: int| 0 <= i < v@.len() && 0 <= j < v@.len() && i != j ==> (#[trigger] v@[i])@ != (#[trigger] v@[j])@,
{
    s.iter().cloned().collect()
}

/// The texts of a list of strings.
pub open spec fn texts(v: Seq<String>) -> Seq<Seq<char>> {
    v.map_values(|s: String| s@)
}

/// Texts in strictly increasing lexicographic order (sorted, no repeats).
pub open spec fn strictly_sorted(v: Seq<Seq<char>>) -> bool {
    forall|i: int, j: int| 0 <= i < j < v.len() ==> lex_lt(#[trigger] v[i], #[trigger] v[j])
}

/// The symbols of the selected assets.
#[derive(Debug, Clone)]
pub struct SelectedAssetsPersistenceState {
    pub selected_symbols: Vec<String>,
}

/// Texts pairwise distinct.
pub open spec fn distinct_texts(v: Seq<String>) -> bool {
    forall|i: int, j: int| 0 <= i < v.len() && 0 <= j < v.len() && i != j ==> (#[trigger] v[i])@ != (#[trigger] v[j])@
}

/// Sorts strings whose texts are distinct into strictly increasing order.
fn sort_strings(v: Vec<String>) -> (r: Vec<String>)
    requires
        distinct_texts(v@),
    ensures
        r@.to_multiset() == v@.to_multiset(),
        strictly_sorted(texts(r@)),
{
    broadcast use vstd::seq_lib::group_to_multiset_ensures;
    let mut r: Vec<String> = Vec::new();
    let mut rest = v;
    let ghost orig = rest@;
    let total = rest.len();
    let mut i: usize = 0;
    while rest.len() > 0
        invariant
            orig.len() == i + rest@.len(),
            orig.len() == total,
            distinct_texts(orig),
            rest@ == orig.skip(i as int),
            r@.to_multiset() == orig.take(i as int).to_multiset(),
            strictly_sorted(texts(r@)),
        decreases rest@.len(),
    {
        let x = rest.remove(0);
        proof {
            assert(x == orig[i as int]);
            assert(orig.skip(i + 1) =~= orig.skip(i as int).drop_first());
            assert(orig.take(i + 1) =~= orig.take(i as int).push(x));
        }
        let mut j: usize = 0;
        while j < r.len() && !str_less(x.as_str(), r[j].as_str())
            invariant
                j <= r@.len(),
                forall|k: int| 0 <= k < j ==> !lex_lt(x@, #[trigger] r@[k]@),
            decreases r@.len() - j,
        {
            j = j + 1;
        }
        let ghost old_r = r@;
        proof {
            assert forall|k: int| 0 <= k < old_r.len() implies (#[trigger] old_r[k])@ != x@ by {
                assert(old_r.contains(old_r[k]));
                vstd::seq_lib::to_multiset_contains(old_r, old_r[k]);
                vstd::seq_lib::to_multiset_contains(orig.take(i as int), old_r[k]);
                assert(orig.take(i as int).contains(old_r[k]));
                let m = choose|m: int| 0 <= m < i && orig.take(i as int)[m] == old_r[k];
                assert(orig[m] == old_r[k]);
            }
        }
        r.insert(j, x);
        proof {
            vstd::seq_lib::to_multiset_insert(old_r, j as int, x);
            vstd::seq_lib::to_multiset_build(orig.take(i as int), x);
            let t = texts(r@);
            let ot = texts(old_r);
            assert forall|a: int, b: int| 0 <= a < b < t.len() implies lex_lt(#[trigger] t[a], #[trigger] t[b]) by {
                if j < old_r.len() {
                    assert(lex_lt(x@, old_r[j as int]@));
                }
                let ta = t[a];
                let tb = t[b];
                if a < j && b == j {
                    assert(ta == ot[a]);
                    assert(!lex_lt(x@, old_r[a]@));
                    assert(old_r[a]@ != x@);
                    lemma_lex_total(x@, ta);
                } else if a == j && b > j {
                    assert(tb == ot[b - 1]);
                    if b - 1 > j {
                        assert(lex_lt(ot[j as int], ot[b - 1]));
                        lemma_lex_transitive(x@, ot[j as int], ot[b - 1]);
                    }
                } else if a < j && b > j {
                    assert(ta == ot[a]);
                    assert(tb == ot[b - 1]);
                } else if b < j {
                    assert(ta == ot[a]);
                    assert(tb == ot[b]);
                } else {
                    assert(ta == ot[a - 1]);
                    assert(tb == ot[b - 1]);
                }
            }
        }
        i = i + 1;
    }
    assert(orig.take(orig.len() as int) =~= orig);
    r
}

impl SelectedAssetsPersistenceState {
    /// The selected symbols as a set.
    pub fn to_hashset(&self) -> (s: HashSet<String>)
        ensures
            string_set_contents(s) == texts(self.selected_symbols@).to_set(),
    {
        let mut s = string_set_new();
        let mut i: usize = 0;
        while i < self.selected_symbols.len()
            invariant
                i <= self.selected_symbols@.len(),
                string_set_contents(s) == texts(self.selected_symbols@.take(i as int)).to_set(),
            decreases self.selected_symbols@.len() - i,
        {
            string_set_insert(&mut s, self.selected_symbols[i].clone());
            proof {
                let v = self.selected_symbols@;
                assert(texts(v.take(i + 1)) =~= texts(v.take(i as int)) + seq![v[i as int]@]);
                Seq::lemma_to_set_insert_commutes(texts(v.take(i as int)), v[i as int]@);
            }
            i = i + 1;
        }
        assert(self.selected_symbols@.take(self.selected_symbols@.len() as int) =~= self.selected_symbols@);
        s
    }

    /// The symbols of a set, sorted.
    pub fn from_hashset(selected: &HashSet<String>) -> (st: Self)
        ensures
            strictly_sorted(texts(st.selected_symbols@)),
            texts(st.selected_symbols@).to_set() == string_set_contents(*selected),
    {
        let v = string_set_to_vec(selected);
        let ghost vv = v@;
        let symbols = sort_strings(v);
        proof {
            let t = texts(symbols@);
            broadcast use vstd::seq_lib::group_to_multiset_ensures;
            assert forall|i: int| 0 <= i < symbols@.len() implies vv.contains(#[trigger] symbols@[i]) by {
                assert(symbols@.contains(symbols@[i]));
                vstd::seq_lib::to_multiset_contains(symbols@, symbols@[i]);
                vstd::seq_lib::to_multiset_contains(vv, symbols@[i]);
            }
            assert forall|k: int| 0 <= k < vv.len() implies symbols@.contains(#[trigger] vv[k]) by {
                assert(vv.contains(vv[k]));
                vstd::seq_lib::to_multiset_contains(vv, vv[k]);
                vstd::seq_lib::to_multiset_contains(symbols@, vv[k]);
            }
            assert(t.to_set() =~= string_set_contents(*selected)) by {
                assert forall|x: Seq<char>| t.to_set().contains(x) <==> string_set_contents(*selected).contains(x) by {
                    if t.to_set().contains(x) {
                        let i = choose|i: int| 0 <= i < t.len() && t[i] == x;
                        let k = choose|k: int| 0 <= k < vv.len() && #[trigger] vv[k] == symbols@[i];
                        assert(vv[k]@ == x);
                    }
                    if string_set_contents(*selected).contains(x) {
                        let k = choose|k: int| 0 <= k < vv.len() && #[trigger] vv[k]@ == x;
                        let i = choose|i: int| 0 <= i < symbols@.len() && vv[k] == #[trigger] symbols@[i];
                        assert(t[i] == x);
                    }
                }
            }
        }
        SelectedAssetsPersistenceState { selected_symbols: symbols }
    }
}

impl Default for SelectedAssetsPersistenceState {
    /// No symbol selected.
    fn default() -> (s: Self)
        ensures
            s.selected_symbols@.len() == 0,
    {
        SelectedAssetsPersistenceState { selected_symbols: Vec::new() }
    }
}

/// Two lists in strictly increasing order that hold the same texts are the same list.
pub proof fn lemma_sorted_same_set(a: Seq<Seq<char>>, b: Seq<Seq<char>>)
    requires
        strictly_sorted(a),
        strictly_sorted(b),
        a.to_set() == b.to_set(),
    ensures
        a == b,
    decreases a.len(),
{
    if a.len() == 0 {
        if b.len() > 0 {
            assert(b.to_set().contains(b[0]));
        }
        assert(a =~= b);
    } else if b.len() == 0 {
        assert(a.to_set().contains(a[0]));
    } else {
        assert(b.to_set().contains(a[0]));
        assert(a.to_set().contains(b[0]));
        let j = choose|j: int| 0 <= j < b.len() && b[j] == a[0];
        let i = choose|i: int| 0 <= i < a.len() && a[i] == b[0];
        if j > 0 {
            assert(lex_lt(b[0], b[j]));
            if i > 0 {
                assert(lex_lt(a[0], a[i]));
                lemma_lex_transitive(b[0], a[0], b[0]);
            }
            lemma_lex_irreflexive(b[0]);
        }
        assert(a[0] == b[0]);
        let (ra, rb) = (a.drop_first(), b.drop_first());
        assert(strictly_sorted(ra)) by {
            assert forall|x: int, y: int| 0 <= x < y < ra.len() implies lex_lt(#[trigger] ra[x], #[trigger] ra[y]) by {
                assert(ra[x] == a[x + 1] && ra[y] == a[y + 1]);
            }
        }
        assert(strictly_sorted(rb)) by {
            assert forall|x: int, y: int| 0 <= x < y < rb.len() implies lex_lt(#[trigger] rb[x], #[trigger] rb[y]) by {
                assert(rb[x] == b[x + 1] && rb[y] == b[y + 1]);
            }
        }
        assert(ra.to_set() =~= rb.to_set()) by {
            assert forall|t: Seq<char>| ra.to_set().contains(t) implies rb.to_set().contains(t) by {
                let x = choose|x: int| 0 <= x < ra.len() && ra[x] == t;
                assert(a.to_set().contains(t));
                let y = choose|y: int| 0 <= y < b.len() && b[y] == t;
                assert(lex_lt(a[0], a[x + 1]));
                if y == 0 {
                    lemma_lex_irreflexive(t);
                }
                assert(rb[y - 1] == t);
            }
            assert forall|t: Seq<char>| rb.to_set().contains(t) implies ra.to_set().contains(t) by {
                let y = choose|y: int| 0 <= y < rb.len() && rb[y] == t;
                assert(b.to_set().contains(t));
                let x = choose|x: int| 0 <= x < a.len() && a[x] == t;
                assert(lex_lt(b[0], b[y + 1]));
                if x == 0 {
                    lemma_lex_irreflexive(t);
                }
                assert(ra[x - 1] == t);
            }
        }
        lemma_sorted_same_set(ra, rb);
        assert(a =~= b) by {
            assert forall|x: int| 0 <= x < a.len() implies a[x] == b[x] by {
                if x > 0 {
                    assert(a[x] == ra[x - 1]);
                    assert(b[x] == rb[x - 1]);
                }
            }
        }
    }
}

/// Saving a selection that is already in sorted order and reading it back as a set
/// (`to_hashset`, then `from_hashset`) gives the very same list of symbols.
pub proof fn law_sorted_selection_round_trip(saved: Seq<String>, reloaded: Seq<String>)
    requires
        strictly_sorted(texts(saved)),
        strictly_sorted(texts(reloaded)),
        texts(reloaded).to_set() == texts(saved).to_set(),
    ensures
        texts(reloaded) == texts(saved),
{
    lemma_sorted_same_set(texts(reloaded), texts(saved));
}

/// The selection after `k` is toggled: taken out when it is in, put in otherwise.
pub open spec fn toggled(s: Set<Seq<char>>, k: Seq<char>) -> Set<Seq<char>> {
    if s.contains(k) { s.remove(k) } else { s.insert(k) }
}

/// Toggling an asset twice gives the selection back as it was.
pub proof fn law_toggle_twice_restores(s: Set<Seq<char>>, k: Seq<char>)
    ensures
        toggled(toggled(s, k), k) == s,
{
    if s.contains(k) {
        assert(s.remove(k).insert(k) =~= s);
    } else {
        assert(s.insert(k).remove(k) =~= s);
    }
}

/// Selects the asset `symbol` when it is not selected, and unselects it when it is;
/// returns whether it is selected afterwards.
pub fn toggle_asset_selection(selected: &mut HashSet<String>, symbol: String) -> (now_selected: bool)
    ensures
        now_selected == !string_set_contents(*old(selected)).contains(symbol@),
        string_set_contents(*final(selected)) == toggled(string_set_contents(*old(selected)), symbol@),
{
    if string_set_contains(selected, &symbol) {
        string_set_remove(selected, &symbol);
        false
    } else {
        string_set_insert(selected, symbol);
        true
    }
}

} // verus!
