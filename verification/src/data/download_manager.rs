//! Several downloads of different series running side by side, each split into
//! gaps that are fetched one after the other.
use vstd::prelude::*;

verus! {

/// Identifier of a series.
#[derive(Debug, Clone)]
pub struct SeriesId {
    pub name: String,
}

/// Progress of the download of one series.
#[derive(Debug)]
pub struct DownloadProgress {
    pub series_id: SeriesId,
    /// Candles downloaded so far.
    pub current_count: usize,
    /// Estimated number of candles in all.
    pub estimated_total: usize,
    /// Start of the gap being filled (the download goes backwards toward it).
    pub current_start: i64,
    /// Point the download has reached inside the current gap.
    pub target_end: i64,
    /// Gaps still to fill, in order.
    pub gaps_remaining: Vec<(i64, i64)>,
    /// Whether the download is paused.
    pub paused: bool,
}

/// Key under which a download is filed: the series' name.
pub open spec fn key_of(p: DownloadProgress) -> Seq<char> {
    p.series_id.name@
}

/// No two downloads of the list are for the same series.
pub open spec fn unique_keys(s: Seq<DownloadProgress>) -> bool {
    forall|i: int, j: int|
        0 <= i < s.len() && 0 <= j < s.len() && i != j ==> key_of(#[trigger] s[i]) != key_of(
            #[trigger] s[j],
        )
}

/// The downloads of a list, by series name.
pub open spec fn to_map(s: Seq<DownloadProgress>) -> Map<Seq<char>, DownloadProgress>
    decreases s.len(),
{
    if s.len() == 0 {
        Map::empty()
    } else {
        to_map(s.drop_last()).insert(key_of(s.last()), s.last())
    }
}

/// What the map of a list holds.
pub proof fn lemma_to_map(s: Seq<DownloadProgress>)
    requires
        unique_keys(s),
    ensures
        forall|k: Seq<char>|
            to_map(s).dom().contains(k) <==> exists|i: int| 0 <= i < s.len() && key_of(s[i]) == k,
        forall|i: int| 0 <= i < s.len() ==> #[trigger] to_map(s)[key_of(s[i])] == s[i],
        to_map(s).dom().finite(),
        to_map(s).len() == s.len(),
    decreases s.len(),
{
    if s.len() > 0 {
        let t = s.drop_last();
        assert(unique_keys(t)) by {
            assert forall|i: int, j: int| 0 <= i < t.len() && 0 <= j < t.len() && i != j
                implies key_of(t[i]) != key_of(t[j]) by {
                assert(t[i] == s[i] && t[j] == s[j]);
            }
        }
        lemma_to_map(t);
        let k = key_of(s.last());
        assert(!to_map(t).dom().contains(k)) by {
            if to_map(t).dom().contains(k) {
                let i = choose|i: int| 0 <= i < t.len() && key_of(t[i]) == k;
                assert(t[i] == s[i]);
                assert(key_of(s[i]) != key_of(s[s.len() - 1]));
            }
        }
        assert forall|k2: Seq<char>|
            to_map(s).dom().contains(k2) <==> exists|i: int| 0 <= i < s.len() && key_of(s[i]) == k2 by {
            if to_map(s).dom().contains(k2) && k2 != k {
                let i = choose|i: int| 0 <= i < t.len() && key_of(t[i]) == k2;
                assert(s[i] == t[i]);
            }
            if to_map(s).dom().contains(k2) && k2 == k {
                assert(key_of(s[s.len() - 1]) == k2);
            }
            if exists|i: int| 0 <= i < s.len() && key_of(s[i]) == k2 {
                let i = choose|i: int| 0 <= i < s.len() && key_of(s[i]) == k2;
                if i < s.len() - 1 {
                    assert(t[i] == s[i]);
                }
            }
        }
        assert forall|i: int| 0 <= i < s.len() implies #[trigger] to_map(s)[key_of(s[i])] == s[i] by {
            if i < s.len() - 1 {
                assert(t[i] == s[i]);
                assert(to_map(t)[key_of(t[i])] == t[i]);
                assert(key_of(s[i]) != k);
            }
        }
    }
}

/// The downloads with the one filed under `k` paused (`b`) or running.
pub open spec fn with_paused(m: Map<Seq<char>, DownloadProgress>, k: Seq<char>, b: bool) -> Map<Seq<char>, DownloadProgress> {
    m.insert(k, DownloadProgress { paused: b, ..m[k] })
}

/// A started download is found under its series' name, with the progress it was
/// started with; the other downloads are untouched.
pub proof fn law_started_download_is_found(m: Map<Seq<char>, DownloadProgress>, p: DownloadProgress, k: Seq<char>)
    ensures
        m.insert(key_of(p), p).dom().contains(key_of(p)),
        m.insert(key_of(p), p)[key_of(p)] == p,
        k != key_of(p) ==> (m.insert(key_of(p), p).dom().contains(k) == m.dom().contains(k)),
        k != key_of(p) && m.dom().contains(k) ==> m.insert(key_of(p), p)[k] == m[k],
{
}

/// Pausing a running download and resuming it gives the downloads back as they were.
pub proof fn law_pause_then_resume(m: Map<Seq<char>, DownloadProgress>, k: Seq<char>)
    requires
        m.dom().contains(k),
        !m[k].paused,
    ensures
        with_paused(with_paused(m, k, true), k, false) == m,
        with_paused(m, k, true)[k].paused,
{
    assert(with_paused(with_paused(m, k, true), k, false) =~= m);
}

/// A finished or stopped download is no longer found; the others stay.
pub proof fn law_finished_download_is_gone(m: Map<Seq<char>, DownloadProgress>, k: Seq<char>, j: Seq<char>)
    ensures
        !m.remove(k).dom().contains(k),
        j != k ==> m.remove(k).dom().contains(j) == m.dom().contains(j),
        j != k && m.dom().contains(j) ==> m.remove(k)[j] == m[j],
{
}

/// Index of the download filed under `k`.
pub open spec fn index_of(s: Seq<DownloadProgress>, k: Seq<char>) -> int {
    choose|i: int| 0 <= i < s.len() && key_of(s[i]) == k
}

/// Replacing an entry by one with the same key updates the map at that key.
pub proof fn lemma_to_map_update(s: Seq<DownloadProgress>, i: int, p: DownloadProgress)
    requires
        unique_keys(s),
        0 <= i < s.len(),
        key_of(p) == key_of(s[i]),
    ensures
        unique_keys(s.update(i, p)),
        to_map(s.update(i, p)) == to_map(s).insert(key_of(p), p),
{
    let u = s.update(i, p);
    assert(unique_keys(u)) by {
        assert forall|a: int, b: int| 0 <= a < u.len() && 0 <= b < u.len() && a != b
            implies key_of(u[a]) != key_of(u[b]) by {
            assert(key_of(u[a]) == key_of(s[a]));
            assert(key_of(u[b]) == key_of(s[b]));
        }
    }
    lemma_to_map(s);
    lemma_to_map(u);
    assert(to_map(u) =~= to_map(s).insert(key_of(p), p)) by {
        assert forall|k: Seq<char>| #[trigger] to_map(u).dom().contains(k) <==> to_map(s).insert(key_of(p), p).dom().contains(k) by {
            if to_map(u).dom().contains(k) {
                let a = choose|a: int| 0 <= a < u.len() && key_of(u[a]) == k;
                assert(key_of(s[a]) == k);
            }
            if to_map(s).dom().contains(k) {
                let a = choose|a: int| 0 <= a < s.len() && key_of(s[a]) == k;
                assert(key_of(u[a]) == k);
            }
            if k == key_of(p) {
                assert(key_of(u[i]) == k);
            }
        }
        assert forall|k: Seq<char>| #[trigger] to_map(u).dom().contains(k) implies to_map(u)[k] == to_map(s).insert(key_of(p), p)[k] by {
            let a = choose|a: int| 0 <= a < u.len() && key_of(u[a]) == k;
            assert(to_map(u)[key_of(u[a])] == u[a]);
            if a != i {
                assert(to_map(s)[key_of(s[a])] == s[a]);
                assert(key_of(s[a]) != key_of(s[i]));
            }
        }
    }
}

/// Removing the entry at `i` removes its key from the map.
pub proof fn lemma_to_map_remove(s: Seq<DownloadProgress>, i: int)
    requires
        unique_keys(s),
        0 <= i < s.len(),
    ensures
        unique_keys(s.remove(i)),
        to_map(s.remove(i)) == to_map(s).remove(key_of(s[i])),
{
    let r = s.remove(i);
    assert(unique_keys(r)) by {
        assert forall|a: int, b: int| 0 <= a < r.len() && 0 <= b < r.len() && a != b
            implies key_of(r[a]) != key_of(r[b]) by {
            let a2 = if a < i { a } else { a + 1 };
            let b2 = if b < i { b } else { b + 1 };
            assert(r[a] == s[a2]);
            assert(r[b] == s[b2]);
        }
    }
    lemma_to_map(s);
    lemma_to_map(r);
    let k0 = key_of(s[i]);
    assert(to_map(r) =~= to_map(s).remove(k0)) by {
        assert forall|k: Seq<char>| #[trigger] to_map(r).dom().contains(k) <==> to_map(s).remove(k0).dom().contains(k) by {
            if to_map(r).dom().contains(k) {
                let a = choose|a: int| 0 <= a < r.len() && key_of(r[a]) == k;
                let a2 = if a < i { a } else { a + 1 };
                assert(r[a] == s[a2]);
                assert(a2 != i);
            }
            if to_map(s).dom().contains(k) && k != k0 {
                let a = choose|a: int| 0 <= a < s.len() && key_of(s[a]) == k;
                assert(a != i);
                let a1 = if a < i { a } else { a - 1 };
                assert(r[a1] == s[a]);
            }
        }
        assert forall|k: Seq<char>| #[trigger] to_map(r).dom().contains(k) implies to_map(r)[k] == to_map(s).remove(k0)[k] by {
            let a = choose|a: int| 0 <= a < r.len() && key_of(r[a]) == k;
            let a2 = if a < i { a } else { a + 1 };
            assert(r[a] == s[a2]);
            assert(to_map(r)[key_of(r[a])] == r[a]);
            assert(to_map(s)[key_of(s[a2])] == s[a2]);
        }
    }
}

/// Manager of the downloads in progress, at most one per series.
#[derive(Debug)]
pub struct DownloadManager {
    downloads: Vec<DownloadProgress>,
}

impl View for DownloadManager {
    type V = Map<Seq<char>, DownloadProgress>;

    closed spec fn view(&self) -> Map<Seq<char>, DownloadProgress> {
        to_map(self.downloads@)
    }
}

/// Names equal as text.
fn same_name(a: &SeriesId, b: &SeriesId) -> (r: bool)
    ensures
        r == (a.name@ == b.name@),
{
    a.name == b.name
}

/// Position of the download of `series_id` in `list`, if any.
fn find_in(list: &Vec<DownloadProgress>, series_id: &SeriesId) -> (r: Option<usize>)
    ensures
        r matches Some(i) ==> i < list@.len() && key_of(list@[i as int]) == series_id.name@,
        r is None ==> forall|i: int| 0 <= i < list@.len() ==> key_of(list@[i]) != series_id.name@,
{
    let mut i: usize = 0;
    while i < list.len()
        invariant
            i <= list@.len(),
            forall|j: int| 0 <= j < i ==> key_of(list@[j]) != series_id.name@,
        decreases list@.len() - i,
    {
        if same_name(&list[i].series_id, series_id) {
            return Some(i);
        }
        i = i + 1;
    }
    None
}

/// `m2` equals `m1` at every key but `k`, and has the same keys.
pub open spec fn same_except(m1: Map<Seq<char>, DownloadProgress>, m2: Map<Seq<char>, DownloadProgress>, k: Seq<char>) -> bool {
    &&& m2.dom() == m1.dom()
    &&& forall|k2: Seq<char>| #[trigger] m1.dom().contains(k2) && k2 != k ==> m2[k2] == m1[k2]
}

impl DownloadManager {
    /// At most one download per series.
    #[verifier::type_invariant]
    closed spec fn keys_unique(&self) -> bool {
        unique_keys(self.downloads@)
    }

    /// An empty manager.
    pub fn new() -> (m: Self)
        ensures
            m@ == Map::<Seq<char>, DownloadProgress>::empty(),
    {
        DownloadManager { downloads: Vec::new() }
    }

    /// Starts (or restarts) the download of `progress.series_id`.
    pub fn start_download(&mut self, progress: DownloadProgress)
        ensures
            final(self)@ == old(self)@.insert(key_of(progress), progress),
    {
        proof { use_type_invariant(&*self); }
        let mut list: Vec<DownloadProgress> = Vec::new();
        std::mem::swap(&mut list, &mut self.downloads);
        let ghost s = list@;
        match find_in(&list, &progress.series_id) {
            Some(i) => {
                let _ = list.remove(i);
                list.insert(i, progress);
                proof {
                    assert(list@ =~= s.update(i as int, progress));
                    lemma_to_map_update(s, i as int, progress);
                }
            },
            None => {
                list.push(progress);
                proof {
                    assert(list@.drop_last() =~= s);
                    assert(unique_keys(list@)) by {
                        assert forall|a: int, b: int| 0 <= a < list@.len() && 0 <= b < list@.len() && a != b
                            implies key_of(list@[a]) != key_of(list@[b]) by {
                            if a < s.len() { assert(list@[a] == s[a]); }
                            if b < s.len() { assert(list@[b] == s[b]); }
                        }
                    }
                }
            },
        }
        self.downloads = list;
    }

    /// Records the count of downloaded candles and the point reached; false (and no
    /// change) when no download of that series is in progress.
    pub fn update_progress(&mut self, series_id: &SeriesId, count: usize, next_end: i64) -> (r: bool)
        ensures
            r == old(self)@.dom().contains(series_id.name@),
            r ==> final(self)@ == old(self)@.insert(
                series_id.name@,
                DownloadProgress { current_count: count, target_end: next_end, ..old(self)@[series_id.name@] },
            ),
            !r ==> final(self)@ == old(self)@,
    {
        proof { use_type_invariant(&*self); lemma_to_map(self.downloads@); }
        match find_in(&self.downloads, series_id) {
            Some(i) => {
                let mut list: Vec<DownloadProgress> = Vec::new();
                std::mem::swap(&mut list, &mut self.downloads);
                let ghost s = list@;
                let mut p = list.remove(i);
                p.current_count = count;
                p.target_end = next_end;
                list.insert(i, p);
                proof {
                    assert(list@ =~= s.update(i as int, p));
                    lemma_to_map_update(s, i as int, p);
                }
                self.downloads = list;
                true
            },
            None => false,
        }
    }

    /// Moves the download of `series_id` to its next gap: the first remaining gap is
    /// taken out and becomes the current one, and is returned. `None` (and no change)
    /// when there is no such download or no gap is left.
    pub fn next_gap(&mut self, series_id: &SeriesId) -> (r: Option<(i64, i64)>)
        ensures
            ({
                let k = series_id.name@;
                let o = old(self)@;
                if o.dom().contains(k) && o[k].gaps_remaining@.len() > 0 {
                    let g = o[k].gaps_remaining@[0];
                    &&& r == Some(g)
                    &&& same_except(o, final(self)@, k)
                    &&& final(self)@[k].series_id == o[k].series_id
                    &&& final(self)@[k].current_count == o[k].current_count
                    &&& final(self)@[k].estimated_total == o[k].estimated_total
                    &&& final(self)@[k].current_start == g.0
                    &&& final(self)@[k].target_end == g.1
                    &&& final(self)@[k].gaps_remaining@ == o[k].gaps_remaining@.drop_first()
                    &&& final(self)@[k].paused == o[k].paused
                } else {
                    &&& r is None
                    &&& final(self)@ == o
                }
            }),
    {
        proof { use_type_invariant(&*self); lemma_to_map(self.downloads@); }
        match find_in(&self.downloads, series_id) {
            Some(i) => {
                if self.downloads[i].gaps_remaining.len() == 0 {
                    return None;
                }
                let mut list: Vec<DownloadProgress> = Vec::new();
                std::mem::swap(&mut list, &mut self.downloads);
                let ghost s = list@;
                let mut p = list.remove(i);
                let (gap_start, gap_end) = p.gaps_remaining.remove(0);
                p.current_start = gap_start;
                p.target_end = gap_end;
                list.insert(i, p);
                proof {
                    assert(list@ =~= s.update(i as int, p));
                    lemma_to_map_update(s, i as int, p);
                    assert(p.gaps_remaining@ =~= s[i as int].gaps_remaining@.drop_first());
                    assert(to_map(s)[key_of(s[i as int])] == s[i as int]);
                    assert(to_map(s).insert(key_of(p), p).dom() =~= to_map(s).dom());
                }
                self.downloads = list;
                Some((gap_start, gap_end))
            },
            None => None,
        }
    }

    /// Removes the download of `series_id`; true when there was one.
    pub fn finish_download(&mut self, series_id: &SeriesId) -> (r: bool)
        ensures
            r == old(self)@.dom().contains(series_id.name@),
            final(self)@ == old(self)@.remove(series_id.name@),
    {
        proof { use_type_invariant(&*self); lemma_to_map(self.downloads@); }
        match find_in(&self.downloads, series_id) {
            Some(i) => {
                let mut list: Vec<DownloadProgress> = Vec::new();
                std::mem::swap(&mut list, &mut self.downloads);
                let ghost s = list@;
                let _ = list.remove(i);
                proof {
                    lemma_to_map_remove(s, i as int);
                }
                self.downloads = list;
                true
            },
            None => {
                proof {
                    assert(self@ =~= old(self)@.remove(series_id.name@));
                }
                false
            },
        }
    }

    /// The progress of the download of `series_id`, if any.
    pub fn get_progress(&self, series_id: &SeriesId) -> (r: Option<&DownloadProgress>)
        ensures
            r matches Some(p) ==> self@.dom().contains(series_id.name@) && *p == self@[series_id.name@],
            r is None ==> !self@.dom().contains(series_id.name@),
    {
        proof { use_type_invariant(self); lemma_to_map(self.downloads@); }
        match find_in(&self.downloads, series_id) {
            Some(i) => Some(&self.downloads[i]),
            None => None,
        }
    }

    /// Every download in progress, each series once.
    pub fn all_downloads(&self) -> (s: &[DownloadProgress])
        ensures
            unique_keys(s@),
            to_map(s@) == self@,
    {
        proof { use_type_invariant(self); }
        self.downloads.as_slice()
    }

    /// Whether a download of `series_id` is in progress.
    pub fn is_downloading(&self, series_id: &SeriesId) -> (r: bool)
        ensures
            r == self@.dom().contains(series_id.name@),
    {
        proof { use_type_invariant(self); lemma_to_map(self.downloads@); }
        find_in(&self.downloads, series_id).is_some()
    }

    /// Whether the download of `series_id` is paused (false when there is none).
    pub fn is_paused(&self, series_id: &SeriesId) -> (r: bool)
        ensures
            r == (self@.dom().contains(series_id.name@) && self@[series_id.name@].paused),
    {
        proof { use_type_invariant(self); lemma_to_map(self.downloads@); }
        match find_in(&self.downloads, series_id) {
            Some(i) => self.downloads[i].paused,
            None => false,
        }
    }

    /// Sets the paused flag of the download of `series_id`.
    fn set_paused(&mut self, series_id: &SeriesId, paused: bool) -> (r: bool)
        ensures
            r == old(self)@.dom().contains(series_id.name@),
            r ==> final(self)@ == with_paused(old(self)@, series_id.name@, paused),
            !r ==> final(self)@ == old(self)@,
    {
        proof { use_type_invariant(&*self); lemma_to_map(self.downloads@); }
        match find_in(&self.downloads, series_id) {
            Some(i) => {
                let mut list: Vec<DownloadProgress> = Vec::new();
                std::mem::swap(&mut list, &mut self.downloads);
                let ghost s = list@;
                let mut p = list.remove(i);
                p.paused = paused;
                list.insert(i, p);
                proof {
                    assert(list@ =~= s.update(i as int, p));
                    lemma_to_map_update(s, i as int, p);
                }
                self.downloads = list;
                true
            },
            None => false,
        }
    }

    /// Pauses the download of `series_id`; false when there is none.
    pub fn pause_download(&mut self, series_id: &SeriesId) -> (r: bool)
        ensures
            r == old(self)@.dom().contains(series_id.name@),
            r ==> final(self)@ == with_paused(old(self)@, series_id.name@, true),
            !r ==> final(self)@ == old(self)@,
    {
        self.set_paused(series_id, true)
    }

    /// Resumes the download of `series_id`; false when there is none.
    pub fn resume_download(&mut self, series_id: &SeriesId) -> (r: bool)
        ensures
            r == old(self)@.dom().contains(series_id.name@),
            r ==> final(self)@ == with_paused(old(self)@, series_id.name@, false),
            !r ==> final(self)@ == old(self)@,
    {
        self.set_paused(series_id, false)
    }

    /// Stops the download of `series_id` (removes it); true when there was one.
    pub fn stop_download(&mut self, series_id: &SeriesId) -> (r: bool)
        ensures
            r == old(self)@.dom().contains(series_id.name@),
            final(self)@ == old(self)@.remove(series_id.name@),
    {
        self.finish_download(series_id)
    }

    /// Number of downloads in progress.
    pub fn count(&self) -> (n: usize)
        ensures
            n == self@.len(),
    {
        proof { use_type_invariant(self); lemma_to_map(self.downloads@); }
        self.downloads.len()
    }
}

impl Default for DownloadManager {
    /// An empty manager.
    fn default() -> (m: Self)
        ensures
            m@ == Map::<Seq<char>, DownloadProgress>::empty(),
    {
        DownloadManager::new()
    }
}

impl Clone for DownloadProgress {
    /// A copy with the same fields.
    fn clone(&self) -> (c: Self)
        ensures
            c.series_id.name@ == self.series_id.name@,
            c.current_count == self.current_count,
            c.estimated_total == self.estimated_total,
            c.current_start == self.current_start,
            c.target_end == self.target_end,
            c.gaps_remaining@ == self.gaps_remaining@,
            c.paused == self.paused,
    {
        let mut gaps: Vec<(i64, i64)> = Vec::new();
        let mut i: usize = 0;
        while i < self.gaps_remaining.len()
            invariant
                i <= self.gaps_remaining@.len(),
                gaps@ == self.gaps_remaining@.take(i as int),
            decreases self.gaps_remaining@.len() - i,
        {
            gaps.push(self.gaps_remaining[i]);
            i = i + 1;
            assert(gaps@ =~= self.gaps_remaining@.take(i as int));
        }
        assert(self.gaps_remaining@.take(i as int) =~= self.gaps_remaining@);
        DownloadProgress {
            series_id: SeriesId { name: self.series_id.name.clone() },
            current_count: self.current_count,
            estimated_total: self.estimated_total,
            current_start: self.current_start,
            target_end: self.target_end,
            gaps_remaining: gaps,
            paused: self.paused,
        }
    }
}

/// Two progress records with the same series name and the same fields.
pub open spec fn same_progress(a: DownloadProgress, b: DownloadProgress) -> bool {
    &&& a.series_id.name@ == b.series_id.name@
    &&& a.current_count == b.current_count
    &&& a.estimated_total == b.estimated_total
    &&& a.current_start == b.current_start
    &&& a.target_end == b.target_end
    &&& a.gaps_remaining@ == b.gaps_remaining@
    &&& a.paused == b.paused
}

impl Clone for DownloadManager {
    /// A manager with copies of the same downloads.
    fn clone(&self) -> (c: Self)
        ensures
            c@.dom() == self@.dom(),
            forall|k: Seq<char>| #[trigger] c@.dom().contains(k) ==> same_progress(c@[k], self@[k]),
    {
        proof { use_type_invariant(self); lemma_to_map(self.downloads@); }
        let mut list: Vec<DownloadProgress> = Vec::new();
        let mut i: usize = 0;
        while i < self.downloads.len()
            invariant
                i <= self.downloads@.len(),
                unique_keys(self.downloads@),
                list@.len() == i,
                forall|j: int| 0 <= j < i ==> key_of(#[trigger] list@[j]) == key_of(self.downloads@[j]),
                forall|j: int| 0 <= j < i ==> same_progress(#[trigger] list@[j], self.downloads@[j]),
            decreases self.downloads@.len() - i,
        {
            list.push(self.downloads[i].clone());
            i = i + 1;
        }
        proof {
            assert(unique_keys(list@)) by {
                assert forall|a: int, b: int| 0 <= a < list@.len() && 0 <= b < list@.len() && a != b
                    implies key_of(list@[a]) != key_of(list@[b]) by {
                    assert(key_of(self.downloads@[a]) != key_of(self.downloads@[b]));
                }
            }
            lemma_to_map(list@);
            assert(to_map(list@).dom() =~= to_map(self.downloads@).dom()) by {
                assert forall|k: Seq<char>| to_map(list@).dom().contains(k) <==> to_map(self.downloads@).dom().contains(k) by {
                    if to_map(list@).dom().contains(k) {
                        let a = choose|a: int| 0 <= a < list@.len() && key_of(list@[a]) == k;
                        assert(key_of(self.downloads@[a]) == k);
                    }
                    if to_map(self.downloads@).dom().contains(k) {
                        let a = choose|a: int| 0 <= a < self.downloads@.len() && key_of(self.downloads@[a]) == k;
                        assert(key_of(list@[a]) == k);
                    }
                }
            }
        }
        proof {
            assert forall|k: Seq<char>| #[trigger] to_map(list@).dom().contains(k) implies same_progress(
                to_map(list@)[k],
                to_map(self.downloads@)[k],
            ) by {
                let a = choose|a: int| 0 <= a < list@.len() && key_of(list@[a]) == k;
                assert(to_map(list@)[key_of(list@[a])] == list@[a]);
                assert(to_map(self.downloads@)[key_of(self.downloads@[a])] == self.downloads@[a]);
            }
        }
        DownloadManager { downloads: list }
    }
}

} // verus!
