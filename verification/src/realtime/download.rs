//! Batch downloads of history: what each batch keeps, and what follows a batch.
use vstd::prelude::*;
use crate::data::download_manager::{DownloadManager, DownloadProgress, SeriesId, key_of, same_except};

verus! {

/// Size of a full batch from the exchange.
pub const BATCH_SIZE: usize = 1000;

/// What a batch keeps, and where the download goes next.
#[derive(Debug)]
pub struct BatchPlan {
    /// One flag per candle of the batch: whether it lies inside the gap.
    pub keep: Vec<bool>,
    /// Candles downloaded so far, this batch included.
    pub count: usize,
    /// Point the download continues from; the gap's start once it is done.
    pub next_end: i64,
}

/// Whether a timestamp lies in `[gap_start, current_end]`.
pub open spec fn in_gap(t: i64, gap_start: i64, current_end: i64) -> bool {
    gap_start <= t <= current_end
}

/// Number of timestamps of `ts` inside `[gap_start, current_end]`.
pub open spec fn kept_count(ts: Seq<i64>, gap_start: i64, current_end: i64) -> nat {
    ts.filter(|t: i64| in_gap(t, gap_start, current_end)).len()
}

/// Where a download goes after a batch whose candles (oldest first) have the
/// timestamps `ts`: to the gap's start when the batch is empty, short, or reaches
/// the gap's start; otherwise to just before its oldest candle.
pub open spec fn next_end_after(ts: Seq<i64>, gap_start: i64) -> i64 {
    if ts.len() == 0 || ts[0] <= gap_start || ts.len() < BATCH_SIZE {
        gap_start
    } else {
        (ts[0] - 1) as i64
    }
}

/// Plans what to keep of a batch whose candles, oldest first, have the timestamps
/// `timestamps`: the candles inside `[gap_start, current_end]` are kept and counted,
/// and the download continues from `next_end_after`. A failed fetch is planned as an
/// empty batch.
pub fn plan_batch(timestamps: &Vec<i64>, gap_start: i64, current_end: i64, current_count: usize) -> (p: BatchPlan)
    requires
        current_count + timestamps@.len() <= usize::MAX,
    ensures
        p.keep@.len() == timestamps@.len(),
        forall|i: int| 0 <= i < timestamps@.len() ==> p.keep@[i] == in_gap(timestamps@[i], gap_start, current_end),
        p.count == current_count + kept_count(timestamps@, gap_start, current_end),
        p.next_end == next_end_after(timestamps@, gap_start),
{
    let ghost ts = timestamps@;
    let ghost pred = |t: i64| in_gap(t, gap_start, current_end);
    let mut keep: Vec<bool> = Vec::new();
    let mut kept: usize = 0;
    let mut i: usize = 0;
    while i < timestamps.len()
        invariant
            ts == timestamps@,
            i <= ts.len(),
            current_count + ts.len() <= usize::MAX,
            pred == (|t: i64| in_gap(t, gap_start, current_end)),
            keep@.len() == i,
            forall|j: int| 0 <= j < i ==> keep@[j] == in_gap(ts[j], gap_start, current_end),
            kept == ts.take(i as int).filter(pred).len(),
            kept <= i,
        decreases ts.len() - i,
    {
        proof {
            reveal(Seq::filter);
            assert(ts.take(i + 1).drop_last() =~= ts.take(i as int));
        }
        let t = timestamps[i];
        let inside = gap_start <= t && t <= current_end;
        keep.push(inside);
        if inside {
            kept = kept + 1;
        }
        i = i + 1;
    }
    assert(ts.take(ts.len() as int) =~= ts);
    let next_end = if timestamps.len() == 0 || timestamps[0] <= gap_start || timestamps.len() < BATCH_SIZE {
        gap_start
    } else {
        timestamps[0] - 1
    };
    BatchPlan { keep, count: current_count + kept, next_end }
}

/// What follows a batch.
#[derive(Debug, Clone, Copy, PartialEq, Eq, Structural)]
pub enum BatchAction {
    /// The download was cancelled or finished meanwhile: the batch is dropped.
    Ignore,
    /// Fetch the next batch.
    Continue,
    /// The download is paused: the chain of batches stops here.
    Paused,
    /// Every gap is filled: the download is complete.
    Complete,
}

/// What follows a batch, and whether to save the series now.
#[derive(Debug, Clone, Copy)]
pub struct BatchOutcome {
    pub save: bool,
    pub action: BatchAction,
}

/// Saving happens every tenth batch and at the last gap, and only when the batch
/// added candles.
pub open spec fn save_after_batch(p: DownloadProgress, merged: bool) -> bool {
    merged && (((p.current_count / 1000) + 1) % 10 == 0 || p.gaps_remaining@.len() == 0)
}

/// Applies the result of a batch of the download of `series_id`: records `count`
/// and `next_end`; when the current gap is done, moves to the next gap or reports
/// completion; otherwise continues unless paused. `merged` tells whether the
/// batch's candles added new ones to the series.
pub fn handle_batch_download_result(
    manager: &mut DownloadManager,
    series_id: &SeriesId,
    count: usize,
    next_end: i64,
    merged: bool,
) -> (out: BatchOutcome)
    ensures
        ({
            let k = series_id.name@;
            let o = old(manager)@;
            let f = final(manager)@;
            if !o.dom().contains(k) {
                &&& out.action == BatchAction::Ignore
                &&& !out.save
                &&& f == o
            } else {
                let p = o[k];
                &&& out.save == save_after_batch(p, merged)
                &&& same_except(o, f, k)
                &&& f[k].series_id == p.series_id
                &&& f[k].current_count == count
                &&& f[k].estimated_total == p.estimated_total
                &&& f[k].paused == p.paused
                &&& if next_end <= p.current_start {
                    if p.gaps_remaining@.len() > 0 {
                        &&& f[k].current_start == p.gaps_remaining@[0].0
                        &&& f[k].target_end == p.gaps_remaining@[0].1
                        &&& f[k].gaps_remaining@ == p.gaps_remaining@.drop_first()
                        &&& out.action == (if p.paused { BatchAction::Paused } else { BatchAction::Continue })
                    } else {
                        &&& f[k].current_start == p.current_start
                        &&& f[k].target_end == next_end
                        &&& f[k].gaps_remaining@ == p.gaps_remaining@
                        &&& out.action == BatchAction::Complete
                    }
                } else {
                    &&& f[k].current_start == p.current_start
                    &&& f[k].target_end == next_end
                    &&& f[k].gaps_remaining@ == p.gaps_remaining@
                    &&& out.action == (if p.paused { BatchAction::Paused } else { BatchAction::Continue })
                }
            }
        }),
{
    let save = match manager.get_progress(series_id) {
        None => {
            return BatchOutcome { save: false, action: BatchAction::Ignore };
        },
        Some(p) => merged && ((p.current_count / 1000) + 1) % 10 == 0 || merged && p.gaps_remaining.len() == 0,
    };
    let ghost mid0 = manager@;
    let updated = manager.update_progress(series_id, count, next_end);
    let ghost mid = manager@;
    assert(updated);
    let current_start = match manager.get_progress(series_id) {
        Some(p) => p.current_start,
        None => {
            return BatchOutcome { save, action: BatchAction::Ignore };
        },
    };
    proof {
        assert(mid.dom() =~= mid0.dom());
    }
    if next_end <= current_start {
        match manager.next_gap(series_id) {
            Some(_) => {},
            None => {
                return BatchOutcome { save, action: BatchAction::Complete };
            },
        }
    }
    let action = if manager.is_paused(series_id) { BatchAction::Paused } else { BatchAction::Continue };
    BatchOutcome { save, action }
}

/// Starts a download over `gaps` (newest first): the first gap becomes the current
/// one and the others wait. Returns false, changing nothing, when there is no gap
/// (the download is then complete at once).
pub fn start_batch_download(
    manager: &mut DownloadManager,
    series_id: SeriesId,
    gaps: Vec<(i64, i64)>,
    estimated_total: usize,
) -> (started: bool)
    ensures
        started == (gaps@.len() > 0),
        !started ==> final(manager)@ == old(manager)@,
        started ==> same_except(
            old(manager)@.insert(series_id.name@, final(manager)@[series_id.name@]),
            final(manager)@,
            series_id.name@,
        ),
        started ==> ({
            let p = final(manager)@[series_id.name@];
            &&& final(manager)@.dom() == old(manager)@.dom().insert(series_id.name@)
            &&& p.series_id == series_id
            &&& p.current_count == 0
            &&& p.estimated_total == estimated_total
            &&& p.current_start == gaps@[0].0
            &&& p.target_end == gaps@[0].1
            &&& p.gaps_remaining@ == gaps@.drop_first()
            &&& !p.paused
        }),
{
    if gaps.len() == 0 {
        return false;
    }
    let (first_start, first_end) = gaps[0];
    let mut rest = gaps;
    let _ = rest.remove(0);
    let progress = DownloadProgress {
        series_id,
        current_count: 0,
        estimated_total,
        current_start: first_start,
        target_end: first_end,
        gaps_remaining: rest,
        paused: false,
    };
    let ghost pv = progress;
    manager.start_download(progress);
    proof {
        assert(key_of(pv) == pv.series_id.name@);
        assert(old(manager)@.insert(key_of(pv), pv).dom() =~= old(manager)@.dom().insert(key_of(pv)));
    }
    true
}

/// Resumes the download of `series_id` and tells whether batches must be fetched
/// again: some gap is left, or the current one is not done.
pub fn resume_batch_download(manager: &mut DownloadManager, series_id: &SeriesId) -> (go: bool)
    ensures
        ({
            let k = series_id.name@;
            let o = old(manager)@;
            &&& o.dom().contains(k) ==> final(manager)@ == o.insert(k, DownloadProgress { paused: false, ..o[k] })
            &&& !o.dom().contains(k) ==> final(manager)@ == o
            &&& go == (o.dom().contains(k) && (o[k].gaps_remaining@.len() > 0 || o[k].target_end > o[k].current_start))
        }),
{
    if manager.resume_download(series_id) {
        match manager.get_progress(series_id) {
            Some(p) => p.gaps_remaining.len() > 0 || p.target_end > p.current_start,
            None => false,
        }
    } else {
        false
    }
}

} // verus!
