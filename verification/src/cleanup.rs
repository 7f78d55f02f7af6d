//! The retention rule for extracted frames.

use vstd::prelude::*;
use crate::timestamp::Timestamp;

verus! {

/// How long an extracted frame is kept, in seconds.
pub const RETENTION_SECONDS: u32 = 3600;

/// An entry of the frames directory: its path and, where the file system
/// could tell, when it was last modified.
#[derive(Debug, Clone, PartialEq, Eq)]
pub struct FrameEntry {
    pub path: String,
    pub modified: Option<Timestamp>,
}

/// Whether an entry is to be removed at `now`: its modification time is
/// known and lies more than the retention time back.
pub open spec fn is_stale(entry: FrameEntry, now: Timestamp) -> bool {
    match entry.modified {
        Some(modified) => modified.older_than(RETENTION_SECONDS as int, now),
        None => false,
    }
}

/// The entries to remove at `now`, in the order given.
pub open spec fn stale_entries(entries: Seq<FrameEntry>, now: Timestamp) -> Seq<FrameEntry> {
    entries.filter(|e: FrameEntry| is_stale(e, now))
}

/// The paths of the entries to remove at `now`, in the order given.
pub open spec fn stale_paths(entries: Seq<FrameEntry>, now: Timestamp) -> Seq<Seq<char>> {
    stale_entries(entries, now).map_values(|e: FrameEntry| e.path@)
}

/// Selects the entries of the frames directory to remove: exactly those
/// last modified more than an hour before `now`.  Entries whose
/// modification time is unknown are kept.
pub fn cleanup_old_frames(entries: &Vec<FrameEntry>, now: &Timestamp) -> (paths: Vec<String>)
    ensures
        paths.deep_view() == stale_paths(entries@, *now),
{
    let ghost stale = |e: FrameEntry| is_stale(e, *now);
    let ghost path_of = |e: FrameEntry| e.path@;
    let mut paths: Vec<String> = Vec::new();
    let mut i: usize = 0;
    proof {
        reveal(Seq::filter);
        assert(paths.deep_view() =~= entries@.take(0).filter(stale).map_values(path_of));
    }
    while i < entries.len()
        invariant
            i <= entries.len(),
            stale == |e: FrameEntry| is_stale(e, *now),
            path_of == |e: FrameEntry| e.path@,
            paths.deep_view() == entries@.take(i as int).filter(stale).map_values(path_of),
        decreases entries.len() - i,
    {
        let entry = &entries[i];
        proof {
            let done = entries@.take(i as int);
            assert(entries@.take(i + 1) =~= done.push(*entry));
            done.lemma_filter_push(*entry, stale);
            done.filter(stale).lemma_push_map_commute(path_of, *entry);
        }
        let remove = match &entry.modified {
            Some(modified) => modified.is_older_than(RETENTION_SECONDS, now),
            None => false,
        };
        if remove {
            let ghost before = paths.deep_view();
            paths.push(entry.path.clone());
            assert(paths.deep_view() =~= before.push(entry.path@));
        }
        i += 1;
    }
    assert(entries@.take(entries.len() as int) =~= entries@);
    paths
}

/// An entry whose modification time is unknown, or lies within the
/// retention time, is never selected, wherever it stands.
pub proof fn lemma_fresh_entries_are_kept(entries: Seq<FrameEntry>, now: Timestamp, at: int)
    requires
        0 <= at < entries.len(),
        !is_stale(entries[at], now),
    ensures
        stale_entries(entries, now) == stale_entries(entries.remove(at), now),
{
    let stale = |e: FrameEntry| is_stale(e, now);
    let head = entries.take(at);
    let tail = entries.skip(at + 1);
    assert(entries =~= head.push(entries[at]) + tail);
    assert(entries.remove(at) =~= head + tail);
    head.lemma_filter_push(entries[at], stale);
    Seq::filter_distributes_over_add(head.push(entries[at]), tail, stale);
    Seq::filter_distributes_over_add(head, tail, stale);
}

/// Every entry last modified more than the retention time ago is selected.
pub proof fn lemma_stale_entries_are_selected(entries: Seq<FrameEntry>, now: Timestamp, at: int)
    requires
        0 <= at < entries.len(),
        is_stale(entries[at], now),
    ensures
        stale_entries(entries, now).contains(entries[at]),
        stale_paths(entries, now).contains(entries[at].path@),
{
    let stale = |e: FrameEntry| is_stale(e, now);
    entries.lemma_filter_contains(stale, at);
    let chosen = stale_entries(entries, now);
    let k = choose|k: int| 0 <= k < chosen.len() && chosen[k] == entries[at];
    assert(stale_paths(entries, now)[k] == entries[at].path@);
}

} // verus!
