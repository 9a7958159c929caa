//! Which open documents are closed again: the ones that were used least recently, while
//! there are too many or they take too much, and never one that is in use.

use vstd::prelude::*;

use super::handle::{resident_bytes, ChatDocHandle};
use super::order::{rows_in_order, sort_rows, Ordered};
use super::snapshots::{plan_of, SnapshotPlan, StoredCursor};
use crate::auth::sign_in::bumped;
use crate::chat::sink::CHAT2_DOC_EPOCH;

verus! {

/// Warm-doc LRU: how many unwatched, run-less docs stay fully open. Everything beyond
/// this, or beyond the byte budget, is evicted oldest-access-first.
pub const WARM_DOC_CAP: usize = 12;

/// Docs touched this recently are never evicted. Closes the open→attach race: an open
/// returns a handle, and until the caller's watch lands the doc is unwatched and
/// unpinned — a concurrent eviction would orphan the watcher on a roomless doc that
/// renders once and never updates again.
pub const EVICT_MIN_IDLE_MS: i64 = 30_000;

/// The estimates of all documents together.
pub open spec fn total_resident(sizes: Seq<usize>) -> int
    decreases sizes.len(),
{
    if sizes.len() == 0 {
        0
    } else {
        total_resident(sizes.drop_last()) + resident_bytes(sizes.last())
    }
}

/// More documents are open than should be, or they take more than they should.
pub open spec fn over_budget(sizes: Seq<usize>, budget: usize) -> bool {
    sizes.len() > WARM_DOC_CAP || total_resident(sizes) > budget
}

proof fn total_grows(sizes: Seq<usize>, k: int)
    requires
        0 <= k <= sizes.len(),
    ensures
        0 <= total_resident(sizes.take(k)) <= total_resident(sizes),
    decreases sizes.len() - k, k,
{
    if k < sizes.len() {
        total_grows(sizes, k + 1);
        assert(sizes.take(k + 1).drop_last() =~= sizes.take(k));
        nonnegative(sizes.take(k));
    } else {
        assert(sizes.take(k) =~= sizes);
        nonnegative(sizes);
    }
}

proof fn nonnegative(sizes: Seq<usize>)
    ensures
        0 <= total_resident(sizes),
    decreases sizes.len(),
{
    if sizes.len() > 0 {
        nonnegative(sizes.drop_last());
    }
}

/// Whether documents with snapshots of these sizes are too many or take too much.
pub fn is_over_budget(sizes: &Vec<usize>, budget: usize) -> (r: bool)
    requires
        forall|i: int| 0 <= i < sizes@.len() ==> #[trigger] sizes@[i] * 6 <= usize::MAX,
        total_resident(sizes@) <= usize::MAX,
    ensures
        r == over_budget(sizes@, budget),
{
    let mut total: usize = 0;
    let mut i: usize = 0;
    while i < sizes.len()
        invariant
            i <= sizes@.len(),
            total == total_resident(sizes@.take(i as int)),
            total_resident(sizes@) <= usize::MAX,
            forall|j: int| 0 <= j < sizes@.len() ==> #[trigger] sizes@[j] * 6 <= usize::MAX,
        decreases sizes@.len() - i,
    {
        assert(sizes@.take(i + 1).drop_last() =~= sizes@.take(i as int));
        proof {
            total_grows(sizes@, i + 1);
        }
        let estimate = super::handle::estimate_of(sizes[i]);
        total = total + estimate;
        i = i + 1;
    }
    assert(sizes@.take(i as int) =~= sizes@);
    sizes.len() > WARM_DOC_CAP || total > budget
}

/// One pass over the open documents, oldest access first.
#[derive(Debug)]
pub struct EvictionPass {
    pub order: Vec<(i64, String, ())>,
    pub next: usize,
}

/// What an eviction pass does next.
#[derive(Debug)]
pub enum EvictionStep {
    Done,
    /// Look at this document: evict it unless it is pinned, then go on.
    Consider(String),
}

impl EvictionPass {
    pub open spec fn wf(self) -> bool {
        rows_in_order(self.order@) && self.next <= self.order@.len()
    }

    /// A pass over the open documents, each with the time of its last access.
    pub fn new(documents: Vec<(i64, String, ())>) -> (r: Self)
        ensures
            r.wf(),
            r.next == 0,
            r.order@.to_multiset() == documents@.to_multiset(),
    {
        let order = sort_rows(documents);
        EvictionPass { order, next: 0 }
    }

    /// The next document to look at. The pass ends at the first one that was touched
    /// too recently, for all after it are younger, and as soon as the rest is within
    /// its bounds.
    pub fn step(&mut self, now: i64, over_budget: bool) -> (r: EvictionStep)
        requires
            old(self).wf(),
        ensures
            final(self).wf(),
            final(self).order == old(self).order,
            match r {
                EvictionStep::Consider(chat) => over_budget && old(self).next < old(
                    self,
                ).order@.len() && chat == old(self).order@[old(self).next as int].1 && now - old(
                    self,
                ).order@[old(self).next as int].0 >= EVICT_MIN_IDLE_MS && final(self).next == old(
                    self,
                ).next + 1,
                EvictionStep::Done => final(self).next == old(self).next && (old(self).next == old(
                    self,
                ).order@.len() || !over_budget || now - old(self).order@[old(
                    self,
                ).next as int].0 < EVICT_MIN_IDLE_MS),
            },
    {
        if self.next >= self.order.len() {
            return EvictionStep::Done;
        }
        let last_access: i128 = self.order[self.next].0 as i128;
        if (now as i128) - last_access < (EVICT_MIN_IDLE_MS as i128) || !over_budget {
            return EvictionStep::Done;
        }
        let chat = self.order[self.next].1.clone();
        self.next = self.next + 1;
        EvictionStep::Consider(chat)
    }
}

/// What keeps a document open.
#[derive(Debug)]
pub struct DocUse {
    /// An executor is at work on it.
    pub draining: bool,
    /// Watchers of its transcript.
    pub watchers: usize,
    /// Holders of the document beside its handle: a run that streams into it.
    pub writers: usize,
    pub is_host: bool,
    /// Whether a command is pending that was not processed; none where the commands
    /// could not be read.
    pub owes_work: Option<bool>,
}

/// A document that must stay open: one that is not ready, watched or written to, and on
/// its host one with work to do — or whose work cannot be read, for nothing is evicted
/// blind.
pub open spec fn pinned(handle: ChatDocHandle, usage: DocUse) -> bool {
    ||| handle.generation_frozen
    ||| usage.watchers > 0
    ||| usage.writers > 0
    ||| usage.is_host && usage.owes_work != Some(false)
}

pub fn pinned_without_drain(handle: &ChatDocHandle, usage: &DocUse) -> (r: bool)
    ensures
        r == pinned(*handle, *usage),
{
    if handle.generation_frozen || usage.watchers > 0 || usage.writers > 0 {
        return true;
    }
    if usage.is_host {
        match usage.owes_work {
            Some(owes) => owes,
            None => true,
        }
    } else {
        false
    }
}

/// A document may be evicted: it is still the open one, and nobody uses it.
pub open spec fn may_evict(handle: ChatDocHandle, current: bool, usage: DocUse) -> bool {
    current && !usage.draining && !pinned(handle, usage)
}

/// Readies a document for its eviction: whether it may be evicted. One that may is
/// marked for a full replay, for its client's queue does not outlive the process.
pub fn begin_eviction(handle: &mut ChatDocHandle, current: bool, usage: &DocUse) -> (evict: bool)
    ensures
        evict == may_evict(*old(handle), current, *usage),
        *final(handle) == (ChatDocHandle {
            replay_from_zero: old(handle).replay_from_zero || (evict && old(handle).room_gen
                >= CHAT2_DOC_EPOCH),
            ..*old(handle)
        }),
{
    if !current || usage.draining || pinned_without_drain(handle, usage) {
        return false;
    }
    if handle.room_gen >= CHAT2_DOC_EPOCH {
        handle.replay_from_zero = true;
    }
    true
}

/// Ends an eviction. A document that could not be saved stays open.
pub fn evicted(handle: &mut ChatDocHandle, saved: bool) -> (gone: bool)
    ensures
        gone == saved,
        *final(handle) == (if saved {
            ChatDocHandle {
                retired: true,
                sink_generation: bumped(old(handle).sink_generation),
                connected: false,
                ..*old(handle)
            }
        } else {
            *old(handle)
        }),
{
    if saved {
        handle.retired = true;
        handle.detach_client();
    }
    saved
}

/// A document that is watched, written to or owes work is never evicted.
pub proof fn a_document_in_use_stays_open(handle: ChatDocHandle, current: bool, usage: DocUse)
    ensures
        usage.watchers > 0 || usage.writers > 0 || usage.draining ==> !may_evict(
            handle,
            current,
            usage,
        ),
        usage.is_host && usage.owes_work != Some(false) ==> !may_evict(handle, current, usage),
{
}

/// A pass that ends at a document that was touched too recently leaves no other that
/// was not: the oldest come first.
pub proof fn the_oldest_come_first(pass: EvictionPass, now: i64)
    requires
        pass.wf(),
        pass.next < pass.order@.len(),
        now - pass.order@[pass.next as int].0 < EVICT_MIN_IDLE_MS,
    ensures
        forall|j: int|
            pass.next <= j < pass.order@.len() ==> now - (#[trigger] pass.order@[j]).0
                < EVICT_MIN_IDLE_MS,
{
    assert forall|j: int| pass.next <= j < pass.order@.len() implies now - (
    #[trigger] pass.order@[j]).0 < EVICT_MIN_IDLE_MS by {
        if j > pass.next {
            assert(!pass.order@[j].less(pass.order@[pass.next as int]));
        }
    }
}

/// An evicted document loses nothing: before it goes it is saved for a full replay,
/// unless a newer generation owns the chat.
pub proof fn an_evicted_document_is_saved_for_replay(
    handle: ChatDocHandle,
    ready: ChatDocHandle,
    stored: Option<StoredCursor>,
    plan: SnapshotPlan,
)
    requires
        handle.room_gen >= CHAT2_DOC_EPOCH,
        !handle.purged,
        ready == (ChatDocHandle { replay_from_zero: true, ..handle }),
        plan_of(ready, handle.room_gen, stored, plan),
    ensures
        plan is SaveAtZero || (plan is KeepNewer && stored is Some && stored->0.epoch
            > handle.room_gen),
{
}

} // verus!
