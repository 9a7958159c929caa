//! The rhythm of a chat: what its rows in the registry mean for it, and when its
//! document is saved.

use vstd::prelude::*;

use super::handle::ChatDocHandle;
use super::maps::TextSet;
use super::pending::PendingUpdates;
use crate::auth::sign_in::bumped;
use crate::text::{contains_text, join2, texts};

verus! {

/// Debounce window for local snapshot saves after a doc change.
pub const SNAPSHOT_DEBOUNCE_MS: u64 = 1_000;

/// Watches the rows of the registry: a row that goes away takes its chat with it.
#[derive(Debug)]
pub struct RegistryWatch {
    pub previous: Vec<String>,
    pub ownership_ready_seen: bool,
}

/// What a change of the registry asks for.
#[derive(Debug)]
pub struct RegistryChange {
    /// Look at the commands of every open chat: ownership can be read from now on.
    pub redrain: bool,
    /// Purge these chats.
    pub removed: Vec<String>,
}

/// The texts of a list that are not in another, in their order.
pub open spec fn difference(items: Seq<Seq<char>>, others: Seq<Seq<char>>) -> Seq<Seq<char>>
    decreases items.len(),
{
    if items.len() == 0 {
        Seq::empty()
    } else {
        let rest = difference(items.drop_last(), others);
        if others.contains(items.last()) {
            rest
        } else {
            rest.push(items.last())
        }
    }
}

impl RegistryWatch {
    /// Begins to watch from a baseline that was read before the watch was set up: a row
    /// that goes away in between must not be missed. Without an edge there is no
    /// ownership to wait for.
    pub fn new(baseline: Vec<String>, edge: bool) -> (r: Self)
        ensures
            r.previous == baseline,
            r.ownership_ready_seen == !edge,
    {
        RegistryWatch { previous: baseline, ownership_ready_seen: !edge }
    }

    /// The registry has these rows now. Commands that waited for ownership to be
    /// readable are looked at once, when it is.
    pub fn changed(&mut self, ownership_ready: bool, current: Vec<String>) -> (r: RegistryChange)
        ensures
            r.redrain == (!old(self).ownership_ready_seen && ownership_ready),
            texts(r.removed@) == difference(texts(old(self).previous@), texts(current@)),
            final(self).previous == current,
            final(self).ownership_ready_seen == (old(self).ownership_ready_seen
                || ownership_ready),
    {
        let redrain = !self.ownership_ready_seen && ownership_ready;
        if redrain {
            self.ownership_ready_seen = true;
        }
        let mut removed: Vec<String> = Vec::new();
        assert(texts(removed@) =~= Seq::empty());
        let mut i: usize = 0;
        while i < self.previous.len()
            invariant
                i <= self.previous@.len(),
                self.previous == old(self).previous,
                self.ownership_ready_seen == (old(self).ownership_ready_seen || ownership_ready),
                texts(removed@) == difference(
                    texts(self.previous@).take(i as int),
                    texts(current@),
                ),
            decreases self.previous@.len() - i,
        {
            let ghost before = removed@;
            assert(texts(self.previous@).take(i + 1).drop_last() =~= texts(self.previous@).take(
                i as int,
            ));
            if !contains_text(&current, self.previous[i].as_str()) {
                removed.push(self.previous[i].clone());
                assert(texts(removed@) =~= texts(before).push(self.previous@[i as int]@));
            }
            i = i + 1;
        }
        assert(texts(self.previous@).take(i as int) =~= texts(self.previous@));
        self.previous = current;
        RegistryChange { redrain, removed }
    }
}

/// Exactly the rows that went away are purged: a chat that is still there is not, and
/// none that is gone is missed.
pub proof fn exactly_the_removed_rows_are_purged(
    previous: Seq<Seq<char>>,
    current: Seq<Seq<char>>,
    chat: Seq<char>,
)
    ensures
        difference(previous, current).contains(chat) == (previous.contains(chat)
            && !current.contains(chat)),
    decreases previous.len(),
{
    if previous.len() > 0 {
        let less = previous.drop_last();
        let rest = difference(less, current);
        let last = previous.last();
        exactly_the_removed_rows_are_purged(less, current, chat);
        assert(previous =~= less.push(last));
        assert(previous.contains(chat) == (less.contains(chat) || chat == last)) by {
            if less.contains(chat) {
                let j = choose|j: int| 0 <= j < less.len() && less[j] == chat;
                assert(previous[j] == chat);
            }
            if chat == last {
                assert(previous[previous.len() - 1] == chat);
            }
        }
        assert(rest.push(last).contains(chat) == (rest.contains(chat) || chat == last)) by {
            if rest.contains(chat) {
                let j = choose|j: int| 0 <= j < rest.len() && rest[j] == chat;
                assert(rest.push(last)[j] == chat);
            }
            if chat == last {
                assert(rest.push(last)[rest.len() as int] == chat);
            }
        }
    }
}

/// Deletes a chat: its fence stands for good, nothing waits for it any more, and its
/// handle is closed. Its snapshot, and the one from before the synchronized
/// generations, whose name is returned, have to be deleted.
pub fn purge_chat(pending: &mut PendingUpdates, handle: &mut ChatDocHandle) -> (rollback: String)
    requires
        old(pending).wf(),
    ensures
        final(pending).wf(),
        final(pending).purged.has(old(handle).chat_id@),
        forall|other: Seq<char>|
            other != old(handle).chat_id@ ==> #[trigger] final(pending).purged.has(other) == old(
                pending,
            ).purged.has(other),
        final(pending).queue(old(handle).chat_id@) == Seq::<Vec<u8>>::empty(),
        final(pending).same_elsewhere(*old(pending), old(handle).chat_id@),
        *final(handle) == (ChatDocHandle {
            purged: true,
            generation_frozen: true,
            retired: true,
            sink_generation: bumped(old(handle).sink_generation),
            connected: false,
            ..*old(handle)
        }),
        rollback@ == old(handle).chat_id@ + ".pre-chat2"@,
{
    pending.purge(handle.chat_id.as_str());
    handle.purge();
    join2(handle.chat_id.as_str(), ".pre-chat2")
}

/// What a client that was taken out had not delivered goes back to the queue, and the
/// snapshot is saved for a full replay from then on. Nothing is kept for a deleted chat.
pub fn carry_back(
    handle: &mut ChatDocHandle,
    pending: &mut PendingUpdates,
    parked: Vec<Vec<u8>>,
) -> (count: usize)
    requires
        old(pending).wf(),
    ensures
        count == parked@.len(),
        final(pending).wf(),
        final(pending).same_fences(*old(pending)),
        final(pending).same_elsewhere(*old(pending), old(handle).chat_id@),
        ({
            let gone = old(handle).purged || old(pending).purged.has(old(handle).chat_id@);
            &&& final(pending).queue(old(handle).chat_id@) == (if gone {
                Seq::<Vec<u8>>::empty()
            } else {
                old(pending).queue(old(handle).chat_id@) + parked@
            })
            &&& *final(handle) == (ChatDocHandle {
                replay_from_zero: old(handle).replay_from_zero || (!gone && parked@.len() > 0),
                ..*old(handle)
            })
        }),
{
    let count: usize = parked.len();
    if handle.purged {
        let _ = pending.take(handle.chat_id.as_str());
        return count;
    }
    let replay = pending.carry_parked_updates(handle.chat_id.as_str(), parked);
    if replay {
        handle.replay_from_zero = true;
    }
    count
}

/// Parks the room client of a chat without dropping local work: the client is taken out
/// and what it had not delivered goes back to the queue.
pub fn park_chat2_client(
    handle: &mut ChatDocHandle,
    pending: &mut PendingUpdates,
    parked: Vec<Vec<u8>>,
) -> (count: usize)
    requires
        old(pending).wf(),
    ensures
        count == parked@.len(),
        final(pending).wf(),
        final(pending).same_fences(*old(pending)),
        final(pending).same_elsewhere(*old(pending), old(handle).chat_id@),
        ({
            let gone = old(handle).purged || old(pending).purged.has(old(handle).chat_id@);
            &&& final(pending).queue(old(handle).chat_id@) == (if gone {
                Seq::<Vec<u8>>::empty()
            } else {
                old(pending).queue(old(handle).chat_id@) + parked@
            })
            &&& *final(handle) == (ChatDocHandle {
                sink_generation: bumped(old(handle).sink_generation),
                connected: false,
                replay_from_zero: old(handle).replay_from_zero || (!gone && parked@.len() > 0),
                ..*old(handle)
            })
        }),
{
    handle.detach_client();
    carry_back(handle, pending, parked)
}

/// When the document of a chat is saved next.
#[derive(Debug, Clone, Copy, PartialEq, Eq, Structural)]
pub struct SaveTimer {
    pub deadline: Option<u64>,
}

impl SaveTimer {
    pub fn new() -> (r: Self)
        ensures
            r.deadline is None,
    {
        SaveTimer { deadline: None }
    }

    /// The document changed: it is saved when the window has passed since the first
    /// change, however many follow.
    pub fn changed(&mut self, now: u64)
        requires
            now + SNAPSHOT_DEBOUNCE_MS <= u64::MAX,
        ensures
            final(self).deadline == (match old(self).deadline {
                Some(at) => Some(at),
                None => Some((now + SNAPSHOT_DEBOUNCE_MS) as u64),
            }),
    {
        if self.deadline.is_none() {
            self.deadline = Some(now + SNAPSHOT_DEBOUNCE_MS);
        }
    }

    /// Whether to save now; the next change starts a new window.
    pub fn due(&mut self, now: u64) -> (save: bool)
        ensures
            save == (old(self).deadline is Some && old(self).deadline->0 <= now),
            final(self).deadline == (if save {
                None
            } else {
                old(self).deadline
            }),
    {
        match self.deadline {
            Some(at) => {
                if at <= now {
                    self.deadline = None;
                    true
                } else {
                    false
                }
            },
            None => false,
        }
    }
}

/// Arms the re-check of a chat whose queue waits for attachments: whether to start it,
/// for only one runs for a chat.
pub fn arm_attachment_wait(waiting: &mut TextSet, chat_id: &str) -> (start: bool)
    ensures
        start == !old(waiting).has(chat_id@),
        final(waiting).has(chat_id@),
        forall|k: Seq<char>|
            k != chat_id@ ==> #[trigger] final(waiting).has(k) == old(waiting).has(k),
{
    waiting.insert(chat_id.to_owned())
}

/// Ends the re-check of a chat.
pub fn disarm_attachment_wait(waiting: &mut TextSet, chat_id: &str)
    ensures
        !final(waiting).has(chat_id@),
        forall|k: Seq<char>|
            k != chat_id@ ==> #[trigger] final(waiting).has(k) == old(waiting).has(k),
{
    let _ = waiting.remove(chat_id);
}

} // verus!
