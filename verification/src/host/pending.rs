//! Local updates that wait for a room client, and the fences of deleted chats.
//!
//! The queue outlives the handle of a chat, so that updates survive the replacement of
//! a handle; a deleted chat has no queue, ever again.

use vstd::prelude::*;

use super::maps::{TextMap, TextSet};

verus! {

/// The updates that wait, chat by chat, and the chats that were deleted.
#[derive(Debug)]
pub struct PendingUpdates {
    pub queues: TextMap<Vec<Vec<u8>>>,
    pub purged: TextSet,
}

/// A queue with one more update.
pub open spec fn buffered(queue: Seq<Vec<u8>>, update: Vec<u8>) -> Seq<Vec<u8>> {
    queue.push(update)
}

/// A queue with an update before all others.
pub open spec fn put_first(queue: Seq<Vec<u8>>, update: Vec<u8>) -> Seq<Vec<u8>> {
    seq![update] + queue
}

/// A queue with what a client gave back.
pub open spec fn carried(queue: Seq<Vec<u8>>, parked: Seq<Vec<u8>>) -> Seq<Vec<u8>> {
    queue + parked
}

impl PendingUpdates {
    /// The updates that wait for a chat.
    pub open spec fn queue(self, chat: Seq<char>) -> Seq<Vec<u8>> {
        match self.queues.at(chat) {
            Some(q) => q@,
            None => Seq::empty(),
        }
    }

    /// A deleted chat has no queue.
    pub open spec fn wf(self) -> bool {
        forall|chat: Seq<char>| #[trigger] self.purged.has(chat) ==> !self.queues.has(chat)
    }

    /// Everything about other chats is as before.
    pub open spec fn same_elsewhere(self, before: Self, chat: Seq<char>) -> bool {
        forall|other: Seq<char>| other != chat ==> #[trigger] self.queue(other) == before.queue(other)
    }

    pub open spec fn same_fences(self, before: Self) -> bool {
        forall|chat: Seq<char>| #[trigger] self.purged.has(chat) == before.purged.has(chat)
    }

    pub fn new() -> (r: Self)
        ensures
            r.wf(),
            forall|chat: Seq<char>| #[trigger] r.queue(chat) == Seq::<Vec<u8>>::empty(),
            forall|chat: Seq<char>| !#[trigger] r.purged.has(chat),
    {
        let queues: TextMap<Vec<Vec<u8>>> = TextMap::new();
        let purged = TextSet::new();
        let r = PendingUpdates { queues, purged };
        assert forall|chat: Seq<char>| #[trigger] r.queue(chat) == Seq::<Vec<u8>>::empty() by {
            assert(r.queues.at(chat) is None);
        }
        r
    }

    pub fn chat_was_purged(&self, chat_id: &str) -> (r: bool)
        ensures
            r == self.purged.has(chat_id@),
    {
        self.purged.contains(chat_id)
    }

    pub fn has_pending(&self, chat_id: &str) -> (r: bool)
        ensures
            r == (self.queue(chat_id@).len() > 0),
    {
        match self.queues.get(chat_id) {
            Some(q) => !q.is_empty(),
            None => false,
        }
    }

    /// Adds an update at the end of a chat's queue; a deleted chat drops it.
    pub fn buffer_chat2_update(&mut self, chat_id: &str, bytes: Vec<u8>)
        requires
            old(self).wf(),
        ensures
            final(self).wf(),
            final(self).same_fences(*old(self)),
            final(self).same_elsewhere(*old(self), chat_id@),
            final(self).queue(chat_id@) == (if old(self).purged.has(chat_id@) {
                old(self).queue(chat_id@)
            } else {
                buffered(old(self).queue(chat_id@), bytes)
            }),
    {
        if self.purged.contains(chat_id) {
            return;
        }
        let mut queue = match self.queues.remove(chat_id) {
            Some(q) => q,
            None => Vec::new(),
        };
        queue.push(bytes);
        self.queues.insert(chat_id.to_owned(), queue);
        proof {
            self.others_kept(*old(self), chat_id@);
        }
    }

    /// Puts an update before all others of a chat; a deleted chat drops it.
    pub fn prepend_chat2_update(&mut self, chat_id: &str, bytes: Vec<u8>)
        requires
            old(self).wf(),
        ensures
            final(self).wf(),
            final(self).same_fences(*old(self)),
            final(self).same_elsewhere(*old(self), chat_id@),
            final(self).queue(chat_id@) == (if old(self).purged.has(chat_id@) {
                old(self).queue(chat_id@)
            } else {
                put_first(old(self).queue(chat_id@), bytes)
            }),
    {
        if self.purged.contains(chat_id) {
            return;
        }
        let mut queue = match self.queues.remove(chat_id) {
            Some(q) => q,
            None => Vec::new(),
        };
        let ghost before = queue@;
        queue.insert(0, bytes);
        assert(queue@ =~= seq![bytes] + before);
        self.queues.insert(chat_id.to_owned(), queue);
        proof {
            self.others_kept(*old(self), chat_id@);
        }
    }

    /// Takes the whole queue of a chat.
    pub fn take(&mut self, chat_id: &str) -> (r: Vec<Vec<u8>>)
        requires
            old(self).wf(),
        ensures
            final(self).wf(),
            final(self).same_fences(*old(self)),
            final(self).same_elsewhere(*old(self), chat_id@),
            r@ == old(self).queue(chat_id@),
            final(self).queue(chat_id@) == Seq::<Vec<u8>>::empty(),
    {
        let queue = match self.queues.remove(chat_id) {
            Some(q) => q,
            None => Vec::new(),
        };
        proof {
            self.others_kept(*old(self), chat_id@);
        }
        queue
    }

    /// Marks a chat as deleted, for good, and drops what waited for it.
    pub fn purge(&mut self, chat_id: &str)
        requires
            old(self).wf(),
        ensures
            final(self).wf(),
            final(self).purged.has(chat_id@),
            forall|other: Seq<char>|
                other != chat_id@ ==> #[trigger] final(self).purged.has(other) == old(
                    self,
                ).purged.has(other),
            final(self).same_elsewhere(*old(self), chat_id@),
            final(self).queue(chat_id@) == Seq::<Vec<u8>>::empty(),
    {
        let _ = self.queues.remove(chat_id);
        let _ = self.purged.insert(chat_id.to_owned());
        proof {
            self.others_kept(*old(self), chat_id@);
            assert forall|chat: Seq<char>| #[trigger] self.purged.has(chat) implies !self.queues.has(
                chat,
            ) by {
                if chat != chat_id@ {
                    assert(old(self).purged.has(chat));
                    assert(self.queues.at(chat) == old(self).queues.at(chat));
                }
            }
        }
    }

    /// Carries the updates of a client that was taken down back into the queue, in
    /// their order. Says whether there were any, for the snapshot must then be saved
    /// for a full replay.
    pub fn carry_parked_updates(&mut self, chat_id: &str, parked: Vec<Vec<u8>>) -> (replay: bool)
        requires
            old(self).wf(),
        ensures
            final(self).wf(),
            final(self).same_fences(*old(self)),
            final(self).same_elsewhere(*old(self), chat_id@),
            replay == (parked@.len() > 0 && !old(self).purged.has(chat_id@)),
            final(self).queue(chat_id@) == (if old(self).purged.has(chat_id@) {
                Seq::<Vec<u8>>::empty()
            } else {
                carried(old(self).queue(chat_id@), parked@)
            }),
    {
        if self.purged.contains(chat_id) {
            let _ = self.queues.remove(chat_id);
            proof {
                self.others_kept(*old(self), chat_id@);
            }
            return false;
        }
        let mut queue = match self.queues.remove(chat_id) {
            Some(q) => q,
            None => Vec::new(),
        };
        let replay = !parked.is_empty();
        let mut parked = parked;
        let ghost before = queue@;
        let ghost all = parked@;
        queue.append(&mut parked);
        assert(queue@ =~= before + all);
        if queue.is_empty() {
            proof {
                self.others_kept(*old(self), chat_id@);
            }
            return false;
        }
        self.queues.insert(chat_id.to_owned(), queue);
        proof {
            self.others_kept(*old(self), chat_id@);
        }
        replay
    }

    proof fn others_kept(self, before: Self, chat: Seq<char>)
        requires
            forall|k: Seq<char>| k != chat ==> #[trigger] self.queues.at(k) == before.queues.at(k),
        ensures
            self.same_elsewhere(before, chat),
    {
        assert forall|other: Seq<char>| other != chat implies #[trigger] self.queue(other)
            == before.queue(other) by {
            assert(self.queues.at(other) == before.queues.at(other));
        }
    }
}

/// Where the local updates of a chat are: those that were made, and of these the ones
/// that wait in the queue, those that the client holds, and those that the room has.
pub struct LocalWork {
    pub made: Seq<Vec<u8>>,
    pub waiting: Seq<Vec<u8>>,
    pub client: Seq<Vec<u8>>,
    pub acknowledged: Seq<Vec<u8>>,
}

/// What happens to the local updates of a chat that is not deleted.
pub enum WorkEvent {
    /// An update is made while there is no client: `buffer_chat2_update`.
    Buffered(Vec<u8>),
    /// An update is made and goes to the client.
    Enqueued(Vec<u8>),
    /// The whole log goes first: `prepend_chat2_update`.
    PutFirst(Vec<u8>),
    /// What waits goes to the client: `take`.
    HandedOver,
    /// What the client holds goes back to the queue: `carry_parked_updates`.
    Parked,
    /// The room has the oldest update that the client holds.
    Acknowledged,
}

impl LocalWork {
    pub open spec fn after(self, event: WorkEvent) -> LocalWork {
        match event {
            WorkEvent::Buffered(u) => LocalWork {
                made: self.made.push(u),
                waiting: buffered(self.waiting, u),
                ..self
            },
            WorkEvent::Enqueued(u) => LocalWork {
                made: self.made.push(u),
                client: self.client.push(u),
                ..self
            },
            WorkEvent::PutFirst(u) => LocalWork {
                made: self.made.push(u),
                waiting: put_first(self.waiting, u),
                ..self
            },
            WorkEvent::HandedOver => LocalWork {
                waiting: Seq::empty(),
                client: self.client + self.waiting,
                ..self
            },
            WorkEvent::Parked => LocalWork {
                waiting: carried(self.waiting, self.client),
                client: Seq::empty(),
                ..self
            },
            WorkEvent::Acknowledged => if self.client.len() == 0 {
                self
            } else {
                LocalWork {
                    client: self.client.drop_first(),
                    acknowledged: self.acknowledged.push(self.client[0]),
                    ..self
                }
            },
        }
    }

    /// The state after some events, from nothing.
    pub open spec fn history(events: Seq<WorkEvent>) -> LocalWork
        decreases events.len(),
    {
        if events.len() == 0 {
            LocalWork {
                made: Seq::empty(),
                waiting: Seq::empty(),
                client: Seq::empty(),
                acknowledged: Seq::empty(),
            }
        } else {
            LocalWork::history(events.drop_last()).after(events.last())
        }
    }

    /// Every update that was made is in one place, as often as it was made.
    pub open spec fn complete(self) -> bool {
        self.made.to_multiset() == self.waiting.to_multiset().add(self.client.to_multiset()).add(
            self.acknowledged.to_multiset(),
        )
    }
}

/// No local update is lost and none is doubled, however often clients come and go:
/// each is waiting, with the client, or with the room.
pub proof fn no_local_update_is_lost(events: Seq<WorkEvent>)
    ensures
        LocalWork::history(events).complete(),
    decreases events.len(),
{
    broadcast use vstd::seq_lib::group_to_multiset_ensures;
    if events.len() == 0 {
        let empty = Seq::<Vec<u8>>::empty();
        assert(empty.to_multiset().add(empty.to_multiset()).add(empty.to_multiset())
            =~= empty.to_multiset());
    } else {
        no_local_update_is_lost(events.drop_last());
        let before = LocalWork::history(events.drop_last());
        let after = before.after(events.last());
        match events.last() {
            WorkEvent::PutFirst(u) => {
                vstd::seq_lib::lemma_multiset_commutative(seq![u], before.waiting);
                assert(seq![u] =~= Seq::<Vec<u8>>::empty().push(u));
            },
            WorkEvent::HandedOver => {
                vstd::seq_lib::lemma_multiset_commutative(before.client, before.waiting);
            },
            WorkEvent::Parked => {
                vstd::seq_lib::lemma_multiset_commutative(before.waiting, before.client);
            },
            WorkEvent::Acknowledged => {
                if before.client.len() > 0 {
                    let first = seq![before.client[0]];
                    vstd::seq_lib::lemma_multiset_commutative(first, before.client.drop_first());
                    assert(first =~= Seq::<Vec<u8>>::empty().push(before.client[0]));
                    assert(first + before.client.drop_first() =~= before.client);
                }
            },
            _ => {},
        }
        assert(after.made.to_multiset() =~= after.waiting.to_multiset().add(
            after.client.to_multiset(),
        ).add(after.acknowledged.to_multiset()));
    }
}

/// A deleted chat never has anything to send: nothing that is buffered, put first or
/// carried over for it is kept.
pub proof fn a_purged_chat_stays_empty(pending: PendingUpdates, chat: Seq<char>)
    requires
        pending.wf(),
        pending.purged.has(chat),
    ensures
        pending.queue(chat).len() == 0,
{
}

} // verus!
