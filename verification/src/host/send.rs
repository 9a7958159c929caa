//! Sends from one agent to another, and what keeps two of them from playing ping-pong:
//! a chain of sends is only so long, and a turn has only so many.

use vstd::prelude::*;

use super::commands::{CommandOrigin, SessionCommandEntry, SessionCommandPayload};
use super::maps::TextMap;
use crate::auth::types::{error, failed_with, EngineError};
use crate::text::{blank, is_blank, join2, text_eq};

verus! {

/// The longest chain of sends.
pub const MAX_AGENT_HOPS: u32 = 4;

/// The most sends of one turn.
pub const MAX_SENDS_PER_TURN: u32 = 8;

pub const TOO_DEEP: &'static str =
    "agent send chain too deep (>4 hops) — refusing to ping-pong";

pub const BUDGET_SPENT: &'static str = "send budget exhausted (8 per turn)";

/// For each chat, how deep in a chain its live turn is, and how many sends it has made.
#[derive(Debug)]
pub struct SendLimits {
    pub turn_origins: TextMap<u32>,
    pub send_budgets: TextMap<u32>,
}

/// A send that was let through: what to queue in the target's document.
#[derive(Debug)]
pub struct AgentSend {
    pub payload: SessionCommandPayload,
    pub user_id: Option<String>,
    pub origin: Option<CommandOrigin>,
}

impl SendLimits {
    /// How deep in a chain of sends a chat's live turn is.
    pub open spec fn depth(self, chat: Seq<char>) -> int {
        match self.turn_origins.at(chat) {
            Some(hops) => hops as int,
            None => 0,
        }
    }

    /// How many sends a chat's live turn has made.
    pub open spec fn spent(self, chat: Seq<char>) -> int {
        match self.send_budgets.at(chat) {
            Some(n) => n as int,
            None => 0,
        }
    }

    /// A send is let through: to another chat, with a message, from a turn that is not
    /// too deep and has not spent its budget.
    pub open spec fn lets_through(
        self,
        from: Seq<char>,
        target: Seq<char>,
        message: Seq<char>,
    ) -> bool {
        &&& from != target
        &&& !blank(message)
        &&& self.depth(from) < MAX_AGENT_HOPS
        &&& self.spent(from) < MAX_SENDS_PER_TURN
    }

    /// Every other chat is as before.
    pub open spec fn same_elsewhere(self, before: Self, chat: Seq<char>) -> bool {
        &&& forall|k: Seq<char>| k != chat ==> #[trigger] self.depth(k) == before.depth(k)
        &&& forall|k: Seq<char>| k != chat ==> #[trigger] self.spent(k) == before.spent(k)
    }

    pub fn new() -> (r: Self)
        ensures
            forall|k: Seq<char>| #[trigger] r.depth(k) == 0,
            forall|k: Seq<char>| #[trigger] r.spent(k) == 0,
    {
        let turn_origins: TextMap<u32> = TextMap::new();
        let send_budgets: TextMap<u32> = TextMap::new();
        let r = SendLimits { turn_origins, send_budgets };
        assert forall|k: Seq<char>| #[trigger] r.depth(k) == 0 by {
            assert(r.turn_origins.at(k) is None);
        }
        assert forall|k: Seq<char>| #[trigger] r.spent(k) == 0 by {
            assert(r.send_budgets.at(k) is None);
        }
        r
    }

    /// A new turn of a chat: it is as deep as the command that it comes from, and has
    /// made no sends. Other commands leave the turn as it is.
    pub fn begin_turn(&mut self, chat_id: &str, entry: &SessionCommandEntry)
        ensures
            final(self).same_elsewhere(*old(self), chat_id@),
            entry.payload.carries_message() ==> final(self).depth(chat_id@) == (match entry.origin {
                Some(o) => o.hops as int,
                None => 0,
            }) && final(self).spent(chat_id@) == 0,
            !entry.payload.carries_message() ==> *final(self) == *old(self),
    {
        if entry.payload.is_message() {
            let hops: u32 = match &entry.origin {
                Some(o) => o.hops,
                None => 0,
            };
            self.turn_origins.insert(chat_id.to_owned(), hops);
            let _ = self.send_budgets.remove(chat_id);
            proof {
                self.others_kept(*old(self), chat_id@);
            }
        }
    }

    proof fn others_kept(self, before: Self, chat: Seq<char>)
        requires
            forall|k: Seq<char>|
                k != chat ==> #[trigger] self.turn_origins.at(k) == before.turn_origins.at(k),
            forall|k: Seq<char>|
                k != chat ==> #[trigger] self.send_budgets.at(k) == before.send_budgets.at(k),
        ensures
            self.same_elsewhere(before, chat),
    {
        assert forall|k: Seq<char>| k != chat implies #[trigger] self.depth(k) == before.depth(
            k,
        ) by {
            assert(self.turn_origins.at(k) == before.turn_origins.at(k));
        }
        assert forall|k: Seq<char>| k != chat implies #[trigger] self.spent(k) == before.spent(
            k,
        ) by {
            assert(self.send_budgets.at(k) == before.send_budgets.at(k));
        }
    }

    /// Agent-to-agent send: a steer for the target's document, attributed to the
    /// sending chat. Refused are a send to itself, an empty message, a chain that is too
    /// long and a turn that has spent its budget, in this order; a send that is let
    /// through is counted.
    pub fn send_to_session(
        &mut self,
        from_chat: &str,
        target_chat: &str,
        message: &str,
        message_id: String,
    ) -> (r: Result<AgentSend, EngineError>)
        ensures
            final(self).same_elsewhere(*old(self), from_chat@),
            final(self).depth(from_chat@) == old(self).depth(from_chat@),
            from_chat@ == target_chat@ ==> failed_with(r, "cannot send to the own session"@),
            from_chat@ != target_chat@ && blank(message@) ==> failed_with(r, "empty message"@),
            from_chat@ != target_chat@ && !blank(message@) && old(self).depth(from_chat@)
                >= MAX_AGENT_HOPS ==> failed_with(r, TOO_DEEP@),
            from_chat@ != target_chat@ && !blank(message@) && old(self).depth(from_chat@)
                < MAX_AGENT_HOPS && old(self).spent(from_chat@) >= MAX_SENDS_PER_TURN
                ==> failed_with(r, BUDGET_SPENT@),
            r is Ok == old(self).lets_through(from_chat@, target_chat@, message@),
            r is Ok ==> {
                let send = r->Ok_0;
                &&& send.payload is Steer
                &&& send.payload->prompt@ == message@
                &&& send.payload->Steer_message_id == Some(message_id)
                &&& send.user_id is Some && send.user_id->0@ == "agent:"@ + from_chat@
                &&& send.origin is Some && send.origin->0.from_chat_id@ == from_chat@
                &&& send.origin->0.hops == old(self).depth(from_chat@) + 1
            },
            final(self).spent(from_chat@) == old(self).spent(from_chat@) + (if r is Ok {
                1int
            } else {
                0int
            }),
    {
        if text_eq(from_chat, target_chat) {
            return Err(error("cannot send to the own session"));
        }
        if is_blank(message) {
            return Err(error("empty message"));
        }
        let depth: u32 = match self.turn_origins.get(from_chat) {
            Some(hops) => *hops,
            None => 0,
        };
        if depth >= MAX_AGENT_HOPS {
            return Err(error(TOO_DEEP));
        }
        let spent: u32 = match self.send_budgets.get(from_chat) {
            Some(n) => *n,
            None => 0,
        };
        if spent >= MAX_SENDS_PER_TURN {
            return Err(error(BUDGET_SPENT));
        }
        self.send_budgets.insert(from_chat.to_owned(), spent + 1);
        proof {
            self.others_kept(*old(self), from_chat@);
        }
        Ok(
            AgentSend {
                payload: SessionCommandPayload::Steer {
                    prompt: message.to_owned(),
                    message_id: Some(message_id),
                },
                user_id: Some(join2("agent:", from_chat)),
                origin: Some(CommandOrigin { from_chat_id: from_chat.to_owned(), hops: depth + 1 }),
            },
        )
    }
}

/// A chain of sends ends: where each send is let through, and the turn that it starts
/// makes the next one, there are no more than the longest chain allows — whoever the
/// chats are.
pub proof fn a_chain_of_sends_ends(
    limits: Seq<SendLimits>,
    chats: Seq<Seq<char>>,
    messages: Seq<Seq<char>>,
)
    requires
        limits.len() == chats.len() == messages.len() + 1,
        forall|i: int|
            0 <= i < messages.len() ==> (#[trigger] limits[i]).lets_through(
                chats[i],
                chats[i + 1],
                messages[i],
            ) && limits[i + 1].depth(chats[i + 1]) == limits[i].depth(chats[i]) + 1,
    ensures
        messages.len() <= MAX_AGENT_HOPS,
        limits.last().depth(chats.last()) >= messages.len(),
    decreases messages.len(),
{
    if messages.len() > 0 {
        let n = messages.len() as int;
        let fewer = messages.drop_last();
        let before = limits.drop_last();
        assert forall|i: int| 0 <= i < fewer.len() implies (#[trigger] before[i]).lets_through(
            chats.drop_last()[i],
            chats.drop_last()[i + 1],
            fewer[i],
        ) && before[i + 1].depth(chats.drop_last()[i + 1]) == before[i].depth(
            chats.drop_last()[i],
        ) + 1 by {
            assert(before[i] == limits[i]);
        }
        a_chain_of_sends_ends(before, chats.drop_last(), fewer);
        assert(limits[n - 1].lets_through(chats[n - 1], chats[n], messages[n - 1]));
    }
}

/// A turn makes no more sends than its budget, however many it tries.
pub proof fn a_turn_stays_within_its_budget(
    limits: Seq<SendLimits>,
    from: Seq<char>,
    targets: Seq<Seq<char>>,
    messages: Seq<Seq<char>>,
)
    requires
        limits.len() == targets.len() + 1,
        messages.len() == targets.len(),
        limits[0].spent(from) == 0,
        forall|i: int|
            0 <= i < targets.len() ==> (#[trigger] limits[i + 1]).spent(from) == limits[i].spent(
                from,
            ) + (if limits[i].lets_through(from, targets[i], messages[i]) {
                1int
            } else {
                0int
            }),
    ensures
        limits.last().spent(from) <= MAX_SENDS_PER_TURN,
    decreases targets.len(),
{
    if targets.len() > 0 {
        let n = targets.len() as int;
        let before = limits.drop_last();
        assert forall|i: int| 0 <= i < n - 1 implies (#[trigger] before[i + 1]).spent(from)
            == before[i].spent(from) + (if before[i].lets_through(
            from,
            targets.drop_last()[i],
            messages.drop_last()[i],
        ) {
            1int
        } else {
            0int
        }) by {
            assert(before[i + 1] == limits[i + 1]);
        }
        a_turn_stays_within_its_budget(before, from, targets.drop_last(), messages.drop_last());
        assert(limits[(n - 1) + 1].spent(from) <= MAX_SENDS_PER_TURN);
    }
}

} // verus!
