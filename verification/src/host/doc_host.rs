//! The host of the chat documents of a device: what all of them share.

use vstd::prelude::*;

use super::commands::{
    self, is_new_entry, AttachmentTransfer, CommandDisposition, CommandOrigin, Nudge, SessionCommandEntry, SessionCommandPayload,
};
use super::connectivity::DegradeGrace;
use super::drain;
use super::edge::{self, is_blob_ref, part_segment, EdgeConfig};
use super::execute;
use super::handle::{ChatDocHandle, DocError};
use super::lifecycle;
use super::maps::TextSet;
use super::pending::PendingUpdates;
use super::retry::{plan_retry, speaking_places, waiting_places, RetryPlan, RetryView};
use super::send::{
    AgentSend, SendLimits, BUDGET_SPENT, MAX_AGENT_HOPS, MAX_SENDS_PER_TURN, TOO_DEEP,
};
use super::snapshots::{self, OpenStep, PublishHandle};
use crate::auth::sign_in::bumped;
use crate::auth::types::{failed_with, EngineError};
use crate::json::JsonView;
use crate::rows::{Chat, ChatConfig};
use crate::text::{after, before, blank, without_end_slashes};

verus! {

#[derive(Debug)]
pub struct DocHostConfig {
    pub device_id: String,
    /// The signed-in user — stamped on command entries this engine queues so shared
    /// sessions can render "who sent this". Empty when unknown (dev setups without
    /// auth); empty stamps nothing.
    pub user_id: String,
    /// Harness for doc-command runs on chats without a registry `config` row.
    pub default_harness: String,
    /// When present, each opened chat joins its edge session room. `None` = fully
    /// offline operation (local snapshots only).
    pub edge: Option<EdgeConfig>,
}

/// A command to queue, and the files to push behind it.
#[derive(Debug)]
pub struct QueuedCommand {
    pub entry: SessionCommandEntry,
    pub transfers: Vec<AttachmentTransfer>,
}

/// What the documents of a device share: the updates that wait for their rooms, the
/// commands being executed, the limits of agent sends and the state of the connection.
#[derive(Debug)]
pub struct DocHost {
    pub config: DocHostConfig,
    pub pending: PendingUpdates,
    pub executing: TextSet,
    pub drain_waiting: TextSet,
    pub limits: SendLimits,
    pub connectivity_grace: DegradeGrace,
}

impl DocHost {
    pub open spec fn wf(self) -> bool {
        self.pending.wf()
    }

    pub fn new(config: DocHostConfig) -> (r: Self)
        ensures
            r.wf(),
            r.config == config,
            forall|k: Seq<char>| #[trigger] r.pending.queue(k) == Seq::<Vec<u8>>::empty(),
            forall|k: Seq<char>| !#[trigger] r.pending.purged.has(k),
            forall|k: Seq<char>| !#[trigger] r.executing.has(k),
            forall|k: Seq<char>| !#[trigger] r.drain_waiting.has(k),
            forall|k: Seq<char>| #[trigger] r.limits.depth(k) == 0,
            forall|k: Seq<char>| #[trigger] r.limits.spent(k) == 0,
            r.connectivity_grace.os_path is None,
            r.connectivity_grace.registry is None,
            forall|k: Seq<char>| #[trigger] r.connectivity_grace.chats.at(k) is None,
    {
        DocHost {
            config,
            pending: PendingUpdates::new(),
            executing: TextSet::new(),
            drain_waiting: TextSet::new(),
            limits: SendLimits::new(),
            connectivity_grace: DegradeGrace::new(),
        }
    }

    pub fn device_id(&self) -> (r: &str)
        ensures
            r@ == self.config.device_id@,
    {
        self.config.device_id.as_str()
    }

    /// Open (or return) the chat's doc handle: the one that is open already, or the
    /// local snapshot is to be loaded.
    pub fn open(&self, chat_id: &str, cached: Option<&ChatDocHandle>) -> (r: OpenStep)
        ensures
            self.pending.purged.has(chat_id@) ==> r is Refused && r->Refused_0.text() == "chat "@
                + chat_id@ + " has been deleted"@,
            !self.pending.purged.has(chat_id@) ==> match cached {
                None => r is Load,
                Some(h) => if h.generation_frozen {
                    r is Refused && r->Refused_0.text() == "chat "@ + chat_id@
                        + " is still being constructed; retry shortly"@
                } else if h.retired {
                    r is Refused && r->Refused_0.text() == "chat "@ + chat_id@
                        + " is retiring its previous room; retry shortly"@
                } else {
                    r is Cached
                },
            },
    {
        let purged = self.pending.chat_was_purged(chat_id);
        snapshots::begin_open(purged, chat_id, cached)
    }

    /// Publishes a handle that was built, unless the chat was deleted or opened by
    /// another meanwhile.
    pub fn publish_handle(&self, chat_id: &str, exists: bool) -> (r: PublishHandle)
        ensures
            self.pending.purged.has(chat_id@) ==> r is Deleted && r->Deleted_0.text() == "chat "@
                + chat_id@ + " has been deleted"@,
            !self.pending.purged.has(chat_id@) ==> r == (if exists {
                PublishHandle::Existing
            } else {
                PublishHandle::Insert
            }),
    {
        let purged = self.pending.chat_was_purged(chat_id);
        snapshots::publish_handle(purged, exists, chat_id)
    }

    /// Drop a chat's doc unconditionally — the chat is gone. Its snapshot, and the
    /// rollback one whose name is returned, have to be deleted.
    pub fn purge_chat(&mut self, handle: &mut ChatDocHandle) -> (rollback: String)
        requires
            old(self).wf(),
        ensures
            final(self).wf(),
            final(self).config == old(self).config,
            final(self).pending.purged.has(old(handle).chat_id@),
            forall|other: Seq<char>|
                other != old(handle).chat_id@ ==> #[trigger] final(self).pending.purged.has(other)
                    == old(self).pending.purged.has(other),
            final(self).pending.queue(old(handle).chat_id@) == Seq::<Vec<u8>>::empty(),
            final(self).pending.same_elsewhere(old(self).pending, old(handle).chat_id@),
            *final(handle) == (ChatDocHandle {
                purged: true,
                generation_frozen: true,
                retired: true,
                sink_generation: bumped(old(handle).sink_generation),
                connected: false,
                ..*old(handle)
            }),
            final(self).executing == old(self).executing,
            final(self).drain_waiting == old(self).drain_waiting,
            final(self).limits == old(self).limits,
            final(self).connectivity_grace == old(self).connectivity_grace,
            rollback@ == old(handle).chat_id@ + ".pre-chat2"@,
    {
        lifecycle::purge_chat(&mut self.pending, handle)
    }

    /// Composer path: an immutable pending command entry of this engine's user.
    pub fn queue_command(
        &self,
        handle: &ChatDocHandle,
        id: String,
        payload: SessionCommandPayload,
        last_message: Option<String>,
        now: i64,
        ttl: i64,
    ) -> (r: Result<QueuedCommand, DocError>)
        requires
            i64::MIN <= now + ttl <= i64::MAX,
        ensures
            r is Ok == !handle.closed(),
            r is Err ==> (r->Err_0)->Schema_0@ == "chat "@ + handle.chat_id@
                + " is frozen for room-generation cutover"@,
            r matches Ok(q) ==> q.transfers@.len() == 0 && q.entry.user_id is Some == (
            self.config.user_id@.len() > 0) && (q.entry.user_id is Some ==> q.entry.user_id->0@
                == self.config.user_id@) && is_new_entry(
                q.entry,
                id,
                payload,
                q.entry.user_id,
                None,
                handle.device_id@,
                last_message,
                now,
                ttl,
            ),
    {
        self.queue_command_with_transfers(handle, id, payload, Vec::new(), last_message, now, ttl)
    }

    /// [`Self::queue_command`] with explicit attribution: `user_id` names the issuing
    /// user (`agent:{chatId}` for agent-to-agent sends), `origin` carries send-chain
    /// provenance for hop limiting.
    pub fn queue_command_as(
        &self,
        handle: &ChatDocHandle,
        id: String,
        payload: SessionCommandPayload,
        user_id: Option<String>,
        origin: Option<CommandOrigin>,
        last_message: Option<String>,
        now: i64,
        ttl: i64,
    ) -> (r: Result<QueuedCommand, DocError>)
        requires
            i64::MIN <= now + ttl <= i64::MAX,
        ensures
            r is Ok == !handle.closed(),
            r is Err ==> (r->Err_0)->Schema_0@ == "chat "@ + handle.chat_id@
                + " is frozen for room-generation cutover"@,
            r matches Ok(q) ==> q.transfers@.len() == 0 && is_new_entry(
                q.entry,
                id,
                payload,
                user_id,
                origin,
                handle.device_id@,
                last_message,
                now,
                ttl,
            ),
    {
        match commands::queue_command(
            handle,
            id,
            payload,
            user_id,
            origin,
            last_message,
            now,
            ttl,
        ) {
            Ok(entry) => Ok(QueuedCommand { entry, transfers: Vec::new() }),
            Err(e) => Err(e),
        }
    }

    /// [`Self::queue_command`] plus queued-attachment transfers: the files are pushed
    /// behind the command, which never waits for them to be queued.
    pub fn queue_command_with_transfers(
        &self,
        handle: &ChatDocHandle,
        id: String,
        payload: SessionCommandPayload,
        transfers: Vec<AttachmentTransfer>,
        last_message: Option<String>,
        now: i64,
        ttl: i64,
    ) -> (r: Result<QueuedCommand, DocError>)
        requires
            i64::MIN <= now + ttl <= i64::MAX,
        ensures
            r is Ok == !handle.closed(),
            r is Err ==> (r->Err_0)->Schema_0@ == "chat "@ + handle.chat_id@
                + " is frozen for room-generation cutover"@,
            r matches Ok(q) ==> q.transfers == transfers && q.entry.user_id is Some == (
            self.config.user_id@.len() > 0) && (q.entry.user_id is Some ==> q.entry.user_id->0@
                == self.config.user_id@) && is_new_entry(
                q.entry,
                id,
                payload,
                q.entry.user_id,
                None,
                handle.device_id@,
                last_message,
                now,
                ttl,
            ),
    {
        let user = commands::issuing_user(self.config.user_id.as_str());
        match commands::queue_command(handle, id, payload, user, None, last_message, now, ttl) {
            Ok(entry) => Ok(QueuedCommand { entry, transfers }),
            Err(e) => Err(e),
        }
    }

    /// Agent-to-agent send: what to queue into the target's doc, if the limits let it
    /// through.
    pub fn send_to_session(
        &mut self,
        from_chat: &str,
        target_chat: &str,
        message: &str,
        message_id: String,
    ) -> (r: Result<AgentSend, EngineError>)
        ensures
            from_chat@ == target_chat@ ==> failed_with(r, "cannot send to the own session"@),
            from_chat@ != target_chat@ && blank(message@) ==> failed_with(r, "empty message"@),
            from_chat@ != target_chat@ && !blank(message@) && old(self).limits.depth(from_chat@)
                >= MAX_AGENT_HOPS ==> failed_with(r, TOO_DEEP@),
            from_chat@ != target_chat@ && !blank(message@) && old(self).limits.depth(from_chat@)
                < MAX_AGENT_HOPS && old(self).limits.spent(from_chat@) >= MAX_SENDS_PER_TURN
                ==> failed_with(r, BUDGET_SPENT@),
            r is Ok == old(self).limits.lets_through(from_chat@, target_chat@, message@),
            r matches Ok(send) ==> send.payload is Steer && send.payload->prompt@ == message@
                && send.payload->Steer_message_id == Some(message_id) && send.user_id is Some
                && send.user_id->0@ == "agent:"@ + from_chat@ && send.origin is Some
                && send.origin->0.from_chat_id@ == from_chat@ && send.origin->0.hops == old(
                self,
            ).limits.depth(from_chat@) + 1,
            final(self).limits.same_elsewhere(old(self).limits, from_chat@),
            final(self).limits.depth(from_chat@) == old(self).limits.depth(from_chat@),
            final(self).limits.spent(from_chat@) == old(self).limits.spent(from_chat@) + (if r
                is Ok {
                1int
            } else {
                0int
            }),
            final(self).config == old(self).config,
            final(self).pending == old(self).pending,
            final(self).executing == old(self).executing,
            final(self).drain_waiting == old(self).drain_waiting,
            final(self).connectivity_grace == old(self).connectivity_grace,
    {
        self.limits.send_to_session(from_chat, target_chat, message, message_id)
    }

    /// The nudge of a chat's host, when that is another device.
    pub fn nudge_remote_host(&self, chat: &Option<Chat>, chat_id: &str) -> (r: Option<Nudge>)
        ensures
            r is Some == (self.config.edge is Some && chat is Some && chat->0.device_id@
                != self.config.device_id@),
            r matches Some(n) ==> n.url@ == without_end_slashes(self.config.edge->0.url@)
                + "/device/"@ + chat->0.device_id@ + "/nudge"@ && n.body@ == JsonView::Object(
                seq![("chatId"@, JsonView::Text(chat_id@))],
            ),
    {
        commands::nudge_remote_host(&self.config.edge, chat, self.config.device_id.as_str(), chat_id)
    }

    /// Chat-config harness when the registry row carries one, else the default.
    pub fn harness_for(&self, config: &Option<ChatConfig>) -> (r: String)
        ensures
            r@ == execute::chat_harness(*config, self.config.default_harness@),
    {
        execute::harness_for(config, self.config.default_harness.as_str())
    }

    /// Plans the fetch of a sidecar blob by its doc-resident ref.
    pub fn fetch_tool_blob(&self, signed_in: bool, blob_ref: &str) -> (r: Result<
        String,
        EngineError,
    >)
        ensures
            r is Ok == (is_blob_ref(blob_ref@) && self.config.edge is Some && signed_in),
            !is_blob_ref(blob_ref@) ==> failed_with(r, "bad blob ref: "@ + blob_ref@),
            is_blob_ref(blob_ref@) && self.config.edge is None ==> failed_with(
                r,
                "offline: no edge configured"@,
            ),
            is_blob_ref(blob_ref@) && self.config.edge is Some && !signed_in ==> failed_with(
                r,
                "signed out"@,
            ),
            r matches Ok(url) ==> url@ == without_end_slashes(self.config.edge->0.url@) + "/blob/"@
                + before(blob_ref@, '/') + "/"@ + part_segment(after(blob_ref@, '/')),
    {
        edge::fetch_tool_blob(&self.config.edge, signed_in, blob_ref)
    }
}

/// What becomes of a forwarded command that was admitted.
#[derive(Debug, Clone, Copy, PartialEq, Eq, Structural)]
pub enum RelayClaim {
    /// It was dealt with, or is being.
    Duplicate,
    /// Record it in the ledger, and go on.
    Claimed,
}

impl DocHost {
    /// Whether a pass over the commands of a chat may begin.
    pub fn drain_commands(
        &self,
        handle: &ChatDocHandle,
        current: bool,
        executor: bool,
        is_host: bool,
    ) -> (r: bool)
        ensures
            r == (current && !handle.generation_frozen && !handle.retired && executor && is_host),
    {
        drain::may_drain(handle, current, executor, is_host)
    }

    /// Host side of a forwarded command: its attachments have to be here and there has to
    /// be an executor, and it is claimed unless it is a duplicate. The claim is what makes
    /// the row that arrives later a no-op: exactly-once across both roads.
    pub fn ingest_relayed_command(
        &mut self,
        missing: usize,
        executor: bool,
        disposition: CommandDisposition,
        id: &str,
    ) -> (r: Result<RelayClaim, EngineError>)
        ensures
            missing > 0 ==> failed_with(r, "attachments not landed yet"@),
            missing == 0 && !executor ==> failed_with(r, "executor unavailable"@),
            missing == 0 && executor ==> r is Ok && r->Ok_0 == (if disposition
                != CommandDisposition::Skip && !old(self).executing.has(id@) {
                RelayClaim::Claimed
            } else {
                RelayClaim::Duplicate
            }),
            forall|k: Seq<char>| #[trigger]
                final(self).executing.has(k) == (old(self).executing.has(k) || (k == id@ && r
                    is Ok && r->Ok_0 == RelayClaim::Claimed)),
            final(self).config == old(self).config,
            final(self).pending == old(self).pending,
            final(self).limits == old(self).limits,
            final(self).drain_waiting == old(self).drain_waiting,
            final(self).connectivity_grace == old(self).connectivity_grace,
    {
        match drain::admit_relayed(missing, executor) {
            Err(e) => Err(e),
            Ok(_) => {
                if drain::claim_relayed(disposition, &mut self.executing, id) {
                    Ok(RelayClaim::Claimed)
                } else {
                    Ok(RelayClaim::Duplicate)
                }
            },
        }
    }

    /// User-driven retry: which commands get a fresh escort, and which dead attempts are
    /// issued anew.
    pub fn retry_delivery(
        &self,
        commands: &Vec<SessionCommandEntry>,
        processed: &Vec<bool>,
        landed: &Vec<String>,
    ) -> (r: RetryPlan)
        requires
            processed@.len() == commands@.len(),
        ensures
            ({
                let view = RetryView { commands, processed, executing: &self.executing, landed };
                &&& r.escorts@ == waiting_places(view, commands@.len() as int)
                &&& r.reissues@ == speaking_places(view, commands@.len() as int)
            }),
    {
        let view = RetryView { commands, processed, executing: &self.executing, landed };
        plan_retry(&view)
    }
}

} // verus!
