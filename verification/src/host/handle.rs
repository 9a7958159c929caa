//! One open chat document: its flags, and what they allow.

use vstd::prelude::*;

use super::pending::PendingUpdates;
use crate::auth::sign_in::bumped;
use crate::chat::sink::Lifecycle;
use crate::text::{clone_option, contains_text, join2, join3, text_eq, texts};

verus! {

/// Resident-memory estimate per compressed snapshot byte. Snapshots are columnar and
/// compressed; the in-memory doc plus mirror runs well above the blob size. A rough
/// multiplier is enough here — the budget is a safety ceiling, the count cap does the
/// day-to-day work.
pub const RESIDENT_BYTES_PER_SNAPSHOT_BYTE: usize = 6;

/// Floor per open doc (room socket buffers, tasks) regardless of content size.
pub const DOC_RESIDENT_FLOOR_BYTES: usize = 524_288;

/// A failure of a document.
#[derive(Debug, PartialEq, Eq)]
pub enum DocError {
    Schema(String),
}

/// The checkpoint uploads of a handle: one at a time, and requests made meanwhile are
/// merged into one more.
#[derive(Debug)]
pub struct CheckpointState {
    pub running: bool,
    pub requested: bool,
    pub reason: &'static str,
}

/// One open chat doc: its identity and the flags of its lifecycle.
#[derive(Debug)]
pub struct ChatDocHandle {
    pub chat_id: String,
    pub device_id: String,
    /// The sync generation this handle was built for.
    pub room_gen: u32,
    /// True when the doc changed while nobody watched: the mirror rebuild is
    /// deferred to the next attach instead of paid per commit.
    pub mirror_dirty: bool,
    /// Epoch ms of the last open/watch touch — the LRU eviction key.
    pub last_access: i64,
    /// Last known snapshot blob size — the eviction budget estimate's input.
    pub snapshot_bytes: usize,
    /// Retired handles never persist again.
    pub retired: bool,
    /// Terminal local deletion fence.
    pub purged: bool,
    /// The handle is under construction or sealed: no writer may have it.
    pub generation_frozen: bool,
    /// Invalidates sinks owned by a detached client.
    pub sink_generation: u64,
    /// At least one local update lacks a durable room acknowledgement. A
    /// snapshot flush then persists cursor=0 so restart replays the full log
    /// even if the in-memory pending queue dies with this runtime.
    pub replay_from_zero: bool,
    /// Local commits that are visible but whose update has not been handed over.
    pub local_callbacks_pending: usize,
    /// Counts local commits.
    pub local_mutation_epoch: u64,
    /// Whether local commits are tracked.
    pub local_update_tracking: bool,
    /// Highest lifetime count of rejected pushes covered by a successful full
    /// checkpoint. Only counts above this watermark are outstanding.
    pub checkpointed_rejections: u64,
    pub checkpoint: CheckpointState,
    /// Whether a room client is installed.
    pub connected: bool,
}

/// Where a local update goes.
#[derive(Debug, Clone, Copy, PartialEq, Eq, Structural)]
pub enum LocalUpdateRoute {
    /// Nowhere: the handle is closed.
    Drop,
    /// To the room client, and to the queue where the client cannot take it now.
    Client,
    /// To the queue.
    Buffer,
}

/// What happens to the transcript mirror after a commit.
#[derive(Debug, Clone, Copy, PartialEq, Eq, Structural)]
pub enum MirrorUpdate {
    /// Nobody watches: the mirror is emptied, and rebuilt on the next attach.
    Clear,
    /// The mirror is rebuilt and published.
    Publish,
}

#[derive(Debug, Clone, Copy, PartialEq, Eq, Structural)]
pub enum MessageRole {
    User,
    Assistant,
    System,
}

#[derive(Debug, Clone, Copy, PartialEq, Eq, Structural)]
pub enum MessageStatus {
    Streaming,
    Complete,
    Aborted,
}

/// What the rules read of a transcript entry.
#[derive(Debug)]
pub struct EntryHead {
    pub id: String,
    pub role: MessageRole,
    pub status: Option<MessageStatus>,
    pub device_id: String,
    pub created_at: i64,
}

/// A complete message of the user, with one part of text.
#[derive(Debug, PartialEq, Eq)]
pub struct UserMessage {
    pub id: String,
    pub text: String,
    pub created_at: i64,
    pub device_id: String,
    pub user_id: Option<String>,
}

/// The installation of a room client: the generation it was dialed for, and the number
/// of updates handed to it so far.
#[derive(Debug, Clone, Copy, PartialEq, Eq, Structural)]
pub struct ClientInstall {
    pub generation: u64,
    pub count: usize,
}

/// What the installation of a room client does first.
#[derive(Debug)]
pub enum InstallRound {
    /// The chat is deleted: drop the client.
    Discard,
    /// Hand these updates to the client, in this order, then call `publish`.
    Enqueue(Vec<Vec<u8>>),
}

/// How the installation of a room client goes on.
#[derive(Debug)]
pub enum InstallPublish {
    /// The handle closed meanwhile: carry the client's updates back to the queue.
    Carry,
    /// More updates came: hand them to the client, then call `begin` again.
    Again(Vec<Vec<u8>>),
    /// The client is in place; so many updates were handed to it.
    Installed(usize),
}

impl ChatDocHandle {
    /// No writer may have the handle.
    pub open spec fn closed(self) -> bool {
        self.generation_frozen || self.retired || self.purged
    }

    /// A handle under construction for a chat.
    pub fn new(
        chat_id: String,
        device_id: String,
        room_gen: u32,
        snapshot_bytes: usize,
        purged: bool,
        now: i64,
    ) -> (r: Self)
        ensures
            r.chat_id == chat_id,
            r.device_id == device_id,
            r.room_gen == room_gen,
            r.mirror_dirty,
            r.last_access == now,
            r.snapshot_bytes == snapshot_bytes,
            !r.retired,
            r.purged == purged,
            r.generation_frozen,
            r.sink_generation == 0,
            !r.replay_from_zero,
            r.local_callbacks_pending == 0,
            r.local_mutation_epoch == 0,
            !r.local_update_tracking,
            r.checkpointed_rejections == 0,
            !r.checkpoint.running && !r.checkpoint.requested,
            r.checkpoint.reason@ == "unspecified"@,
            !r.connected,
    {
        ChatDocHandle {
            chat_id,
            device_id,
            room_gen,
            mirror_dirty: true,
            last_access: now,
            snapshot_bytes,
            retired: false,
            purged,
            generation_frozen: true,
            sink_generation: 0,
            replay_from_zero: false,
            local_callbacks_pending: 0,
            local_mutation_epoch: 0,
            local_update_tracking: false,
            checkpointed_rejections: 0,
            checkpoint: CheckpointState {
                running: false,
                requested: false,
                reason: "unspecified",
            },
            connected: false,
        }
    }

    pub fn is_closed(&self) -> (r: bool)
        ensures
            r == self.closed(),
    {
        self.generation_frozen || self.retired || self.purged
    }

    /// Refuses a write to a handle that is closed.
    pub fn ensure_mutable(&self) -> (r: Result<(), DocError>)
        ensures
            self.closed() ==> r is Err && (r->Err_0)->Schema_0@ == "chat "@ + self.chat_id@
                + " is frozen for room-generation cutover"@,
            !self.closed() ==> r is Ok,
    {
        if self.is_closed() {
            return Err(
                DocError::Schema(
                    join3(
                        "chat ",
                        self.chat_id.as_str(),
                        " is frozen for room-generation cutover",
                    ),
                ),
            );
        }
        Ok(())
    }

    pub fn chat_id(&self) -> (r: &str)
        ensures
            r@ == self.chat_id@,
    {
        self.chat_id.as_str()
    }

    /// Whether a writer may take the document: minted before a run publishes anything
    /// durable, and refused once the handle is closed.
    pub fn writer_doc(&self) -> (r: Result<(), DocError>)
        ensures
            r is Ok == !self.closed(),
            r is Err ==> (r->Err_0)->Schema_0@ == "chat "@ + self.chat_id@
                + " is frozen for room-generation cutover"@,
    {
        self.ensure_mutable()
    }

    pub fn connected(&self) -> (r: bool)
        ensures
            r == self.connected,
    {
        self.connected
    }

    /// The fence that the sinks of this handle check.
    pub fn lifecycle(&self) -> (r: Lifecycle)
        ensures
            r.generation == self.sink_generation,
            r.frozen == self.generation_frozen,
            r.replay_from_zero == self.replay_from_zero,
    {
        Lifecycle {
            generation: self.sink_generation,
            frozen: self.generation_frozen,
            replay_from_zero: self.replay_from_zero,
        }
    }

    pub fn touch(&mut self, now: i64)
        ensures
            *final(self) == (ChatDocHandle { last_access: now, ..*old(self) }),
    {
        self.last_access = now;
    }

    /// A watcher attaches: whether the mirror has to be rebuilt for it.
    pub fn watch_messages(&mut self, now: i64) -> (rebuild: bool)
        ensures
            rebuild == old(self).mirror_dirty,
            *final(self) == (ChatDocHandle { last_access: now, mirror_dirty: false, ..*old(self) }),
    {
        let rebuild = self.mirror_dirty;
        self.last_access = now;
        self.mirror_dirty = false;
        rebuild
    }

    /// The document changed: what happens to the mirror, by whether anyone watches.
    pub fn publish_messages_if_watched(&mut self, watchers: usize) -> (r: MirrorUpdate)
        ensures
            r == (if watchers == 0 {
                MirrorUpdate::Clear
            } else {
                MirrorUpdate::Publish
            }),
            *final(self) == (ChatDocHandle { mirror_dirty: watchers == 0, ..*old(self) }),
    {
        self.mirror_dirty = watchers == 0;
        if watchers == 0 {
            MirrorUpdate::Clear
        } else {
            MirrorUpdate::Publish
        }
    }

    /// Rough resident cost for the LRU budget.
    pub fn resident_estimate(&self) -> (r: usize)
        requires
            self.snapshot_bytes * RESIDENT_BYTES_PER_SNAPSHOT_BYTE <= usize::MAX,
        ensures
            r == resident_bytes(self.snapshot_bytes),
    {
        estimate_of(self.snapshot_bytes)
    }

    /// The user message to write under an id; none where one is there already, for a
    /// command that runs again or an echo of it must not write it twice.
    pub fn write_user_message(
        &self,
        written: &Vec<String>,
        message_id: &str,
        message: &str,
        created_at: i64,
        author: &Option<String>,
    ) -> (r: Result<Option<UserMessage>, DocError>)
        ensures
            self.closed() ==> r is Err && (r->Err_0)->Schema_0@ == "chat "@ + self.chat_id@
                + " is frozen for room-generation cutover"@,
            !self.closed() ==> r is Ok && match r->Ok_0 {
                None => texts(written@).contains(message_id@),
                Some(m) => !texts(written@).contains(message_id@) && m.id@ == message_id@ && m.text@
                    == message@ && m.created_at == created_at && m.device_id == self.device_id
                    && m.user_id == *author,
            },
    {
        match self.ensure_mutable() {
            Err(e) => Err(e),
            Ok(_) => {
                if contains_text(written, message_id) {
                    return Ok(None);
                }
                Ok(
                    Some(
                        UserMessage {
                            id: message_id.to_owned(),
                            text: message.to_owned(),
                            created_at,
                            device_id: self.device_id.clone(),
                            user_id: clone_option(author),
                        },
                    ),
                )
            },
        }
    }

    /// An entry that this device was still writing.
    pub open spec fn is_abandoned(self, entry: EntryHead) -> bool {
        entry.role == MessageRole::Assistant && entry.status == Some(MessageStatus::Streaming)
            && entry.device_id@ == self.device_id@
    }

    /// The ids and times of the entries that this device was still writing.
    pub open spec fn abandoned(self, entries: Seq<EntryHead>) -> Seq<(String, i64)>
        decreases entries.len(),
    {
        if entries.len() == 0 {
            Seq::empty()
        } else {
            let rest = self.abandoned(entries.drop_last());
            if self.is_abandoned(entries.last()) {
                rest.push((entries.last().id, entries.last().created_at))
            } else {
                rest
            }
        }
    }

    /// The entries to stamp aborted after a restart: those this device was still
    /// writing. Entries of other devices belong to their own runs.
    pub fn mark_abandoned_streams(&self, entries: &Vec<EntryHead>) -> (r: Result<
        Vec<(String, i64)>,
        DocError,
    >)
        ensures
            self.closed() ==> r is Err && (r->Err_0)->Schema_0@ == "chat "@ + self.chat_id@
                + " is frozen for room-generation cutover"@,
            !self.closed() ==> r is Ok && r->Ok_0@ == self.abandoned(entries@),
    {
        match self.ensure_mutable() {
            Err(e) => Err(e),
            Ok(_) => {
                let mut out: Vec<(String, i64)> = Vec::new();
                let mut i: usize = 0;
                while i < entries.len()
                    invariant
                        i <= entries@.len(),
                        out@ == self.abandoned(entries@.take(i as int)),
                    decreases entries@.len() - i,
                {
                    assert(entries@.take(i + 1).drop_last() =~= entries@.take(i as int));
                    let entry = &entries[i];
                    let streaming = match entry.status {
                        Some(status) => status == MessageStatus::Streaming,
                        None => false,
                    };
                    if entry.role == MessageRole::Assistant && streaming && text_eq(
                        entry.device_id.as_str(),
                        self.device_id.as_str(),
                    ) {
                        out.push((entry.id.clone(), entry.created_at));
                    }
                    i = i + 1;
                }
                assert(entries@.take(i as int) =~= entries@);
                Ok(out)
            },
        }
    }

    // -- local updates ------------------------------------------------------

    /// A local commit is about to become visible: from now on the snapshot has to be
    /// saved for a full replay, and the commit counts as pending until its update has
    /// been handed over.
    pub fn pre_commit(&mut self)
        ensures
            !old(self).local_update_tracking ==> *final(self) == *old(self),
            old(self).local_update_tracking ==> *final(self) == (ChatDocHandle {
                replay_from_zero: true,
                local_callbacks_pending: final(self).local_callbacks_pending,
                local_mutation_epoch: bumped(old(self).local_mutation_epoch),
                ..*old(self)
            }) && (old(self).local_callbacks_pending < usize::MAX ==> final(self).local_callbacks_pending
                == old(self).local_callbacks_pending + 1),
    {
        if self.local_update_tracking {
            self.replay_from_zero = true;
            self.local_callbacks_pending = self.local_callbacks_pending.wrapping_add(1);
            self.local_mutation_epoch = self.local_mutation_epoch.wrapping_add(1);
        }
    }

    /// The update of a commit was handed over: one commit less is pending, if this one
    /// was counted.
    pub fn callback_done(&mut self, counted: bool)
        ensures
            *final(self) == (ChatDocHandle {
                local_callbacks_pending: if counted && old(self).local_callbacks_pending > 0 {
                    (old(self).local_callbacks_pending - 1) as usize
                } else {
                    old(self).local_callbacks_pending
                },
                ..*old(self)
            }),
    {
        if counted && self.local_callbacks_pending > 0 {
            self.local_callbacks_pending = self.local_callbacks_pending - 1;
        }
    }

    /// Decides where a local update goes. The need for a full replay is marked before
    /// anything is handed over.
    pub fn route_local_update(&mut self) -> (r: LocalUpdateRoute)
        ensures
            old(self).closed() ==> r == LocalUpdateRoute::Drop && *final(self) == *old(self),
            !old(self).closed() ==> *final(self) == (ChatDocHandle {
                replay_from_zero: true,
                ..*old(self)
            }) && r == (if old(self).connected {
                LocalUpdateRoute::Client
            } else {
                LocalUpdateRoute::Buffer
            }),
    {
        if self.is_closed() {
            return LocalUpdateRoute::Drop;
        }
        self.replay_from_zero = true;
        if self.connected {
            LocalUpdateRoute::Client
        } else {
            LocalUpdateRoute::Buffer
        }
    }

    /// Readies a retry of the updates that a local commit could not hand to the client
    /// at once: the client is taken out of its slot, to be installed anew. A deleted
    /// chat drops what waits.
    pub fn flush_buffered_chat2_updates(&mut self, pending: &mut PendingUpdates) -> (r: Option<
        ClientInstall,
    >)
        requires
            old(pending).wf(),
        ensures
            final(pending).wf(),
            final(pending).same_fences(*old(pending)),
            final(pending).same_elsewhere(*old(pending), old(self).chat_id@),
            final(pending).queue(old(self).chat_id@) == (if old(self).purged {
                Seq::<Vec<u8>>::empty()
            } else {
                old(pending).queue(old(self).chat_id@)
            }),
            ({
                let retry = !old(self).purged && old(self).connected && old(pending).queue(
                    old(self).chat_id@,
                ).len() > 0;
                &&& retry ==> r == Some(
                    ClientInstall { generation: old(self).sink_generation, count: 0 },
                ) && *final(self) == (ChatDocHandle { connected: false, ..*old(self) })
                &&& !retry ==> r is None && *final(self) == *old(self)
            }),
    {
        if self.purged {
            let _ = pending.take(self.chat_id.as_str());
            return None;
        }
        if !pending.has_pending(self.chat_id.as_str()) || !self.connected {
            return None;
        }
        self.connected = false;
        Some(ClientInstall { generation: self.sink_generation, count: 0 })
    }

    /// Takes the room client out, and makes every late call of its sink a no-op.
    pub fn detach_client(&mut self)
        ensures
            *final(self) == (ChatDocHandle {
                sink_generation: bumped(old(self).sink_generation),
                connected: false,
                ..*old(self)
            }),
    {
        self.sink_generation = self.sink_generation.wrapping_add(1);
        self.connected = false;
    }

    /// Deletes the chat: the handle is closed for good.
    pub fn purge(&mut self)
        ensures
            *final(self) == (ChatDocHandle {
                purged: true,
                generation_frozen: true,
                retired: true,
                sink_generation: bumped(old(self).sink_generation),
                connected: false,
                ..*old(self)
            }),
            final(self).closed(),
    {
        self.purged = true;
        self.generation_frozen = true;
        self.retired = true;
        self.sink_generation = self.sink_generation.wrapping_add(1);
        self.connected = false;
    }
}

impl ClientInstall {
    pub fn new(generation: u64) -> (r: Self)
        ensures
            r == (ClientInstall { generation, count: 0 }),
    {
        ClientInstall { generation, count: 0 }
    }

    /// Begins a round of the installation: everything that waits is handed to the
    /// client first.
    pub fn begin(&mut self, handle: &ChatDocHandle, pending: &mut PendingUpdates) -> (r:
        InstallRound)
        requires
            old(pending).wf(),
            old(self).count + old(pending).queue(handle.chat_id@).len() <= usize::MAX,
        ensures
            final(pending).wf(),
            final(pending).same_fences(*old(pending)),
            final(pending).same_elsewhere(*old(pending), handle.chat_id@),
            final(pending).queue(handle.chat_id@) == Seq::<Vec<u8>>::empty(),
            ({
                let gone = handle.purged || old(pending).purged.has(handle.chat_id@);
                let waiting = old(pending).queue(handle.chat_id@);
                &&& gone ==> r is Discard && *final(self) == *old(self)
                &&& !gone ==> r is Enqueue && r->Enqueue_0@ == waiting && *final(self) == (
                ClientInstall {
                    generation: old(self).generation,
                    count: (old(self).count + waiting.len()) as usize,
                })
            }),
    {
        let gone = handle.purged || pending.chat_was_purged(handle.chat_id.as_str());
        let waiting = pending.take(handle.chat_id.as_str());
        if gone {
            return InstallRound::Discard;
        }
        self.count = self.count + waiting.len();
        InstallRound::Enqueue(waiting)
    }

    /// Puts the client in place, unless the handle closed or got another client
    /// meanwhile, or more updates came: those have to reach the client first, or a
    /// later update would overtake them.
    pub fn publish(&mut self, handle: &mut ChatDocHandle, pending: &mut PendingUpdates) -> (r:
        InstallPublish)
        requires
            old(pending).wf(),
            old(self).count + old(pending).queue(old(handle).chat_id@).len() <= usize::MAX,
        ensures
            final(pending).wf(),
            final(pending).same_fences(*old(pending)),
            final(pending).same_elsewhere(*old(pending), old(handle).chat_id@),
            final(self).generation == old(self).generation,
            ({
                let open = !old(handle).closed() && old(handle).sink_generation == old(
                    self,
                ).generation;
                let late = old(pending).queue(old(handle).chat_id@);
                &&& !open ==> r is Carry && *final(handle) == *old(handle) && *final(pending)
                    == *old(pending) && *final(self) == *old(self)
                &&& open ==> final(pending).queue(old(handle).chat_id@) == Seq::<Vec<u8>>::empty()
                    && final(self).count == old(self).count + late.len()
                &&& open && late.len() > 0 ==> r is Again && r->Again_0@ == late
                    && *final(handle) == *old(handle)
                &&& open && late.len() == 0 ==> r == InstallPublish::Installed(old(self).count)
                    && *final(handle) == (ChatDocHandle { connected: true, ..*old(handle) })
            }),
    {
        if handle.is_closed() || handle.sink_generation != self.generation {
            return InstallPublish::Carry;
        }
        let late = pending.take(handle.chat_id.as_str());
        if late.is_empty() {
            handle.connected = true;
            InstallPublish::Installed(self.count)
        } else {
            self.count = self.count + late.len();
            InstallPublish::Again(late)
        }
    }
}

/// The estimate for a snapshot of a size.
pub open spec fn resident_bytes(snapshot_bytes: usize) -> usize {
    let estimate = snapshot_bytes * RESIDENT_BYTES_PER_SNAPSHOT_BYTE;
    if estimate < DOC_RESIDENT_FLOOR_BYTES {
        DOC_RESIDENT_FLOOR_BYTES
    } else {
        estimate as usize
    }
}

/// The estimate for a snapshot of a size.
pub fn estimate_of(snapshot_bytes: usize) -> (r: usize)
    requires
        snapshot_bytes * RESIDENT_BYTES_PER_SNAPSHOT_BYTE <= usize::MAX,
    ensures
        r == resident_bytes(snapshot_bytes),
{
    let estimate: usize = snapshot_bytes * RESIDENT_BYTES_PER_SNAPSHOT_BYTE;
    if estimate < DOC_RESIDENT_FLOOR_BYTES {
        DOC_RESIDENT_FLOOR_BYTES
    } else {
        estimate
    }
}

/// The id of the note that says why an abandoned entry ended.
pub fn recovery_part_id(entry_id: &str) -> (r: String)
    ensures
        r@ == entry_id@ + "-recovery"@,
{
    join2(entry_id, "-recovery")
}

} // verus!
