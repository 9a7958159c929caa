//! What is saved of a document, with which cursor, and over what.
//!
//! A snapshot is saved with the cursor of a room and the epoch of the room generation
//! that the cursor belongs to. A saved snapshot never replaces one of a newer
//! generation, and while a local batch is not acknowledged it carries the cursor zero.

use vstd::prelude::*;

use super::handle::ChatDocHandle;
use super::pending::PendingUpdates;
use crate::auth::types::{failed_with, EngineError};
use crate::chat::sink::CHAT2_DOC_EPOCH;
use crate::chat::blob::{envelope_failure, full_log, log_exports, Blob};
use crate::chat::fresh::{fresh_import, import_fresh, import_tail, tail_import};
use crate::chat::version::import_outcomes;
use crate::text::{join2, join3};

verus! {

/// The generation of every room that is dialed: the organization-shared ones.
pub const ROOM_GEN: u32 = 3;

/// The cursor and epoch that a stored snapshot carries.
#[derive(Debug, Clone, Copy, PartialEq, Eq, Structural)]
pub struct StoredCursor {
    pub cursor: u64,
    pub epoch: u32,
}

/// An epoch within the synchronized ones and up to a room's generation.
pub open spec fn clamped_epoch(epoch: u32, room_gen: u32) -> u32 {
    let raised = if epoch < CHAT2_DOC_EPOCH {
        CHAT2_DOC_EPOCH
    } else {
        epoch
    };
    if raised > room_gen {
        room_gen
    } else {
        raised
    }
}

fn clamp_epoch(epoch: u32, room_gen: u32) -> (r: u32)
    ensures
        r == clamped_epoch(epoch, room_gen),
{
    let raised: u32 = if epoch < CHAT2_DOC_EPOCH {
        CHAT2_DOC_EPOCH
    } else {
        epoch
    };
    if raised > room_gen {
        room_gen
    } else {
        raised
    }
}

/// The epoch of what is stored, or the first synchronized one.
pub open spec fn stored_epoch(stored: Option<StoredCursor>) -> u32 {
    match stored {
        Some(row) => row.epoch,
        None => CHAT2_DOC_EPOCH,
    }
}

// ---------------------------------------------------------------------------
// Opening
// ---------------------------------------------------------------------------

/// How the opening of a chat goes on.
#[derive(Debug, PartialEq, Eq)]
pub enum OpenStep {
    Refused(EngineError),
    /// The handle that is there already.
    Cached,
    /// Load the snapshot, then call `open_plan`.
    Load,
}

/// Begins to open a chat: a deleted one is refused, and so is one whose handle is being
/// built or is retiring.
pub fn begin_open(purged: bool, chat_id: &str, cached: Option<&ChatDocHandle>) -> (r: OpenStep)
    ensures
        purged ==> r is Refused && r->Refused_0.text() == "chat "@ + chat_id@
            + " has been deleted"@,
        !purged ==> match cached {
            None => r is Load,
            Some(h) => if h.generation_frozen {
                r is Refused && r->Refused_0.text() == "chat "@ + chat_id@
                    + " is still being constructed; retry shortly"@
            } else if h.retired {
                r is Refused && r->Refused_0.text() == "chat "@ + chat_id@
                    + " is retiring its previous room; retry shortly"@
            } else {
                r is Cached
            },
        },
{
    if purged {
        return OpenStep::Refused(
            EngineError::Other(join3("chat ", chat_id, " has been deleted")),
        );
    }
    match cached {
        None => OpenStep::Load,
        Some(h) => {
            if h.generation_frozen {
                OpenStep::Refused(
                    EngineError::Other(
                        join3("chat ", chat_id, " is still being constructed; retry shortly"),
                    ),
                )
            } else if h.retired {
                OpenStep::Refused(
                    EngineError::Other(
                        join3("chat ", chat_id, " is retiring its previous room; retry shortly"),
                    ),
                )
            } else {
                OpenStep::Cached
            }
        },
    }
}

/// The cursor and epoch that a room client starts with, and whether a new row has to be
/// stamped for them.
#[derive(Debug, Clone, Copy, PartialEq, Eq, Structural)]
pub struct OpenPlan {
    pub cursor: u64,
    pub epoch: u32,
    /// There is no snapshot yet: the first one is saved at cursor zero in the first
    /// synchronized epoch, or the next start would take the row for an older one.
    pub stamp: bool,
}

/// The opening of a chat from what is stored. A room generation owns its own sequence
/// of cursors: a document from an older one starts at zero.
pub open spec fn planned_opening(stored: Option<StoredCursor>) -> OpenPlan {
    OpenPlan {
        cursor: match stored {
            Some(row) => if ROOM_GEN > row.epoch {
                0
            } else {
                row.cursor
            },
            None => 0,
        },
        epoch: clamped_epoch(
            match stored {
                Some(row) => row.epoch,
                None => 0,
            },
            ROOM_GEN,
        ),
        stamp: stored is None,
    }
}

/// Plans the opening of a chat from what is stored.
pub fn open_plan(stored: Option<StoredCursor>) -> (r: OpenPlan)
    ensures
        r == planned_opening(stored),
{
    match stored {
        Some(row) => OpenPlan {
            cursor: if ROOM_GEN > row.epoch {
                0
            } else {
                row.cursor
            },
            epoch: clamp_epoch(row.epoch, ROOM_GEN),
            stamp: false,
        },
        None => OpenPlan { cursor: 0, epoch: clamp_epoch(0, ROOM_GEN), stamp: true },
    }
}

/// The import of a stored snapshot, as a failure of the opening.
pub fn snapshot_imported<T>(import: Result<T, String>) -> (r: Result<T, EngineError>)
    ensures
        match import {
            Ok(imported) => r == Ok::<T, EngineError>(imported),
            Err(e) => r is Err && is_load_failure(r->Err_0, e@),
        },
{
    match import {
        Ok(imported) => Ok(imported),
        Err(e) => Err(EngineError::Other(join2("snapshot import failed: ", e.as_str()))),
    }
}

/// A failure to load a stored snapshot, for the given cause.
pub open spec fn is_load_failure(error: EngineError, cause: Seq<char>) -> bool {
    error.text() == "snapshot import failed: "@ + cause
}

/// The document of a stored snapshot: one that has imported its bytes, where an empty
/// document can, and the failure of that import where it cannot.
pub open spec fn is_loaded(bytes: Seq<u8>, r: Result<loro::LoroDoc, EngineError>) -> bool {
    match fresh_import(bytes) {
        Ok(_) => r is Ok && import_outcomes(r->Ok_0).contains((bytes, fresh_import(bytes))),
        Err(cause) => r is Err && is_load_failure(r->Err_0, cause),
    }
}

/// Loads a stored snapshot: a document that it was imported into, empty before. Bytes
/// without an envelope fail with their cause.
pub fn load_snapshot(blob: &Blob) -> (r: Result<loro::LoroDoc, EngineError>)
    ensures
        is_loaded(blob@, r),
        envelope_failure(blob@) matches Some(cause) ==> r is Err && is_load_failure(
            r->Err_0,
            cause,
        ),
{
    match snapshot_imported(import_fresh(blob.as_bytes())) {
        Ok((fresh, _)) => Ok(fresh.into_document()),
        Err(e) => Err(e),
    }
}

/// A chat as it is opened: its cursor and epoch, its document, where one was stored, and
/// the size of the snapshot that it was loaded from.
pub struct OpenedChat {
    pub plan: OpenPlan,
    /// The document that was stored. Where there is none, a new one begins.
    pub doc: Option<loro::LoroDoc>,
    pub snapshot_bytes: usize,
}

/// Opens a chat from what is stored of it.
pub fn open_stored(stored: Option<(Blob, StoredCursor)>) -> (r: Result<OpenedChat, EngineError>)
    ensures
        match stored {
            None => r is Ok && r->Ok_0.plan == planned_opening(None) && r->Ok_0.doc is None
                && r->Ok_0.snapshot_bytes == 0,
            Some((blob, at)) => {
                &&& envelope_failure(blob@) is Some ==> r is Err && is_load_failure(
                    r->Err_0,
                    envelope_failure(blob@)->0,
                )
                &&& fresh_import(blob@) is Ok == r is Ok
                &&& r is Err ==> is_load_failure(r->Err_0, fresh_import(blob@)->Err_0)
                &&& r is Ok ==> r->Ok_0.plan == planned_opening(Some(at)) && r->Ok_0.doc is Some
                    && import_outcomes(r->Ok_0.doc->0).contains((blob@, fresh_import(blob@)))
                    && r->Ok_0.snapshot_bytes == blob@.len()
            },
        },
{
    match stored {
        None => Ok(OpenedChat { plan: open_plan(None), doc: None, snapshot_bytes: 0 }),
        Some((blob, at)) => match load_snapshot(&blob) {
            Ok(doc) => Ok(
                OpenedChat { plan: open_plan(Some(at)), doc: Some(doc), snapshot_bytes: blob.len() },
            ),
            Err(e) => Err(e),
        },
    }
}

/// On first contact with a room, at cursor zero, the whole log of the document is
/// written out for it. It fails where the document cannot be written, which rests on
/// what the document holds.
pub fn first_contact_log(edge: bool, cursor: u64, doc: &loro::LoroDoc) -> (r: Result<
    Option<Blob>,
    String,
>)
    ensures
        !(edge && cursor == 0) ==> r is Ok && r->Ok_0 is None,
        edge && cursor == 0 ==> match r {
            Ok(log) => log is Some && log_exports(*doc).contains(
                Ok::<Seq<u8>, Seq<char>>(log->0@),
            ) && envelope_failure(log->0@) is None,
            Err(e) => log_exports(*doc).contains(Err::<Seq<u8>, Seq<char>>(e@)),
        },
{
    if !edge || cursor != 0 {
        return Ok(None);
    }
    match full_log(doc) {
        Ok(log) => Ok(Some(log)),
        Err(e) => Err(e),
    }
}

/// Readies a handle for its room before it is published. On first contact with a room,
/// at cursor zero, the whole log of the document goes first: every later update builds
/// on it, and what waited before it stays behind it.
pub fn ready_handle(
    handle: &mut ChatDocHandle,
    pending: &mut PendingUpdates,
    edge: bool,
    cursor: u64,
    full_log: Option<Vec<u8>>,
)
    requires
        old(pending).wf(),
    ensures
        final(pending).wf(),
        final(pending).same_fences(*old(pending)),
        final(pending).same_elsewhere(*old(pending), old(handle).chat_id@),
        *final(handle) == (ChatDocHandle {
            generation_frozen: false,
            local_update_tracking: old(handle).local_update_tracking || edge,
            replay_from_zero: old(handle).replay_from_zero || (edge && cursor == 0),
            ..*old(handle)
        }),
        ({
            let chat = old(handle).chat_id@;
            let sent = edge && cursor == 0 && full_log is Some && full_log->0@.len() > 0 && !old(
                pending,
            ).purged.has(chat);
            final(pending).queue(chat) == (if sent {
                seq![full_log->0] + old(pending).queue(chat)
            } else {
                old(pending).queue(chat)
            })
        }),
{
    if edge {
        handle.local_update_tracking = true;
        if cursor == 0 {
            handle.replay_from_zero = true;
            if let Some(bytes) = full_log {
                if !bytes.is_empty() {
                    pending.prepend_chat2_update(handle.chat_id.as_str(), bytes);
                }
            }
        }
    }
    handle.generation_frozen = false;
}

/// How a new handle is published.
#[derive(Debug, PartialEq, Eq)]
pub enum PublishHandle {
    /// The chat was deleted meanwhile: delete its snapshot and fail.
    Deleted(EngineError),
    /// Another opening was first: its handle is the result.
    Existing,
    Insert,
}

/// Publishes a handle, unless the chat was deleted or opened by another meanwhile.
pub fn publish_handle(purged: bool, exists: bool, chat_id: &str) -> (r: PublishHandle)
    ensures
        purged ==> r is Deleted && r->Deleted_0.text() == "chat "@ + chat_id@
            + " has been deleted"@,
        !purged ==> r == (if exists {
            PublishHandle::Existing
        } else {
            PublishHandle::Insert
        }),
{
    if purged {
        PublishHandle::Deleted(EngineError::Other(join3("chat ", chat_id, " has been deleted")))
    } else if exists {
        PublishHandle::Existing
    } else {
        PublishHandle::Insert
    }
}

// ---------------------------------------------------------------------------
// Saving
// ---------------------------------------------------------------------------

/// What to save of a handle's document.
#[derive(Debug, PartialEq, Eq)]
pub enum SnapshotPlan {
    /// The chat is deleted: delete what is stored, and fail.
    Deleted,
    /// Merge the stored snapshot, which is of the target generation already, with the
    /// document, and save the result at cursor zero in the given epoch.
    Merge { epoch: u32 },
    /// Save the document at cursor zero in the given epoch. `cutover` tells a move to
    /// another generation from a save in the same one.
    SaveAtZero { epoch: u32, cutover: bool },
    /// A newer generation owns the chat: save nothing over it. A document from before
    /// the synchronized generations is kept under a name of its own, if it is not there
    /// yet.
    KeepNewer { rollback: Option<String> },
    /// Save the document, keeping the stored cursor and epoch.
    Save,
}

/// The plan for saving a document in the room generation of its handle, or on the way
/// to a later one.
pub open spec fn plan_of(
    handle: ChatDocHandle,
    target_gen: u32,
    stored: Option<StoredCursor>,
    r: SnapshotPlan,
) -> bool {
    let thin = handle.room_gen >= CHAT2_DOC_EPOCH;
    if handle.purged {
        r is Deleted
    } else if thin && target_gen > handle.room_gen {
        if stored is Some && stored->0.epoch >= target_gen {
            r == SnapshotPlan::Merge { epoch: stored->0.epoch }
        } else {
            r == SnapshotPlan::SaveAtZero { epoch: target_gen, cutover: true }
        }
    } else if stored is Some && stored->0.epoch > handle.room_gen {
        &&& r is KeepNewer
        &&& thin ==> r->rollback is None
        &&& !thin ==> r->rollback is Some && r->rollback->0@ == handle.chat_id@ + ".pre-chat2"@
    } else if handle.replay_from_zero && thin {
        r == SnapshotPlan::SaveAtZero {
            epoch: clamped_epoch(stored_epoch(stored), handle.room_gen),
            cutover: false,
        }
    } else {
        r == SnapshotPlan::Save
    }
}

/// The name under which the document of a chat is kept from before the synchronized
/// generations.
pub fn rollback_id(chat_id: &str) -> (r: String)
    ensures
        r@ == chat_id@ + ".pre-chat2"@,
{
    join2(chat_id, ".pre-chat2")
}

/// Plans the save of a handle's document.
pub fn persist_cutover_snapshot(
    handle: &ChatDocHandle,
    target_gen: u32,
    stored: Option<StoredCursor>,
) -> (r: SnapshotPlan)
    ensures
        plan_of(*handle, target_gen, stored, r),
{
    if handle.purged {
        return SnapshotPlan::Deleted;
    }
    if handle.room_gen >= CHAT2_DOC_EPOCH && target_gen > handle.room_gen {
        if let Some(row) = stored {
            if row.epoch >= target_gen {
                return SnapshotPlan::Merge { epoch: row.epoch };
            }
        }
        return SnapshotPlan::SaveAtZero { epoch: target_gen, cutover: true };
    }
    if let Some(row) = stored {
        if row.epoch > handle.room_gen {
            if handle.room_gen < CHAT2_DOC_EPOCH {
                return SnapshotPlan::KeepNewer {
                    rollback: Some(rollback_id(handle.chat_id.as_str())),
                };
            }
            return SnapshotPlan::KeepNewer { rollback: None };
        }
    }
    if handle.replay_from_zero && handle.room_gen >= CHAT2_DOC_EPOCH {
        let base: u32 = match stored {
            Some(row) => row.epoch,
            None => CHAT2_DOC_EPOCH,
        };
        return SnapshotPlan::SaveAtZero {
            epoch: clamp_epoch(base, handle.room_gen),
            cutover: false,
        };
    }
    SnapshotPlan::Save
}

/// The failure for a chat that was deleted while it was saved.
pub open spec fn deleted_message(chat: Seq<char>) -> Seq<char> {
    "chat "@ + chat + " was deleted during snapshot persistence"@
}

/// Ends a save. A chat that was deleted meanwhile fails, and what was just saved has to
/// be deleted. A move to another generation needs a full replay there.
pub fn snapshot_saved(handle: &mut ChatDocHandle, plan: &SnapshotPlan) -> (r: Result<
    (),
    EngineError,
>)
    ensures
        ({
            let writes = !(plan is KeepNewer);
            let moved = plan is Merge || (plan is SaveAtZero && plan->cutover);
            &&& (plan is Deleted || (writes && old(handle).purged)) ==> r is Err && r->Err_0.text()
                == deleted_message(old(handle).chat_id@) && *final(handle) == *old(handle)
            &&& !(plan is Deleted || (writes && old(handle).purged)) ==> r is Ok && *final(handle)
                == (ChatDocHandle {
                replay_from_zero: old(handle).replay_from_zero || moved,
                ..*old(handle)
            })
        }),
{
    let failed = match plan {
        SnapshotPlan::Deleted => true,
        SnapshotPlan::KeepNewer { rollback: _ } => false,
        _ => handle.purged,
    };
    if failed {
        return Err(
            EngineError::Other(
                join3(
                    "chat ",
                    handle.chat_id.as_str(),
                    " was deleted during snapshot persistence",
                ),
            ),
        );
    }
    match plan {
        SnapshotPlan::Merge { epoch: _ } => {
            handle.replay_from_zero = true;
        },
        SnapshotPlan::SaveAtZero { epoch: _, cutover } => {
            if *cutover {
                handle.replay_from_zero = true;
            }
        },
        _ => {},
    }
    Ok(())
}

/// The import of the stored snapshot into an empty document, as a failure of the save.
pub fn target_imported<T>(import: Result<T, String>) -> (r: Result<T, EngineError>)
    ensures
        match import {
            Ok(imported) => r == Ok::<T, EngineError>(imported),
            Err(e) => failed_with(r, "target snapshot import failed: "@ + e@),
        },
{
    match import {
        Ok(imported) => Ok(imported),
        Err(e) => Err(
            EngineError::Other(join2("target snapshot import failed: ", e.as_str())),
        ),
    }
}

/// The import of the document's tail over the stored snapshot, as a failure of the save.
pub fn source_merged<T>(import: Result<T, String>) -> (r: Result<T, EngineError>)
    ensures
        match import {
            Ok(imported) => r == Ok::<T, EngineError>(imported),
            Err(e) => failed_with(r, "source tail merge failed: "@ + e@),
        },
{
    match import {
        Ok(imported) => Ok(imported),
        Err(e) => Err(EngineError::Other(join2("source tail merge failed: ", e.as_str()))),
    }
}

/// Merges a stored snapshot with the tail of a document: the snapshot goes into an empty
/// document first, and the tail over it. Either import that fails names its side.
pub fn merge_snapshots(target: &Blob, source: &Blob) -> (r: Result<loro::LoroDoc, EngineError>)
    ensures
        match fresh_import(target@) {
            Err(cause) => failed_with(r, "target snapshot import failed: "@ + cause),
            Ok(_) => match tail_import(target@, source@) {
                Err(cause) => failed_with(r, "source tail merge failed: "@ + cause),
                Ok(_) => r is Ok && import_outcomes(r->Ok_0).contains(
                    (target@, fresh_import(target@)),
                ) && import_outcomes(r->Ok_0).contains(
                    (source@, tail_import(target@, source@)),
                ),
            },
        },
        envelope_failure(target@) matches Some(cause) ==> failed_with(
            r,
            "target snapshot import failed: "@ + cause,
        ),
        fresh_import(target@) is Ok && envelope_failure(source@) is Some ==> failed_with(
            r,
            "source tail merge failed: "@ + envelope_failure(source@)->0,
        ),
{
    match target_imported(import_fresh(target.as_bytes())) {
        Err(e) => Err(e),
        Ok((fresh, _)) => match source_merged(import_tail(fresh, source.as_bytes())) {
            Err(e) => Err(e),
            Ok((merged, _)) => Ok(merged),
        },
    }
}

/// Readies an ordinary save: while updates wait for the room, the snapshot is saved for
/// a full replay. A deleted chat is not saved.
pub fn begin_save(handle: &mut ChatDocHandle, pending: &PendingUpdates) -> (save: bool)
    ensures
        save == !old(handle).purged,
        *final(handle) == (ChatDocHandle {
            replay_from_zero: old(handle).replay_from_zero || (!old(handle).purged && pending.queue(
                old(handle).chat_id@,
            ).len() > 0),
            ..*old(handle)
        }),
{
    if handle.purged {
        return false;
    }
    if pending.has_pending(handle.chat_id.as_str()) {
        handle.replay_from_zero = true;
    }
    true
}

/// A save never puts an older generation over a newer one, and the epoch of what is
/// stored never goes back.
pub proof fn a_save_never_goes_back(
    handle: ChatDocHandle,
    target_gen: u32,
    stored: StoredCursor,
    plan: SnapshotPlan,
)
    requires
        plan_of(handle, target_gen, Some(stored), plan),
    ensures
        plan matches SnapshotPlan::SaveAtZero { epoch, cutover: _ } ==> epoch >= stored.epoch,
        plan matches SnapshotPlan::Merge { epoch } ==> epoch >= stored.epoch,
        plan is Save ==> stored.epoch <= handle.room_gen,
        stored.epoch > handle.room_gen && target_gen <= handle.room_gen && !handle.purged ==> plan
            is KeepNewer,
{
}

/// Work that the room has not acknowledged survives a restart: it is saved at cursor
/// zero, and a document that is opened from there is sent in full again.
pub proof fn unacknowledged_work_is_replayed_after_a_restart(
    handle: ChatDocHandle,
    stored: Option<StoredCursor>,
    plan: SnapshotPlan,
    next: OpenPlan,
)
    requires
        handle.replay_from_zero,
        !handle.purged,
        handle.room_gen == ROOM_GEN,
        stored is Some ==> stored->0.epoch <= ROOM_GEN,
        plan_of(handle, ROOM_GEN, stored, plan),
        plan is SaveAtZero ==> call_ensures(
            open_plan,
            (Some(StoredCursor { cursor: 0, epoch: plan->SaveAtZero_epoch }),),
            next,
        ),
    ensures
        plan is SaveAtZero,
        next.cursor == 0,
        !next.stamp,
        CHAT2_DOC_EPOCH <= next.epoch <= ROOM_GEN,
{
}

/// A document of an older room generation never carries its cursor over: it starts at
/// zero, in the epoch that it has.
pub proof fn an_older_generation_starts_at_zero(row: StoredCursor, next: OpenPlan)
    requires
        row.epoch < ROOM_GEN,
        call_ensures(open_plan, (Some(row),), next),
    ensures
        next.cursor == 0,
        next.epoch == CHAT2_DOC_EPOCH,
{
}

// ---------------------------------------------------------------------------
// Ending a full replay
// ---------------------------------------------------------------------------

/// What is read of a room client.
#[derive(Debug, Clone, Copy, PartialEq, Eq, Structural)]
pub struct ClientStats {
    pub connected: bool,
    pub pending_pushes: u64,
    pub rejected: u64,
    pub cursor: u64,
    pub server_known: bool,
    pub checkpoint_size: u64,
    pub row_bytes: u64,
    pub row_count: u64,
}

/// The end of a full replay, under way: the cursor to save, and the count of local
/// commits at the time it was read.
#[derive(Debug, Clone, Copy, PartialEq, Eq, Structural)]
pub struct ReplayClear {
    pub cursor: u64,
    pub mutation_epoch: u64,
}

/// The same, with the epoch to save in.
#[derive(Debug, Clone, Copy, PartialEq, Eq, Structural)]
pub struct ReplaySave {
    pub cursor: u64,
    pub epoch: u32,
    pub mutation_epoch: u64,
}

/// What the caller does after the snapshot with the real cursor was saved.
#[derive(Debug, Clone, Copy, PartialEq, Eq, Structural)]
pub enum ReplaySaved {
    /// The chat was deleted meanwhile: delete what was saved.
    Delete,
    /// A local commit came meanwhile: save again at cursor zero in this epoch.
    SaveZero { epoch: u32 },
    /// Read the stored row back, then call `replay_verified`.
    Verify,
}

/// What the caller does after the stored row was read back.
#[derive(Debug, Clone, Copy, PartialEq, Eq, Structural)]
pub enum ReplayVerified {
    /// Nothing more: the replay stays marked.
    Stop,
    /// The replay mark is gone.
    Cleared,
    /// The mark was set again, for a commit came: save at cursor zero in this epoch.
    SaveZero { epoch: u32 },
}

/// Everything that the room has is acknowledged and covered, so a full replay may end.
pub open spec fn replay_may_end(
    handle: ChatDocHandle,
    stats: Option<ClientStats>,
    waiting: bool,
) -> bool {
    &&& handle.replay_from_zero
    &&& !handle.closed()
    &&& handle.local_callbacks_pending == 0
    &&& stats is Some
    &&& stats->0.pending_pushes == 0
    &&& stats->0.rejected <= handle.checkpointed_rejections
    &&& stats->0.cursor != 0
    &&& !waiting
}

/// Begins to end a full replay: only once the client shows that every local batch is
/// gone, every rejected one is covered by a checkpoint, and nothing waits.
pub fn begin_replay_clear(
    handle: &ChatDocHandle,
    stats: Option<ClientStats>,
    waiting: bool,
) -> (r: Option<ReplayClear>)
    ensures
        r == (if replay_may_end(*handle, stats, waiting) {
            Some(
                ReplayClear {
                    cursor: stats->0.cursor,
                    mutation_epoch: handle.local_mutation_epoch,
                },
            )
        } else {
            None
        }),
{
    if !handle.replay_from_zero || handle.is_closed() || handle.local_callbacks_pending != 0 {
        return None;
    }
    match stats {
        None => None,
        Some(stats) => {
            if stats.pending_pushes != 0 || stats.rejected > handle.checkpointed_rejections
                || stats.cursor == 0 || waiting {
                return None;
            }
            Some(
                ReplayClear {
                    cursor: stats.cursor,
                    mutation_epoch: handle.local_mutation_epoch,
                },
            )
        },
    }
}

impl ReplayClear {
    /// Chooses the epoch to save in: that of what is stored, within the generation of
    /// the room, for only an own ack may finish a handoff. Nothing where a newer
    /// generation owns the chat.
    pub fn durable_read(self, handle: &ChatDocHandle, stored: Option<StoredCursor>) -> (r: Option<
        ReplaySave,
    >)
        ensures
            r == (if stored is Some && stored->0.epoch > handle.room_gen {
                None
            } else {
                Some(
                    ReplaySave {
                        cursor: self.cursor,
                        epoch: clamped_epoch(stored_epoch(stored), handle.room_gen),
                        mutation_epoch: self.mutation_epoch,
                    },
                )
            }),
    {
        let base: u32 = match stored {
            Some(row) => {
                if row.epoch > handle.room_gen {
                    return None;
                }
                row.epoch
            },
            None => CHAT2_DOC_EPOCH,
        };
        Some(
            ReplaySave {
                cursor: self.cursor,
                epoch: clamp_epoch(base, handle.room_gen),
                mutation_epoch: self.mutation_epoch,
            },
        )
    }
}

impl ReplaySave {
    /// A local commit came since the end of the replay began.
    pub open spec fn overtaken(self, handle: ChatDocHandle) -> bool {
        handle.local_callbacks_pending != 0 || handle.local_mutation_epoch != self.mutation_epoch
    }

    fn is_overtaken(&self, handle: &ChatDocHandle) -> (r: bool)
        ensures
            r == self.overtaken(*handle),
    {
        handle.local_callbacks_pending != 0 || handle.local_mutation_epoch != self.mutation_epoch
    }

    /// What follows the save of the snapshot with the real cursor.
    pub fn saved(&self, handle: &mut ChatDocHandle, snapshot_bytes: usize) -> (r: ReplaySaved)
        ensures
            *final(handle) == (ChatDocHandle {
                snapshot_bytes,
                replay_from_zero: old(handle).replay_from_zero || (!old(handle).purged
                    && self.overtaken(*old(handle))),
                ..*old(handle)
            }),
            r == (if old(handle).purged {
                ReplaySaved::Delete
            } else if self.overtaken(*old(handle)) {
                ReplaySaved::SaveZero { epoch: self.epoch }
            } else {
                ReplaySaved::Verify
            }),
    {
        handle.snapshot_bytes = snapshot_bytes;
        if handle.purged {
            return ReplaySaved::Delete;
        }
        if self.is_overtaken(handle) {
            handle.replay_from_zero = true;
            return ReplaySaved::SaveZero { epoch: self.epoch };
        }
        ReplaySaved::Verify
    }

    /// Takes the mark off, if what is stored is exactly what was saved.
    pub fn verified(&self, handle: &mut ChatDocHandle, stored: Option<StoredCursor>) -> (exact:
        bool)
        ensures
            exact == (stored == Some(StoredCursor { cursor: self.cursor, epoch: self.epoch })),
            *final(handle) == (ChatDocHandle {
                replay_from_zero: old(handle).replay_from_zero && !exact,
                ..*old(handle)
            }),
    {
        let exact = match stored {
            Some(row) => row.cursor == self.cursor && row.epoch == self.epoch,
            None => false,
        };
        if exact {
            handle.replay_from_zero = false;
        }
        exact
    }

    /// Looks once more after the mark was taken off: a commit that came around that
    /// moment sets it again, and the snapshot goes back to cursor zero.
    pub fn recheck(&self, handle: &mut ChatDocHandle, exact: bool) -> (r: ReplayVerified)
        ensures
            r == (if !exact {
                ReplayVerified::Stop
            } else if self.overtaken(*old(handle)) {
                ReplayVerified::SaveZero { epoch: self.epoch }
            } else {
                ReplayVerified::Cleared
            }),
            *final(handle) == (ChatDocHandle {
                replay_from_zero: old(handle).replay_from_zero || (exact && self.overtaken(
                    *old(handle),
                )),
                ..*old(handle)
            }),
    {
        if !exact {
            return ReplayVerified::Stop;
        }
        if self.is_overtaken(handle) {
            handle.replay_from_zero = true;
            ReplayVerified::SaveZero { epoch: self.epoch }
        } else {
            ReplayVerified::Cleared
        }
    }
}

/// A full replay ends only when nothing is left to replay: at the time it began to end
/// every batch was acknowledged or covered, no commit came since, and the stored row is
/// the one with the acknowledged cursor, in the epoch it already had.
pub proof fn a_replay_ends_only_when_covered(
    handle: ChatDocHandle,
    stats: Option<ClientStats>,
    waiting: bool,
    before: Option<StoredCursor>,
    clear: ReplayClear,
    save: ReplaySave,
    last: ChatDocHandle,
    stored: Option<StoredCursor>,
    outcome: ReplayVerified,
    exact: bool,
)
    requires
        call_ensures(begin_replay_clear, (&handle, stats, waiting), Some(clear)),
        call_ensures(ReplayClear::durable_read, (clear, &handle, before), Some(save)),
        exact == (stored == Some(StoredCursor { cursor: save.cursor, epoch: save.epoch })),
        outcome == (if !exact {
            ReplayVerified::Stop
        } else if save.overtaken(last) {
            ReplayVerified::SaveZero { epoch: save.epoch }
        } else {
            ReplayVerified::Cleared
        }),
        outcome == ReplayVerified::Cleared,
    ensures
        replay_may_end(handle, stats, waiting),
        stored == Some(
            StoredCursor {
                cursor: stats->0.cursor,
                epoch: clamped_epoch(stored_epoch(before), handle.room_gen),
            },
        ),
        stats->0.cursor != 0,
        last.local_mutation_epoch == handle.local_mutation_epoch && last.local_callbacks_pending
            == 0,
        before is Some && CHAT2_DOC_EPOCH <= before->0.epoch ==> stored->0.epoch
            == before->0.epoch,
{
}

} // verus!
