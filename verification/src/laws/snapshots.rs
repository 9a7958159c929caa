//! Laws of what is saved of a document, and of what waits for its room.

use vstd::prelude::*;

use crate::auth::types::EngineError;
use crate::chat::blob::{log_exports, Blob};
use crate::chat::fresh::{fresh_import, tail_import};
use crate::chat::version::import_outcomes;
use crate::host::handle::ChatDocHandle;
use crate::host::lifecycle::{
    arm_attachment_wait, carry_back, disarm_attachment_wait, exactly_the_removed_rows_are_purged,
    park_chat2_client, purge_chat, RegistryChange, RegistryWatch, SaveTimer,
};
use crate::host::maps::TextSet;
use crate::host::pending::PendingUpdates;
use crate::host::snapshots::{
    begin_open, begin_replay_clear, begin_save, first_contact_log, load_snapshot, merge_snapshots,
    open_plan, open_stored, persist_cutover_snapshot, publish_handle, ready_handle, rollback_id,
    snapshot_imported, snapshot_saved, source_merged, target_imported, ClientStats, OpenPlan, OpenStep, OpenedChat, PublishHandle, ReplayClear,
    ReplaySave, ReplaySaved, ReplayVerified, SnapshotPlan, StoredCursor,
};
use crate::text::texts;

verus! {

// ---------------------------------------------------------------------------
// Opening
// ---------------------------------------------------------------------------

/// A chat is opened unless it is deleted, or its handle is being built or is on its way
/// out; a handle that is there is the one that is used.
pub proof fn an_open_chat_has_one_handle(
    purged: bool,
    chat_id: &str,
    cached: Option<&ChatDocHandle>,
    r: OpenStep,
)
    requires
        call_ensures(begin_open, (purged, chat_id, cached), r),
    ensures
        r is Load <==> !purged && cached is None,
        r is Cached <==> !purged && cached is Some && !cached->0.generation_frozen
            && !cached->0.retired,
        purged ==> r->Refused_0.text() == "chat "@ + chat_id@ + " has been deleted"@,
        !purged && cached is Some && cached->0.generation_frozen ==> r is Refused
            && r->Refused_0.text() == "chat "@ + chat_id@
            + " is still being constructed; retry shortly"@,
        !purged && cached is Some && !cached->0.generation_frozen && cached->0.retired ==> r
            is Refused && r->Refused_0.text() == "chat "@ + chat_id@
            + " is retiring its previous room; retry shortly"@,
{
}

/// A room of the third generation goes on from the stored cursor exactly where that is a
/// cursor of its own generation, and from zero otherwise. The epoch is the stored one,
/// neither older than the second nor newer than the third. Only a chat without a row is
/// stamped.
pub proof fn a_cursor_belongs_to_its_generation(stored: Option<StoredCursor>, r: OpenPlan)
    requires
        call_ensures(open_plan, (stored,), r),
    ensures
        r.stamp <==> stored is None,
        stored is None ==> r.cursor == 0 && r.epoch == 2,
        stored matches Some(row) ==> {
            &&& row.epoch >= 3 ==> r.cursor == row.cursor && r.epoch == 3
            &&& row.epoch < 3 ==> r.cursor == 0 && r.epoch == 2
        },
{
}

/// A stored chat is opened as its snapshot, at the place that its row says; without one a
/// new document begins.
pub proof fn a_stored_chat_is_its_snapshot(
    stored: Option<(Blob, StoredCursor)>,
    r: Result<OpenedChat, EngineError>,
    plan: OpenPlan,
    loaded: Result<loro::LoroDoc, EngineError>,
)
    requires
        call_ensures(open_stored, (stored,), r),
        stored is None ==> call_ensures(open_plan, (None,), plan),
        stored matches Some((blob, at)) ==> call_ensures(open_plan, (Some(at),), plan)
            && call_ensures(load_snapshot, (&blob,), loaded),
    ensures
        stored is None ==> r is Ok && r->Ok_0.doc is None && r->Ok_0.snapshot_bytes == 0
            && r->Ok_0.plan == plan,
        stored matches Some((blob, at)) ==> {
            &&& r is Ok <==> loaded is Ok
            &&& r is Ok ==> r->Ok_0.doc is Some && r->Ok_0.snapshot_bytes == blob@.len()
                && r->Ok_0.plan == plan
            &&& r is Err ==> r->Err_0.text() == loaded->Err_0.text()
            &&& r is Ok ==> import_outcomes(r->Ok_0.doc->0).contains((blob@, fresh_import(blob@)))
        },
{
}

/// A snapshot is loaded where an empty document can import it, and into that document;
/// otherwise the failure of that import is told.
pub proof fn a_snapshot_is_loaded_into_an_empty_document(
    blob: &Blob,
    r: Result<loro::LoroDoc, EngineError>,
)
    requires
        call_ensures(load_snapshot, (blob,), r),
    ensures
        r is Ok <==> fresh_import(blob@) is Ok,
        r is Ok ==> import_outcomes(r->Ok_0).contains((blob@, fresh_import(blob@))),
        r is Err ==> r->Err_0.text() == "snapshot import failed: "@ + fresh_import(blob@)->Err_0,
{
}

/// The whole log is written out for a room that is met for the first time, and only then.
pub proof fn the_whole_log_goes_to_a_new_room(
    edge: bool,
    cursor: u64,
    doc: &loro::LoroDoc,
    r: Result<Option<Blob>, String>,
)
    requires
        call_ensures(first_contact_log, (edge, cursor, doc), r),
    ensures
        !edge || cursor != 0 ==> r is Ok && r->Ok_0 is None,
        edge && cursor == 0 && r is Ok ==> r->Ok_0 is Some && log_exports(*doc).contains(
            Ok::<Seq<u8>, Seq<char>>(r->Ok_0->0@),
        ),
        r is Err ==> edge && cursor == 0 && log_exports(*doc).contains(
            Err::<Seq<u8>, Seq<char>>(r->Err_0@),
        ),
{
}

/// A handle that is readied is open from then on. Before a room that is met for the first
/// time the whole log waits first, with what waited behind it, and the document counts as
/// not covered.
pub proof fn a_first_contact_sends_everything(
    handle: &mut ChatDocHandle,
    pending: &mut PendingUpdates,
    edge: bool,
    cursor: u64,
    full_log: Option<Vec<u8>>,
    other: Seq<char>,
)
    requires
        old(pending).wf(),
        call_ensures(ready_handle, (handle, pending, edge, cursor, full_log), ()),
        other != old(handle).chat_id@,
    ensures
        !final(handle).generation_frozen,
        edge ==> final(handle).local_update_tracking,
        !edge ==> final(handle).local_update_tracking == old(handle).local_update_tracking,
        edge && cursor == 0 ==> final(handle).replay_from_zero,
        !(edge && cursor == 0) ==> final(handle).replay_from_zero == old(handle).replay_from_zero,
        *final(handle) == (ChatDocHandle { generation_frozen: final(handle).generation_frozen, local_update_tracking: final(handle).local_update_tracking, replay_from_zero: final(handle).replay_from_zero, ..*old(handle) }),
        final(pending).queue(other) == old(pending).queue(other),
        ({
            let chat = old(handle).chat_id@;
            let first = edge && cursor == 0 && full_log is Some && full_log->0@.len() > 0 && !old(
                pending).purged.has(chat);
            &&& first ==> final(pending).queue(chat) == seq![full_log->0] + old(pending).queue(chat)
            &&& !first ==> final(pending).queue(chat) == old(pending).queue(chat)
        }),
{
}

/// A handle is published once, and never for a deleted chat.
pub proof fn a_handle_is_published_once(purged: bool, exists: bool, chat_id: &str, r: PublishHandle)
    requires
        call_ensures(publish_handle, (purged, exists, chat_id), r),
    ensures
        r is Insert <==> !purged && !exists,
        r is Existing <==> !purged && exists,
        purged ==> r is Deleted && r->Deleted_0.text() == "chat "@ + chat_id@
            + " has been deleted"@,
{
}

// ---------------------------------------------------------------------------
// Saving
// ---------------------------------------------------------------------------

/// A save keeps the stored cursor only where nothing is left to replay, writes over
/// nothing that a newer generation owns, and otherwise goes back to cursor zero: in the
/// generation that the chat moves to, or in the one that it is in.
pub proof fn a_save_is_planned_by_generation(
    handle: &ChatDocHandle,
    target_gen: u32,
    stored: Option<StoredCursor>,
    r: SnapshotPlan,
)
    requires
        call_ensures(persist_cutover_snapshot, (handle, target_gen, stored), r),
    ensures
        ({
            let synced = handle.room_gen >= 2;
            let moves = synced && target_gen > handle.room_gen;
            let newer = stored is Some && stored->0.epoch > handle.room_gen;
            &&& r is Deleted <==> handle.purged
            &&& r is Merge <==> !handle.purged && moves && stored is Some && stored->0.epoch
                >= target_gen
            &&& r is Merge ==> r->Merge_epoch == stored->0.epoch
            &&& r is KeepNewer <==> !handle.purged && !moves && newer
            &&& r is KeepNewer ==> (r->rollback is Some <==> !synced)
            &&& r is KeepNewer && !synced ==> r->rollback->0@ == handle.chat_id@ + ".pre-chat2"@
            &&& r is SaveAtZero <==> !handle.purged && ((moves && !(stored is Some
                && stored->0.epoch >= target_gen)) || (!moves && !newer && synced
                && handle.replay_from_zero))
            &&& r is SaveAtZero ==> r->cutover == moves
            &&& r is SaveAtZero && moves ==> r->SaveAtZero_epoch == target_gen
            &&& r is SaveAtZero && !moves && stored is Some && stored->0.epoch >= 2
                ==> r->SaveAtZero_epoch == stored->0.epoch
            &&& r is SaveAtZero && !moves && (stored is None || stored->0.epoch < 2)
                ==> r->SaveAtZero_epoch == 2
            &&& r is Save <==> !handle.purged && !moves && !newer && !(synced
                && handle.replay_from_zero)
        }),
{
}

/// A save of a chat that was deleted meanwhile fails, unless it wrote nothing. One that
/// moved the chat to another generation leaves everything to replay.
pub proof fn a_move_is_replayed(
    handle: &mut ChatDocHandle,
    plan: &SnapshotPlan,
    r: Result<(), EngineError>,
)
    requires
        call_ensures(snapshot_saved, (handle, plan), r),
    ensures
        r is Err <==> plan is Deleted || (old(handle).purged && !(plan is KeepNewer)),
        r is Err ==> r->Err_0.text() == "chat "@ + old(handle).chat_id@
            + " was deleted during snapshot persistence"@ && *final(handle) == *old(handle),
        r is Ok && (plan is Merge || (plan is SaveAtZero && plan->cutover)) ==> final(handle).replay_from_zero,
        *final(handle) == (ChatDocHandle { replay_from_zero: final(handle).replay_from_zero, ..*old(handle) }),
        r is Ok && !(plan is Merge || (plan is SaveAtZero && plan->cutover)) ==> *final(handle)
            == *old(handle),
{
}

/// A chat is saved unless it is deleted; while anything waits for its room, everything
/// counts as not covered.
pub proof fn what_waits_is_saved_for_a_replay(
    handle: &mut ChatDocHandle,
    pending: &PendingUpdates,
    save: bool,
)
    requires
        call_ensures(begin_save, (handle, pending), save),
    ensures
        save <==> !old(handle).purged,
        save && pending.queue(old(handle).chat_id@).len() > 0 ==> final(handle).replay_from_zero,
        !save || pending.queue(old(handle).chat_id@).len() == 0 ==> *final(handle) == *old(handle),
        *final(handle) == (ChatDocHandle { replay_from_zero: final(handle).replay_from_zero, ..*old(handle) }),
{
}

/// A merge says which of its two sides failed, and fails only where one does.
pub proof fn a_merge_names_the_side_that_failed(
    target: &Blob,
    source: &Blob,
    alone: Result<loro::LoroDoc, EngineError>,
    r: Result<loro::LoroDoc, EngineError>,
)
    requires
        call_ensures(merge_snapshots, (target, source), r),
        call_ensures(load_snapshot, (target,), alone),
    ensures
        r is Ok <==> alone is Ok && tail_import(target@, source@) is Ok,
        alone is Err ==> r->Err_0.text() == "target snapshot import failed: "@ + fresh_import(
            target@,
        )->Err_0,
        alone is Ok && tail_import(target@, source@) is Err ==> r->Err_0.text()
            == "source tail merge failed: "@ + tail_import(target@, source@)->Err_0,
        r is Ok ==> import_outcomes(r->Ok_0).contains((target@, fresh_import(target@)))
            && import_outcomes(r->Ok_0).contains((source@, tail_import(target@, source@))),
{
}

/// The document from before a room change is kept under the chat's id with `.pre-chat2`
/// behind it.
pub proof fn an_old_document_has_its_own_name(chat_id: &str, r: String)
    requires
        call_ensures(rollback_id, (chat_id,), r),
    ensures
        r@ == chat_id@ + ".pre-chat2"@,
{
}

// ---------------------------------------------------------------------------
// Ending a replay
// ---------------------------------------------------------------------------

/// A replay begins to end only where the room has everything: the handle is open, no
/// local commit is under way, the client has delivered all, at a place, every rejection
/// is covered, and nothing waits.
pub proof fn a_replay_ends_when_the_room_has_everything(
    handle: &ChatDocHandle,
    stats: Option<ClientStats>,
    waiting: bool,
    r: Option<ReplayClear>,
)
    requires
        call_ensures(begin_replay_clear, (handle, stats, waiting), r),
    ensures
        r is Some <==> handle.replay_from_zero && !handle.generation_frozen && !handle.retired
            && !handle.purged && handle.local_callbacks_pending == 0 && stats is Some
            && stats->0.pending_pushes == 0 && stats->0.rejected <= handle.checkpointed_rejections
            && stats->0.cursor != 0 && !waiting,
        r is Some ==> r->0.cursor == stats->0.cursor && r->0.mutation_epoch
            == handle.local_mutation_epoch,
{
}

/// A replay ends in the epoch that is stored, within the generation of the room, and not
/// at all where a newer generation owns the chat.
pub proof fn a_replay_ends_in_the_stored_epoch(
    clear: ReplayClear,
    handle: &ChatDocHandle,
    stored: Option<StoredCursor>,
    r: Option<ReplaySave>,
)
    requires
        call_ensures(ReplayClear::durable_read, (clear, handle, stored), r),
    ensures
        r is None <==> stored is Some && stored->0.epoch > handle.room_gen,
        r is Some ==> r->0.cursor == clear.cursor && r->0.mutation_epoch == clear.mutation_epoch,
        r is Some && stored is Some && stored->0.epoch >= 2 ==> r->0.epoch == stored->0.epoch,
        r is Some && (stored is None || stored->0.epoch < 2) && handle.room_gen >= 2 ==> r->0.epoch
            == 2,
        r is Some ==> r->0.epoch <= handle.room_gen,
{
}

/// A commit came since the replay began to end.
pub open spec fn was_overtaken(save: ReplaySave, handle: ChatDocHandle) -> bool {
    handle.local_callbacks_pending > 0 || handle.local_mutation_epoch != save.mutation_epoch
}

/// A commit that comes while a replay ends is never left out: everything counts as not
/// covered again, and the snapshot goes back to cursor zero.
pub proof fn a_commit_keeps_a_replay_open(
    save: &ReplaySave,
    handle: &mut ChatDocHandle,
    bytes: usize,
    r: ReplaySaved,
)
    requires
        call_ensures(ReplaySave::saved, (save, handle, bytes), r),
    ensures
        r is Delete <==> old(handle).purged,
        r is SaveZero <==> !old(handle).purged && was_overtaken(*save, *old(handle)),
        r is Verify <==> !old(handle).purged && !was_overtaken(*save, *old(handle)),
        r is SaveZero ==> final(handle).replay_from_zero && r->SaveZero_epoch == save.epoch,
        !(r is SaveZero) ==> final(handle).replay_from_zero == old(handle).replay_from_zero,
        final(handle).snapshot_bytes == bytes,
        *final(handle) == (ChatDocHandle { replay_from_zero: final(handle).replay_from_zero, snapshot_bytes: final(handle).snapshot_bytes, ..*old(handle) }),
{
}

/// The mark of a replay goes off where exactly what was saved is stored, and on again
/// where a commit came around that moment.
pub proof fn a_replay_ends_on_what_is_stored(
    save: &ReplaySave,
    handle: &mut ChatDocHandle,
    stored: Option<StoredCursor>,
    exact: bool,
    later: &mut ChatDocHandle,
    r: ReplayVerified,
)
    requires
        call_ensures(ReplaySave::verified, (save, handle, stored), exact),
        call_ensures(ReplaySave::recheck, (save, later, exact), r),
    ensures
        exact <==> stored is Some && stored->0.cursor == save.cursor && stored->0.epoch
            == save.epoch,
        exact ==> !final(handle).replay_from_zero,
        !exact ==> *final(handle) == *old(handle),
        r is Stop <==> !exact,
        r is Cleared <==> exact && !was_overtaken(*save, *old(later)),
        r is SaveZero <==> exact && was_overtaken(*save, *old(later)),
        r is SaveZero ==> final(later).replay_from_zero && r->SaveZero_epoch == save.epoch,
        !(r is SaveZero) ==> *final(later) == *old(later),
        *final(handle) == (ChatDocHandle { replay_from_zero: final(handle).replay_from_zero, ..*old(handle) }),
        *final(later) == (ChatDocHandle { replay_from_zero: final(later).replay_from_zero, ..*old(later) }),
{
}

// ---------------------------------------------------------------------------
// What waits
// ---------------------------------------------------------------------------

/// What waits for a chat is handed out in the order in which it came, with what was put
/// first before it.
pub proof fn what_waits_keeps_its_order(
    pending: &mut PendingUpdates,
    behind: &mut PendingUpdates,
    taken: &mut PendingUpdates,
    chat: &str,
    update: Vec<u8>,
    first: Vec<u8>,
    all: Vec<Vec<u8>>,
    other: Seq<char>,
)
    requires
        old(pending).wf(),
        !old(pending).purged.has(chat@),
        other != chat@,
        call_ensures(PendingUpdates::buffer_chat2_update, (pending, chat, update), ()),
        *old(behind) == *final(pending),
        call_ensures(PendingUpdates::prepend_chat2_update, (behind, chat, first), ()),
        *old(taken) == *final(behind),
        call_ensures(PendingUpdates::take, (taken, chat), all),
    ensures
        all@ == seq![first] + old(pending).queue(chat@) + seq![update],
        final(taken).queue(chat@).len() == 0,
        final(taken).queue(other) == old(pending).queue(other),
        final(taken).purged.has(other) == old(pending).purged.has(other),
        !final(taken).purged.has(chat@),
{
    assert(final(taken).same_fences(*old(taken)) && final(behind).same_fences(*old(behind)));
    assert(final(behind).purged.has(chat@) == old(behind).purged.has(chat@));
    assert(final(taken).purged.has(chat@) == old(taken).purged.has(chat@));
    assert(final(pending).purged.has(other) == old(pending).purged.has(other));
    assert(final(behind).purged.has(other) == old(behind).purged.has(other));
    assert(final(taken).purged.has(other) == old(taken).purged.has(other));
    assert(final(pending).same_fences(*old(pending)));
    assert(final(pending).purged.has(chat@) == old(pending).purged.has(chat@));
    assert(all@ =~= seq![first] + old(pending).queue(chat@) + seq![update]);
}

/// A deleted chat keeps nothing, ever again.
pub proof fn a_deleted_chat_keeps_nothing(
    pending: &mut PendingUpdates,
    later: &mut PendingUpdates,
    chat: &str,
    update: Vec<u8>,
    waits: bool,
    gone: bool,
)
    requires
        old(pending).wf(),
        call_ensures(PendingUpdates::purge, (pending, chat), ()),
        *old(later) == *final(pending),
        call_ensures(PendingUpdates::buffer_chat2_update, (later, chat, update), ())
            || call_ensures(PendingUpdates::prepend_chat2_update, (later, chat, update), ()),
        call_ensures(PendingUpdates::has_pending, (&*final(later), chat), waits),
        call_ensures(PendingUpdates::chat_was_purged, (&*final(later), chat), gone),
    ensures
        !waits,
        gone,
{
    assert(final(later).same_fences(*old(later)));
    assert(final(later).purged.has(chat@) == old(later).purged.has(chat@));
}

/// What a client held goes behind what waits, and is to be replayed, unless the chat is
/// deleted.
pub proof fn what_a_client_held_waits_again(
    handle: &mut ChatDocHandle,
    pending: &mut PendingUpdates,
    parked: Vec<Vec<u8>>,
    count: usize,
    waits: bool,
    chat: &str,
)
    requires
        old(pending).wf(),
        chat@ == old(handle).chat_id@,
        call_ensures(carry_back, (handle, pending, parked), count) || call_ensures(
            park_chat2_client,
            (handle, pending, parked),
            count,
        ),
        call_ensures(PendingUpdates::has_pending, (&*final(pending), chat), waits),
    ensures
        count == parked@.len(),
        ({
            let gone = old(handle).purged || old(pending).purged.has(chat@);
            &&& gone ==> !waits && final(handle).replay_from_zero == old(handle).replay_from_zero
            &&& !gone ==> final(pending).queue(chat@) == old(pending).queue(chat@) + parked@
            &&& !gone && parked@.len() > 0 ==> waits && final(handle).replay_from_zero
            &&& !gone && parked@.len() == 0 ==> final(handle).replay_from_zero == old(handle).replay_from_zero
        }),
        final(handle).chat_id == old(handle).chat_id && final(handle).purged == old(handle).purged,
{
}

/// Carrying updates back changes nothing else, neither of the handle nor of another chat.
pub proof fn carrying_back_changes_nothing_else(
    handle: &mut ChatDocHandle,
    pending: &mut PendingUpdates,
    parked: Vec<Vec<u8>>,
    count: usize,
    other: Seq<char>,
)
    requires
        old(pending).wf(),
        other != old(handle).chat_id@,
        call_ensures(carry_back, (handle, pending, parked), count),
    ensures
        *final(handle) == (ChatDocHandle {
            replay_from_zero: final(handle).replay_from_zero,
            ..*old(handle)
        }),
        final(pending).queue(other) == old(pending).queue(other),
{
}

/// A client that is parked is no longer the client of its chat.
pub proof fn a_parked_client_is_detached(
    handle: &mut ChatDocHandle,
    pending: &mut PendingUpdates,
    parked: Vec<Vec<u8>>,
    count: usize,
)
    requires
        old(pending).wf(),
        call_ensures(park_chat2_client, (handle, pending, parked), count),
    ensures
        !final(handle).connected,
        final(handle).sink_generation != old(handle).sink_generation,
        *final(handle) == (ChatDocHandle {
            connected: false,
            sink_generation: final(handle).sink_generation,
            replay_from_zero: final(handle).replay_from_zero,
            ..*old(handle)
        }),
{
}

/// A deleted chat is closed for good: its fence stands, nothing waits for it, its handle
/// takes nothing more, and its client is detached. The document from before is to be
/// deleted too.
pub proof fn a_purge_closes_everything(
    pending: &mut PendingUpdates,
    handle: &mut ChatDocHandle,
    rollback: String,
    chat: &str,
    waits: bool,
    gone: bool,
    other: Seq<char>,
)
    requires
        old(pending).wf(),
        chat@ == old(handle).chat_id@,
        other != chat@,
        call_ensures(purge_chat, (pending, handle), rollback),
        call_ensures(PendingUpdates::has_pending, (&*final(pending), chat), waits),
        call_ensures(PendingUpdates::chat_was_purged, (&*final(pending), chat), gone),
    ensures
        gone && !waits,
        final(handle).purged && final(handle).retired && final(handle).generation_frozen,
        !final(handle).connected && final(handle).sink_generation != old(handle).sink_generation,
        rollback@ == chat@ + ".pre-chat2"@,
        final(pending).queue(other) == old(pending).queue(other),
        final(pending).purged.has(other) == old(pending).purged.has(other),
        *final(handle) == (ChatDocHandle {
            purged: true,
            retired: true,
            generation_frozen: true,
            connected: false,
            sink_generation: final(handle).sink_generation,
            ..*old(handle)
        }),
{
}

// ---------------------------------------------------------------------------
// Rhythm
// ---------------------------------------------------------------------------

/// A chat is purged exactly when its row went away; the commands that waited for
/// ownership are looked at once, when it can be read.
pub proof fn a_row_that_goes_takes_its_chat(
    watch: &mut RegistryWatch,
    ready: bool,
    current: Vec<String>,
    r: RegistryChange,
    chat: Seq<char>,
)
    requires
        call_ensures(RegistryWatch::changed, (watch, ready, current), r),
    ensures
        texts(r.removed@).contains(chat) <==> texts(old(watch).previous@).contains(chat) && !texts(
            current@,
        ).contains(chat),
        final(watch).previous == current,
        r.redrain <==> ready && !old(watch).ownership_ready_seen,
        ready ==> final(watch).ownership_ready_seen,
        !ready ==> final(watch).ownership_ready_seen == old(watch).ownership_ready_seen,
{
    exactly_the_removed_rows_are_purged(texts(old(watch).previous@), texts(current@), chat);
}

/// Without an edge there is no ownership to wait for.
pub proof fn a_watch_starts_from_its_baseline(baseline: Vec<String>, edge: bool, r: RegistryWatch)
    requires
        call_ensures(RegistryWatch::new, (baseline, edge), r),
    ensures
        r.previous == baseline,
        r.ownership_ready_seen <==> !edge,
{
}

/// A document is saved a second after its first change, however many follow, and once.
pub proof fn a_change_is_saved_a_second_later(
    timer: &mut SaveTimer,
    start: u64,
    again: &mut SaveTimer,
    more: u64,
    asked: &mut SaveTimer,
    now: u64,
    save: bool,
)
    requires
        old(timer).deadline is None,
        start + 1_000 <= u64::MAX,
        more + 1_000 <= u64::MAX,
        call_ensures(SaveTimer::changed, (timer, start), ()),
        *old(again) == *final(timer),
        call_ensures(SaveTimer::changed, (again, more), ()),
        *old(asked) == *final(again),
        call_ensures(SaveTimer::due, (asked, now), save),
    ensures
        save <==> now >= start + 1_000,
        save ==> final(asked).deadline is None,
        !save ==> *final(asked) == *old(asked),
{
}

/// The re-check of a chat runs once at a time.
pub proof fn one_recheck_runs_for_a_chat(
    waiting: &mut TextSet,
    chat: &str,
    first: bool,
    again: &mut TextSet,
    second: bool,
    ended: &mut TextSet,
    other: Seq<char>,
)
    requires
        other != chat@,
        call_ensures(arm_attachment_wait, (waiting, chat), first),
        *old(again) == *final(waiting),
        call_ensures(arm_attachment_wait, (again, chat), second),
        *old(ended) == *final(again),
        call_ensures(disarm_attachment_wait, (ended, chat), ()),
    ensures
        first <==> !old(waiting).has(chat@),
        !second,
        !final(ended).has(chat@),
        final(ended).has(other) == old(waiting).has(other),
{
    assert(final(waiting).has(other) == old(waiting).has(other));
    assert(final(again).has(other) == old(again).has(other));
}

/// What a client that was taken down held goes behind what waits, in its order, unless the
/// chat is deleted; then nothing waits.
pub proof fn parked_updates_go_behind(
    pending: &mut PendingUpdates,
    chat_id: &str,
    parked: Vec<Vec<u8>>,
    replay: bool,
    gone: bool,
    other: Seq<char>,
)
    requires
        old(pending).wf(),
        other != chat_id@,
        call_ensures(PendingUpdates::chat_was_purged, (&*old(pending), chat_id), gone),
        call_ensures(PendingUpdates::carry_parked_updates, (pending, chat_id, parked), replay),
    ensures
        replay <==> parked@.len() > 0 && !gone,
        !gone ==> final(pending).queue(chat_id@) == old(pending).queue(chat_id@) + parked@,
        gone ==> final(pending).queue(chat_id@).len() == 0,
        final(pending).queue(other) == old(pending).queue(other),
{
}

/// An import that fails says at which step it did; one that succeeds is handed on.
pub proof fn a_failed_import_names_its_step<T>(
    import: Result<T, String>,
    opened: Result<T, EngineError>,
    target: Result<T, EngineError>,
    source: Result<T, EngineError>,
)
    requires
        call_ensures(snapshot_imported::<T>, (import,), opened),
        call_ensures(target_imported::<T>, (import,), target),
        call_ensures(source_merged::<T>, (import,), source),
    ensures
        import is Ok ==> opened == Ok::<T, EngineError>(import->Ok_0) && target == opened && source
            == opened,
        import is Err ==> {
            &&& opened is Err && opened->Err_0.text() == "snapshot import failed: "@
                + import->Err_0@
            &&& target is Err && target->Err_0.text() == "target snapshot import failed: "@
                + import->Err_0@
            &&& source is Err && source->Err_0.text() == "source tail merge failed: "@
                + import->Err_0@
        },
{
}

} // verus!
