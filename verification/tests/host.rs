//! Chat documents on their host: rooms, snapshots, commands and deliveries.

use base64::Engine as _;
use zeron_core::chat::sink::{EngineChatSink, SaveCursor};
use zeron_core::chat::transport::SyncError;
use zeron_core::host::backoff::Backoff;
use zeron_core::host::checkpoint::{
    bootstrap_look, chat2_maintenance, checkpoint_posted, spawn_chat2_checkpoint, wants_bootstrap,
    BootstrapLook, CheckpointUpload, Maintenance, UploadLook, UploadOutcome,
};
use zeron_core::host::commands::{
    command_transfers, missing_attachments, pending_refs, revives, CommandDisposition, CommandOrigin,
    RunRequest, SessionCommandEntry, SessionCommandPayload, SessionCommandStatus, UserInputAnswer,
    WorktreeSpec,
};
use zeron_core::host::connectivity::{
    compute_connectivity, sync_statuses, ConnectivityState, DegradeGrace, GraceKey,
    ReconnectState, Samples, DEGRADE_GRACE_MS,
};
use zeron_core::host::delivery::{
    attachment_committed, bytes_missing, chunk_params, chunk_pushed, commit_params, drops_link,
    link_failure, may_push, no_link, relay_command, relay_params, rows_flushed, upload_chunks,
    AfterPush, AfterRelay, CallOutcome, Escort, EscortStep, Transfer, TransferError,
};
use zeron_core::host::doc_host::{DocHost, DocHostConfig, RelayClaim};
use zeron_core::host::drain::{
    awaiting_attachments, outcome_of, owes_work, relayed_done, relayed_recorded, swept_outcome,
    DrainGate, DrainPass, DrainStep, RelayStep,
};
use zeron_core::host::edge::{
    blob_fetched, fetch_tool_blob, room_path, upload_tool_sidecar, BlobReply, EdgeConfig,
};
use zeron_core::host::execute::{
    answered, begin_execution, canonical_write, handed_over, harness_for_request,
    materialize_worktree, plan_run, prewrite, request_from_chat_row, resolve_prompt_attachments, resolve_request_attachments,
    respond_input_prompt, steered, take_worktree, EntryInputs, InputPart, SteerOutcome, TurnPlan,
    UserInputQuestion, WorktreeStep,
};
use zeron_core::host::handle::{
    recovery_part_id, ChatDocHandle, ClientInstall, DocError, EntryHead, InstallPublish,
    InstallRound, LocalUpdateRoute, MessageRole, MessageStatus, MirrorUpdate,
};
use zeron_core::host::join::{
    host_duty, AfterDial, DialOutcome, HostDuty, JoinedStep, RoomJoin, RoomNews, WaitEnd,
};
use zeron_core::host::lifecycle::{
    arm_attachment_wait, carry_back, disarm_attachment_wait, park_chat2_client, purge_chat,
    RegistryWatch, SaveTimer,
};
use zeron_core::host::lru::{
    begin_eviction, evicted, is_over_budget, DocUse, EvictionPass, EvictionStep,
};
use zeron_core::host::maps::{TextMap, TextSet};
use zeron_core::host::pending::PendingUpdates;
use zeron_core::host::retry::{reissue, superseded_by_retry};
use zeron_core::host::snapshots::{
    begin_replay_clear, begin_save, open_plan, persist_cutover_snapshot, ready_handle,
    snapshot_saved, ClientStats, OpenStep, PublishHandle, ReplaySaved, ReplayVerified,
    SnapshotPlan, StoredCursor,
};
use zeron_core::auth::types::error;
use zeron_core::json::Json;
use zeron_core::rows::{Chat, ChatConfig, SandboxLevel};

fn host() -> DocHost {
    DocHost::new(DocHostConfig {
        device_id: "dev-a".into(),
        user_id: "alice".into(),
        default_harness: "mock".into(),
        edge: None,
    })
}

/// A handle that is open, in the room generation of every dialed room.
fn open_handle(chat: &str) -> ChatDocHandle {
    let mut handle = ChatDocHandle::new(chat.into(), "dev-a".into(), 3, 0, false, 0);
    handle.generation_frozen = false;
    handle
}

fn stats_at(cursor: u64) -> ClientStats {
    ClientStats {
        connected: true,
        pending_pushes: 0,
        rejected: 0,
        cursor,
        server_known: true,
        checkpoint_size: 0,
        row_bytes: 0,
        row_count: 0,
    }
}

fn queue_of(pending: &mut PendingUpdates, chat: &str) -> Vec<Vec<u8>> {
    pending.take(chat)
}

// -- degradation ------------------------------------------------------------

#[test]
fn blips_shorter_than_the_grace_never_report() {
    let mut g = DegradeGrace::new();
    let t0: u64 = 1_000_000;
    // A 300ms room join: degraded at t0, healthy again shortly after.
    assert!(!g.degraded(GraceKey::Chat("c1"), true, t0));
    assert!(!g.degraded(GraceKey::Chat("c1"), true, t0 + 300));
    assert!(!g.degraded(GraceKey::Chat("c1"), false, t0 + 600));
    // The recovery cleared the timer — a fresh blip starts from zero.
    assert!(!g.degraded(GraceKey::Chat("c1"), true, t0 + 10_000));
}

#[test]
fn persistent_degradation_reports_after_the_grace_and_clears_instantly() {
    let mut g = DegradeGrace::new();
    let t0: u64 = 1_000_000;
    assert!(!g.degraded(GraceKey::Registry, true, t0));
    assert!(!g.degraded(GraceKey::Registry, true, t0 + DEGRADE_GRACE_MS / 2));
    assert!(g.degraded(GraceKey::Registry, true, t0 + DEGRADE_GRACE_MS));
    assert!(g.degraded(GraceKey::Registry, true, t0 + DEGRADE_GRACE_MS * 3));
    // Hide-fast: one healthy sample reports Connected immediately.
    assert!(!g.degraded(GraceKey::Registry, false, t0 + DEGRADE_GRACE_MS * 4));
}

#[test]
fn sources_are_independent_and_closed_chats_are_dropped() {
    let mut g = DegradeGrace::new();
    let t0: u64 = 1_000_000;
    assert!(!g.degraded(GraceKey::Chat("gone"), true, t0));
    assert!(!g.degraded(GraceKey::OsPath, true, t0));
    // The chat's doc closes; its timer must not leak.
    g.retain_chats(&vec![]);
    assert!(g.chats.entries.is_empty());
    // OsPath kept its own timer through the retain.
    assert!(g.degraded(GraceKey::OsPath, true, t0 + DEGRADE_GRACE_MS));
}

#[test]
fn connectivity_prefers_the_path_over_the_registry_over_the_rooms() {
    let mut grace = DegradeGrace::new();
    let sample = |path_offline: bool, registry_connected: bool| Samples {
        edge_expected: true,
        statuses: vec![("c1".into(), None), ("c2".into(), Some(stats_at(1)))],
        reconnect: Some(ReconnectState { retry_at_ms: 99, last_failure: Some("dns".into()) }),
        registry_connected,
        path_offline,
    };
    let first = compute_connectivity(&mut grace, sample(false, false), 0);
    assert_eq!(first.state, ConnectivityState::Connected);
    assert!(first.chats.iter().all(|c| c.connected));
    let later = compute_connectivity(&mut grace, sample(false, false), 4_000);
    assert_eq!(later.state, ConnectivityState::Reconnecting);
    assert_eq!(later.retry_at_ms, 99);
    assert_eq!(later.last_failure.as_deref(), Some("dns"));
    assert!(!later.chats[0].connected);
    assert!(later.chats[1].connected);
    compute_connectivity(&mut grace, sample(true, false), 5_000);
    let offline = compute_connectivity(&mut grace, sample(true, false), 9_000);
    assert_eq!(offline.state, ConnectivityState::Offline);
    assert_eq!(offline.retry_at_ms, 0);
    let back = compute_connectivity(&mut grace, sample(false, true), 9_001);
    assert_eq!(back.state, ConnectivityState::Connected);
    assert_eq!(back.last_failure, None);

    let local = Samples { edge_expected: false, ..sample(true, false) };
    let disabled = compute_connectivity(&mut grace, local, 99_000);
    assert_eq!(disabled.state, ConnectivityState::Disabled);
    assert!(disabled.chats.is_empty());

    let rows = sync_statuses(vec![("b".into(), None), ("a".into(), Some(stats_at(2)))]);
    let ids: Vec<&str> = rows.iter().map(|row| row.0.as_str()).collect();
    assert_eq!(ids, ["a", "b"]);
}

// -- local updates ----------------------------------------------------------

#[test]
fn first_contact_full_update_prepends_without_dropping_carry_over_deltas() {
    let mut pending = PendingUpdates::new();
    pending.buffer_chat2_update("handoff-chat", vec![1, 2]);
    pending.buffer_chat2_update("handoff-chat", vec![3, 4]);

    pending.prepend_chat2_update("handoff-chat", vec![9, 9]);

    assert_eq!(
        queue_of(&mut pending, "handoff-chat"),
        vec![vec![9, 9], vec![1, 2], vec![3, 4]],
        "full state is first, while individually sendable deltas survive as a suffix"
    );
}

#[test]
fn detached_old_sink_cannot_overwrite_newer_epoch_snapshot() {
    let mut handle = open_handle("late-sink");
    handle.room_gen = 2;
    let mut sink =
        EngineChatSink::new_with_lifecycle("late-sink".into(), 2, 7, 2, &handle.lifecycle());
    assert_eq!(
        sink.advance_cursor(&handle.lifecycle(), true, 8),
        Some(SaveCursor { cursor: 8, epoch: 2 })
    );

    // A replacement takes the chat over, at cursor zero in the next epoch.
    handle.generation_frozen = true;
    handle.detach_client();
    let mut stored = StoredCursor { cursor: 0, epoch: 3 };
    handle.generation_frozen = false;

    // A detached HTTP task may finish after the replacement is live. Its captured
    // generation must make both cursor and bytes writes inert.
    let late = sink.advance_cursor(&handle.lifecycle(), true, 999);
    assert_eq!(late, None);
    if let Some(save) = late {
        stored = StoredCursor { cursor: save.cursor, epoch: save.epoch };
    }
    assert_eq!((stored.cursor, stored.epoch), (0, 3));
    assert_eq!(sink.cursor, 8);
    assert_eq!(
        persist_cutover_snapshot(&handle, 2, Some(stored)),
        SnapshotPlan::KeepNewer { rollback: None }
    );
}

#[test]
fn cursor_nonzero_disconnect_persists_full_replay_for_same_generation_restart() {
    let stored = StoredCursor { cursor: 41, epoch: 2 };
    let plan = open_plan(Some(stored));
    assert_eq!((plan.cursor, plan.epoch, plan.stamp), (0, 2, false));

    let mut pending = PendingUpdates::new();
    let mut handle = ChatDocHandle::new("disconnect-replay".into(), "dev-a".into(), 3, 0, false, 0);
    assert_eq!(handle.checkpoint.reason, "unspecified");
    ready_handle(&mut handle, &mut pending, true, plan.cursor, Some(vec![7]));
    assert!(handle.replay_from_zero && handle.local_update_tracking);
    handle.connected = true;
    handle.pre_commit();
    assert_eq!(handle.route_local_update(), LocalUpdateRoute::Client);
    handle.callback_done(true);
    assert_eq!(handle.local_callbacks_pending, 0);

    assert_eq!(park_chat2_client(&mut handle, &mut pending, vec![vec![8]]), 1);
    assert!(begin_save(&mut handle, &pending));
    let save = persist_cutover_snapshot(&handle, handle.room_gen, Some(stored));
    assert_eq!(save, SnapshotPlan::SaveAtZero { epoch: 2, cutover: false });
    snapshot_saved(&mut handle, &save).expect("saved");

    // The next process starts at cursor zero and queues the complete document.
    let plan = open_plan(Some(StoredCursor { cursor: 0, epoch: 2 }));
    let mut reopened = ChatDocHandle::new("disconnect-replay".into(), "dev-a".into(), 3, 0, false, 0);
    let mut fresh = PendingUpdates::new();
    ready_handle(&mut reopened, &mut fresh, true, plan.cursor, Some(vec![1, 2, 3]));
    assert_eq!(queue_of(&mut fresh, "disconnect-replay"), vec![vec![1, 2, 3]]);
}

fn replaying(chat: &str) -> ChatDocHandle {
    let mut handle = open_handle(chat);
    handle.replay_from_zero = true;
    handle
}

#[test]
fn replay_clear_persists_the_exact_lower_cursor_before_clearing() {
    let mut handle = replaying("reset-clear");
    let clear = begin_replay_clear(&handle, Some(stats_at(5)), false).expect("may end");
    let save = clear
        .durable_read(&handle, Some(StoredCursor { cursor: 41, epoch: 3 }))
        .expect("same generation");
    assert_eq!((save.cursor, save.epoch), (5, 3));
    assert_eq!(save.saved(&mut handle, 100), ReplaySaved::Verify);
    let stored = Some(StoredCursor { cursor: 5, epoch: 3 });
    let exact = save.verified(&mut handle, stored);
    assert!(exact);
    assert_eq!(save.recheck(&mut handle, exact), ReplayVerified::Cleared);
    assert!(!handle.replay_from_zero);
    // A later ordinary save keeps the stored cursor and epoch.
    assert_eq!(persist_cutover_snapshot(&handle, 3, stored), SnapshotPlan::Save);
}

#[test]
fn checkpoint_only_replay_clear_preserves_the_sink_owned_epoch() {
    let mut handle = replaying("checkpoint-epoch");
    handle.checkpointed_rejections = u64::MAX;
    let mut stats = stats_at(5);
    stats.rejected = 3;
    let clear = begin_replay_clear(&handle, Some(stats), false).expect("covered");
    let save = clear
        .durable_read(&handle, Some(StoredCursor { cursor: 0, epoch: 2 }))
        .expect("same lineage");
    assert_eq!((save.cursor, save.epoch), (5, 2));
    assert_eq!(save.saved(&mut handle, 1), ReplaySaved::Verify);
    let exact = save.verified(&mut handle, Some(StoredCursor { cursor: 5, epoch: 2 }));
    assert_eq!(save.recheck(&mut handle, exact), ReplayVerified::Cleared);
    assert!(!handle.replay_from_zero);
    assert_eq!(
        persist_cutover_snapshot(&handle, 3, Some(StoredCursor { cursor: 5, epoch: 2 })),
        SnapshotPlan::Save
    );
}

#[test]
fn replay_clear_never_overwrites_a_newer_snapshot_epoch() {
    let handle = replaying("newer-clear");
    let clear = begin_replay_clear(&handle, Some(stats_at(5)), false).expect("may end");
    let newer = Some(StoredCursor { cursor: 9, epoch: handle.room_gen + 1 });
    assert!(clear.durable_read(&handle, newer).is_none());
    assert!(handle.replay_from_zero);
    assert_eq!(
        persist_cutover_snapshot(&handle, handle.room_gen, newer),
        SnapshotPlan::KeepNewer { rollback: None }
    );
}

#[test]
fn a_replay_goes_on_while_anything_is_open() {
    let handle = replaying("c");
    let mut pushing = stats_at(5);
    pushing.pending_pushes = 1;
    let mut rejected = stats_at(5);
    rejected.rejected = 1;
    for stats in [None, Some(pushing), Some(rejected), Some(stats_at(0))] {
        assert!(begin_replay_clear(&handle, stats, false).is_none());
    }
    assert!(begin_replay_clear(&handle, Some(stats_at(5)), true).is_none());
    let mut busy = replaying("c");
    busy.local_callbacks_pending = 1;
    assert!(begin_replay_clear(&busy, Some(stats_at(5)), false).is_none());
    let done = open_handle("c");
    assert!(begin_replay_clear(&done, Some(stats_at(5)), false).is_none());
}

#[test]
fn local_callback_dirty_mark_cannot_be_overwritten_while_waiting_for_chat_slot() {
    let mut handle = replaying("replay-fence");
    handle.local_update_tracking = true;
    let clear = begin_replay_clear(&handle, Some(stats_at(5)), false).expect("may end");
    let save = clear
        .durable_read(&handle, Some(StoredCursor { cursor: 5, epoch: 2 }))
        .expect("same lineage");
    // A commit becomes visible after the snapshot was exported.
    handle.pre_commit();
    assert_eq!(save.saved(&mut handle, 10), ReplaySaved::SaveZero { epoch: 2 });
    assert!(handle.replay_from_zero);

    // One that comes around the moment the mark is taken off sets it again.
    handle.callback_done(true);
    let clear = begin_replay_clear(&handle, Some(stats_at(5)), false).expect("may end");
    let save = clear
        .durable_read(&handle, Some(StoredCursor { cursor: 5, epoch: 2 }))
        .expect("same lineage");
    assert_eq!(save.saved(&mut handle, 10), ReplaySaved::Verify);
    let exact = save.verified(&mut handle, Some(StoredCursor { cursor: 5, epoch: 2 }));
    handle.pre_commit();
    assert_eq!(save.recheck(&mut handle, exact), ReplayVerified::SaveZero { epoch: 2 });
    assert!(handle.replay_from_zero);
    assert_eq!(
        persist_cutover_snapshot(&handle, 3, Some(StoredCursor { cursor: 5, epoch: 2 })),
        SnapshotPlan::SaveAtZero { epoch: 2, cutover: false }
    );
}

#[test]
fn frozen_handle_rejects_new_writer_leases() {
    let mut handle = open_handle("writer-freeze");
    assert!(handle.writer_doc().is_ok());
    handle.generation_frozen = true;
    assert_eq!(
        handle.writer_doc(),
        Err(DocError::Schema("chat writer-freeze is frozen for room-generation cutover".into()))
    );
    assert_eq!(handle.route_local_update(), LocalUpdateRoute::Drop);
}

#[test]
fn a_client_is_installed_after_everything_that_waited() {
    let mut handle = open_handle("c");
    let mut pending = PendingUpdates::new();
    pending.buffer_chat2_update("c", vec![1]);
    let mut install = ClientInstall::new(handle.sink_generation);
    match install.begin(&handle, &mut pending) {
        InstallRound::Enqueue(updates) => assert_eq!(updates, vec![vec![1]]),
        other => panic!("unexpected round: {other:?}"),
    }
    pending.buffer_chat2_update("c", vec![2]);
    match install.publish(&mut handle, &mut pending) {
        InstallPublish::Again(late) => assert_eq!(late, vec![vec![2]]),
        other => panic!("unexpected end: {other:?}"),
    }
    assert!(!handle.connected());
    assert!(matches!(install.begin(&handle, &mut pending), InstallRound::Enqueue(u) if u.is_empty()));
    assert!(matches!(
        install.publish(&mut handle, &mut pending),
        InstallPublish::Installed(2)
    ));
    assert!(handle.connected());

    // A client of an older generation, or of a closed handle, is carried back.
    handle.detach_client();
    assert!(matches!(install.publish(&mut handle, &mut pending), InstallPublish::Carry));
    handle.purged = true;
    assert!(matches!(install.begin(&handle, &mut pending), InstallRound::Discard));

    // What a commit could not hand over at once is retried over a fresh installation.
    let mut handle = open_handle("c");
    handle.connected = true;
    assert!(handle.flush_buffered_chat2_updates(&mut pending).is_none());
    pending.buffer_chat2_update("c", vec![3]);
    assert_eq!(
        handle.flush_buffered_chat2_updates(&mut pending),
        Some(ClientInstall { generation: 0, count: 0 })
    );
    assert!(!handle.connected());
}

#[test]
fn checkpoint_request_survives_a_temporarily_empty_client_slot() {
    let mut handle = open_handle("checkpoint-retry");
    assert!(spawn_chat2_checkpoint(&mut handle, true, "busy-regression"));
    assert!(!spawn_chat2_checkpoint(&mut handle, true, "again"));
    assert_eq!(handle.checkpoint.claim(), Some("again"));
    let mut upload = CheckpointUpload::new();
    // The slot is empty for the moment: look again, and drop nothing.
    assert_eq!(upload.look(Some(&handle), true, None), UploadLook::Busy(25));
    let mut stats = stats_at(12);
    stats.rejected = 2;
    assert_eq!(
        upload.look(Some(&handle), true, Some(stats)),
        UploadLook::Export { seq_covered: 12, rejected_covered: 2 }
    );
    assert!(upload.may_post(true, Some(&handle), true));
    assert!(!upload.may_post(false, Some(&handle), true));
    let edge = EdgeConfig::new("https://edge.example/".into());
    let request = upload.request(&edge, "checkpoint-retry", 12, &[0xfb, 0xff, 0xbf, 1]);
    assert_eq!(
        request.url,
        "https://edge.example/chat3/checkpoint-retry/checkpoint?seqCovered=12&role=host"
    );
    assert_eq!(request.frontier, "+/+/AQ==");
    assert_eq!(upload.answered(None), UploadOutcome::Retry(250));
    assert_eq!(upload.answered(Some(401)), UploadOutcome::Retry(500));
    assert_eq!(upload.failed(), 1_000);
    assert_eq!(upload.answered(Some(403)), UploadOutcome::GiveUp);
    assert_eq!(upload.answered(Some(204)), UploadOutcome::Posted);
    checkpoint_posted(&mut handle, 2);
    checkpoint_posted(&mut handle, 1);
    assert_eq!(handle.checkpointed_rejections, 2);
    assert_eq!(handle.checkpoint.claim(), None);
    assert!(!handle.checkpoint.running);

    handle.retired = true;
    assert!(!spawn_chat2_checkpoint(&mut handle, true, "closed"));
    assert_eq!(upload.look(Some(&handle), true, Some(stats)), UploadLook::Stop);
    assert_eq!(upload.look(None, true, None), UploadLook::Stop);
}

#[test]
fn hosts_keep_their_rooms_in_shape() {
    let handle = open_handle("c");
    let mut stats = stats_at(1);
    stats.row_count = 200;
    stats.row_bytes = 512 * 1024;
    let rest = Maintenance { tail: true, checkpoint: false };
    assert_eq!(chat2_maintenance(&handle, true, Some(stats), true), rest);
    stats.row_count = 201;
    assert!(chat2_maintenance(&handle, true, Some(stats), true).checkpoint);
    stats.row_count = 0;
    stats.row_bytes = 512 * 1024 + 1;
    assert!(chat2_maintenance(&handle, true, Some(stats), true).checkpoint);
    let none = Maintenance { tail: false, checkpoint: false };
    assert_eq!(chat2_maintenance(&handle, false, Some(stats), true), none);
    assert_eq!(chat2_maintenance(&handle, true, None, true), none);

    let mut unknown = stats_at(1);
    unknown.server_known = false;
    assert_eq!(bootstrap_look(Some(&handle), Some(unknown)), BootstrapLook::Wait(3_000));
    assert_eq!(
        bootstrap_look(Some(&handle), Some(stats_at(1))),
        BootstrapLook::Known { no_checkpoint: true }
    );
    assert_eq!(bootstrap_look(None, None), BootstrapLook::Stop);
    assert!(wants_bootstrap(true, 1) && !wants_bootstrap(true, 0) && !wants_bootstrap(false, 1));
}

#[test]
fn registry_row_removal_purges_warm_handle_pending_and_snapshot() {
    let mut host = host();
    let mut watch = RegistryWatch::new(vec!["remote-delete".into(), "kept".into()], false);
    let mut handle = open_handle("remote-delete");
    host.pending.buffer_chat2_update("remote-delete", vec![1, 2, 3]);

    let change = watch.changed(true, vec!["kept".into()]);
    assert!(!change.redrain);
    assert_eq!(change.removed, ["remote-delete"]);
    let generation = handle.sink_generation;
    let rollback = host.purge_chat(&mut handle);
    assert_eq!(rollback, "remote-delete.pre-chat2");
    assert_eq!(handle.sink_generation, generation + 1, "its sinks are retired");
    assert!(host.pending.chat_was_purged("remote-delete"));
    assert!(!host.pending.has_pending("remote-delete"));
    match host.open("remote-delete", None) {
        OpenStep::Refused(e) => assert_eq!(e.message(), "chat remote-delete has been deleted"),
        other => panic!("unexpected step: {other:?}"),
    }
    assert!(matches!(
        host.publish_handle("remote-delete", false),
        PublishHandle::Deleted(_)
    ));
    // Nothing is ever kept for it again, and its document is not saved.
    host.pending.buffer_chat2_update("remote-delete", vec![9]);
    host.pending.prepend_chat2_update("remote-delete", vec![9]);
    assert!(!host.pending.carry_parked_updates("remote-delete", vec![vec![9]]));
    assert!(!host.pending.has_pending("remote-delete"));
    assert!(!begin_save(&mut handle, &host.pending));
    assert_eq!(persist_cutover_snapshot(&handle, 3, None), SnapshotPlan::Deleted);
    assert_eq!(
        snapshot_saved(&mut handle, &SnapshotPlan::Save).expect_err("deleted").message(),
        "chat remote-delete was deleted during snapshot persistence"
    );
}

#[test]
fn ownership_is_looked_at_once_when_it_can_be_read() {
    let mut watch = RegistryWatch::new(vec![], true);
    assert!(!watch.changed(false, vec!["a".into()]).redrain);
    assert!(watch.changed(true, vec!["a".into()]).redrain);
    assert!(!watch.changed(true, vec!["a".into()]).redrain);
}

#[test]
fn restart_after_foreign_chat2_park_requeues_full_doc_into_chat3() {
    // The stored snapshot still carries the old epoch's cursor.
    let plan = open_plan(Some(StoredCursor { cursor: 41, epoch: 2 }));
    assert_eq!(plan.cursor, 0, "chat2 cursor must not cross into chat3");
    assert_eq!(plan.epoch, 2);
    let doc = loro::LoroDoc::new();
    doc.get_map("meta").insert("parked-local", "survives-restart").expect("insert");
    doc.commit();
    let full = doc
        .export(loro::ExportMode::updates(&loro::VersionVector::default()))
        .expect("export");
    let mut pending = PendingUpdates::new();
    let mut handle = ChatDocHandle::new("restart-carry".into(), "dev-a".into(), 3, 0, false, 0);
    ready_handle(&mut handle, &mut pending, true, plan.cursor, Some(full));
    let updates = queue_of(&mut pending, "restart-carry");
    assert!(!updates.is_empty(), "full local update must be requeued");
    let replay = loro::LoroDoc::new();
    for update in updates {
        replay.import(&update).expect("import");
    }
    assert!(matches!(
        replay.get_map("meta").get("parked-local"),
        Some(loro::ValueOrContainer::Value(loro::LoroValue::String(value)))
            if value.to_string() == "survives-restart"
    ));
}

#[test]
fn opening_refuses_handles_that_are_not_ready() {
    let host = host();
    let mut handle = open_handle("c");
    assert!(matches!(host.open("c", None), OpenStep::Load));
    assert!(matches!(host.open("c", Some(&handle)), OpenStep::Cached));
    handle.retired = true;
    match host.open("c", Some(&handle)) {
        OpenStep::Refused(e) => {
            assert_eq!(e.message(), "chat c is retiring its previous room; retry shortly")
        }
        other => panic!("unexpected step: {other:?}"),
    }
    handle.generation_frozen = true;
    match host.open("c", Some(&handle)) {
        OpenStep::Refused(e) => {
            assert_eq!(e.message(), "chat c is still being constructed; retry shortly")
        }
        other => panic!("unexpected step: {other:?}"),
    }
    let plan = open_plan(None);
    assert_eq!((plan.cursor, plan.epoch, plan.stamp), (0, 2, true));
    let plan = open_plan(Some(StoredCursor { cursor: 6, epoch: 3 }));
    assert_eq!((plan.cursor, plan.epoch, plan.stamp), (6, 3, false));
    assert!(matches!(host.publish_handle("c", true), PublishHandle::Existing));
    assert!(matches!(host.publish_handle("c", false), PublishHandle::Insert));
}

#[test]
fn snapshots_move_forward_only() {
    let mut handle = open_handle("c");
    handle.room_gen = 2;
    let at = |epoch| Some(StoredCursor { cursor: 4, epoch });
    assert_eq!(
        persist_cutover_snapshot(&handle, 3, at(2)),
        SnapshotPlan::SaveAtZero { epoch: 3, cutover: true }
    );
    assert_eq!(persist_cutover_snapshot(&handle, 3, at(3)), SnapshotPlan::Merge { epoch: 3 });
    assert_eq!(
        persist_cutover_snapshot(&handle, 2, at(3)),
        SnapshotPlan::KeepNewer { rollback: None }
    );
    handle.room_gen = 1;
    assert_eq!(
        persist_cutover_snapshot(&handle, 1, at(3)),
        SnapshotPlan::KeepNewer { rollback: Some("c.pre-chat2".into()) }
    );
    assert_eq!(persist_cutover_snapshot(&handle, 1, None), SnapshotPlan::Save);
    let cutover = SnapshotPlan::SaveAtZero { epoch: 3, cutover: true };
    snapshot_saved(&mut handle, &cutover).expect("saved");
    assert!(handle.replay_from_zero);
}

// -- the handle -------------------------------------------------------------

#[test]
fn a_message_is_written_once_and_abandoned_ones_are_stamped() {
    let handle = open_handle("c");
    let author = Some("alice".to_string());
    let message = handle
        .write_user_message(&vec!["m0".into()], "m1", "hello", 7, &author)
        .expect("mutable")
        .expect("new");
    assert_eq!((message.id.as_str(), message.text.as_str()), ("m1", "hello"));
    assert_eq!(message.created_at, 7);
    assert_eq!(message.device_id, "dev-a");
    assert_eq!(message.user_id, author);
    assert_eq!(handle.write_user_message(&vec!["m1".into()], "m1", "x", 8, &None), Ok(None));

    let entry = |id: &str, role, status, device: &str| EntryHead {
        id: id.into(),
        role,
        status,
        device_id: device.into(),
        created_at: 3,
    };
    let entries = vec![
        entry("a", MessageRole::Assistant, Some(MessageStatus::Streaming), "dev-a"),
        entry("b", MessageRole::Assistant, Some(MessageStatus::Streaming), "dev-b"),
        entry("c", MessageRole::User, Some(MessageStatus::Streaming), "dev-a"),
        entry("d", MessageRole::Assistant, Some(MessageStatus::Complete), "dev-a"),
        entry("e", MessageRole::Assistant, None, "dev-a"),
    ];
    assert_eq!(handle.mark_abandoned_streams(&entries), Ok(vec![("a".to_string(), 3)]));
    let mut retired = open_handle("c");
    retired.retired = true;
    let closed = DocError::Schema("chat c is frozen for room-generation cutover".into());
    assert_eq!(retired.mark_abandoned_streams(&entries).as_ref(), Err(&closed));
    assert_eq!(
        retired.write_user_message(&vec![], "m2", "x", 8, &None).err().as_ref(),
        Some(&closed)
    );
    assert_eq!(recovery_part_id("a"), "a-recovery");
}

#[test]
fn an_unwatched_mirror_is_rebuilt_when_someone_attaches() {
    let mut handle = open_handle("c");
    assert!(handle.watch_messages(5));
    assert!(!handle.watch_messages(6));
    assert_eq!(handle.publish_messages_if_watched(1), MirrorUpdate::Publish);
    assert_eq!(handle.publish_messages_if_watched(0), MirrorUpdate::Clear);
    assert!(handle.watch_messages(7));
    assert_eq!(handle.last_access, 7);
    handle.touch(9);
    assert_eq!(handle.last_access, 9);
    handle.snapshot_bytes = 1_000_000;
    assert_eq!(handle.resident_estimate(), 6_000_000);
    handle.snapshot_bytes = 1;
    assert_eq!(handle.resident_estimate(), 524_288);
}

// -- eviction ---------------------------------------------------------------

#[test]
fn eviction_takes_the_oldest_that_nobody_uses() {
    let mut pass = EvictionPass::new(vec![
        (90_000, "young".into(), ()),
        (20, "b".into(), ()),
        (10, "z".into(), ()),
        (20, "a".into(), ()),
    ]);
    let mut seen = Vec::new();
    while let EvictionStep::Consider(chat) = pass.step(100_000, true) {
        seen.push(chat);
    }
    assert_eq!(seen, ["z", "a", "b"]);
    let mut pass = EvictionPass::new(vec![(0, "a".into(), ())]);
    assert!(matches!(pass.step(100_000, false), EvictionStep::Done));

    assert!(is_over_budget(&vec![0; 13], usize::MAX));
    assert!(!is_over_budget(&vec![0; 12], 12 * 524_288));
    assert!(is_over_budget(&vec![0; 12], 12 * 524_288 - 1));

    let idle = || DocUse {
        draining: false,
        watchers: 0,
        writers: 0,
        is_host: true,
        owes_work: Some(false),
    };
    let mut handle = open_handle("c");
    for usage in [
        DocUse { draining: true, ..idle() },
        DocUse { watchers: 1, ..idle() },
        DocUse { writers: 1, ..idle() },
        DocUse { owes_work: Some(true), ..idle() },
        DocUse { owes_work: None, ..idle() },
    ] {
        assert!(!begin_eviction(&mut handle, true, &usage));
    }
    assert!(!begin_eviction(&mut handle, false, &idle()));
    assert!(!handle.replay_from_zero);
    assert!(begin_eviction(&mut handle, true, &idle()));
    assert!(handle.replay_from_zero);
    assert!(!evicted(&mut handle, false));
    assert!(!handle.retired);
    assert!(evicted(&mut handle, true));
    assert!(handle.retired && handle.sink_generation == 1);
}

// -- the edge ---------------------------------------------------------------

#[test]
fn rooms_are_dialed_with_the_token_of_the_moment() {
    let edge = EdgeConfig::new("https://edge.example//".into());
    assert_eq!(
        edge.room_url("/chat3/c/ws", Some("t1")).expect("signed in"),
        "wss://edge.example/chat3/c/ws?token=t1"
    );
    let edge = edge.with_device("dev-a".into());
    assert_eq!(
        edge.room_url_with(&room_path("c"), "&role=host", Some("t2")).expect("signed in"),
        "wss://edge.example/chat3/c/ws?token=t2&device=dev-a&role=host"
    );
    assert_eq!(
        edge.room_url("/x", None),
        Err(SyncError::Auth("no access token (signed out)".into()))
    );
    assert_eq!(edge.health_url(), "https://edge.example/health");
    assert_eq!(edge.tail_url("c"), "https://edge.example/chat3/c/tail");
}

#[test]
fn a_join_waits_longer_and_longer_until_good_news() {
    let mut join = RoomJoin::new(4, 1_000, 3_000);
    assert_eq!(join.dialed(DialOutcome::Failed, true, true), AfterDial::Wait(1_000));
    join.waited(WaitEnd::Elapsed);
    assert_eq!(join.dialed(DialOutcome::TimedOut, true, true), AfterDial::Wait(2_000));
    join.waited(WaitEnd::Elapsed);
    assert_eq!(join.dialed(DialOutcome::Failed, true, true), AfterDial::Wait(3_000));
    join.waited(WaitEnd::Online);
    assert_eq!(join.dialed(DialOutcome::Failed, true, true), AfterDial::Wait(1_000));
    assert_eq!(
        join.dialed(DialOutcome::Connected, true, true),
        AfterDial::Install { generation: 4 }
    );
    assert_eq!(join.dialed(DialOutcome::Connected, false, true), AfterDial::Stop);
    assert_eq!(join.dialed(DialOutcome::Connected, true, false), AfterDial::Stop);
    let edge = EdgeConfig::new("http://e".into());
    assert_eq!(
        join.dial_url(&edge, "c", true, Some("t")).expect("signed in"),
        "ws://e/chat3/c/ws?token=t&role=host"
    );
    assert_eq!(join.joined_news(RoomNews::Applied), JoinedStep::ClearReplay);
    assert_eq!(join.joined_news(RoomNews::Lagged), JoinedStep::Nothing);
    assert_eq!(join.joined_news(RoomNews::Closed), JoinedStep::Stop);
    assert_eq!(join.token_changed(false), JoinedStep::Park);
    assert_eq!(join.token_changed(true), JoinedStep::Nothing);
    assert_eq!(host_duty(RoomNews::ServerReset, true), HostDuty::Checkpoint("server-reset"));
    assert_eq!(host_duty(RoomNews::PushRejected, true), HostDuty::Checkpoint("push-rejected"));
    assert_eq!(host_duty(RoomNews::PushRejected, false), HostDuty::Stop);
    assert_eq!(host_duty(RoomNews::Other, true), HostDuty::Nothing);
}

#[test]
fn waits_double_up_to_their_cap() {
    let mut wait = Backoff::new(250, 30_000);
    let waits: Vec<u64> = (0..9).map(|_| wait.next_wait()).collect();
    assert_eq!(waits, [250, 500, 1_000, 2_000, 4_000, 8_000, 16_000, 30_000, 30_000]);
    wait.reset();
    assert_eq!(wait.next_wait(), 250);
}

#[test]
fn only_well_formed_blob_references_are_fetched() {
    let edge = Some(EdgeConfig::new("https://e/".into()));
    assert_eq!(
        fetch_tool_blob(&edge, true, "chat-1/tool:9#a").expect("address"),
        "https://e/blob/chat-1/tool%3A9%23a"
    );
    for bad in ["", "chat", "/part", "chat/", "ch.at/part", "chat/a/b", "chat/é", "chat/a b"] {
        let failure = fetch_tool_blob(&edge, true, bad).expect_err("bad reference");
        assert_eq!(failure.message(), format!("bad blob ref: {bad}"));
    }
    let long = format!("{}/p", "c".repeat(129));
    assert!(fetch_tool_blob(&edge, true, &long).is_err());
    let longest = format!("{}/{}", "c".repeat(128), "p".repeat(200));
    assert!(fetch_tool_blob(&edge, true, &longest).is_ok());
    assert_eq!(
        fetch_tool_blob(&None, true, "c/p").expect_err("offline").message(),
        "offline: no edge configured"
    );
    assert_eq!(
        fetch_tool_blob(&edge, false, "c/p").expect_err("no token").message(),
        "signed out"
    );
    assert_eq!(blob_fetched(BlobReply::Body("x".into())).expect("body"), "x");
    assert_eq!(
        blob_fetched(BlobReply::Status(404)).expect_err("status").message(),
        "sidecar fetch: HTTP 404"
    );
    assert_eq!(
        blob_fetched(BlobReply::Failed("dns".into())).expect_err("failed").message(),
        "sidecar fetch failed: dns"
    );
    assert_eq!(
        blob_fetched(BlobReply::BodyFailed("eof".into())).expect_err("body").message(),
        "sidecar body read failed: eof"
    );
    let edge = EdgeConfig::new("https://e".into());
    let puts = upload_tool_sidecar(&edge, "c", "p#1", Some("é"), Some(b"{}".to_vec()));
    assert_eq!(puts.len(), 2);
    assert_eq!(puts[0].url, "https://e/blob/c/p%231");
    assert_eq!(puts[0].body, "é".as_bytes());
    assert_eq!(puts[1].url, "https://e/blob/c/p%231.diff");
    assert_eq!(puts[1].content_type, "application/json");
}

// -- commands ---------------------------------------------------------------

fn run_request(prompt: &str) -> RunRequest {
    RunRequest {
        prompt: prompt.into(),
        harness: None,
        model: Some("m".into()),
        reasoning: None,
        model_options: vec![("k".into(), "v".into())],
        cwd: "/work".into(),
        sandbox: SandboxLevel::Named("read-only".into()),
        auto_approve: false,
        attachments: vec![],
        mcp_servers: vec![],
        resume: Some("old".into()),
        worktree: None,
    }
}

fn steer(message_id: Option<&str>) -> SessionCommandPayload {
    SessionCommandPayload::Steer {
        prompt: "go on".into(),
        message_id: message_id.map(str::to_owned),
    }
}

fn entry(id: &str, payload: SessionCommandPayload, status: SessionCommandStatus) -> SessionCommandEntry {
    SessionCommandEntry {
        id: id.into(),
        payload,
        issued_by: "dev-b".into(),
        issued_at: 100,
        user_id: Some("alice".into()),
        origin: None,
        based_on: None,
        expires_at: None,
        status,
        resolution: None,
    }
}

fn chat_row(device: &str) -> Chat {
    Chat {
        id: "c".into(),
        device_id: device.into(),
        title: None,
        archived: false,
        cwd: Some("/work".into()),
        branch: None,
        checkout_id: None,
        config: None,
        last_message_preview: None,
        last_message_at: None,
        created_at: 0,
        harness_session_id: None,
        harness_session_cwd: None,
        space_id: None,
        last_seen_at: None,
        room_gen: None,
        user_id: None,
    }
}

#[test]
fn send_lands_a_steer_with_agent_attribution_and_hops() {
    let mut host = host();
    let send = host
        .send_to_session("chat-a", "chat-b", "hello from a", "m1".into())
        .expect("let through");
    let target = open_handle("chat-b");
    let queued = host
        .queue_command_as(
            &target,
            "k1".into(),
            send.payload,
            send.user_id,
            send.origin,
            Some("last".into()),
            1_000,
            500,
        )
        .expect("queued");
    let entry = queued.entry;
    assert_eq!(entry.user_id.as_deref(), Some("agent:chat-a"));
    let origin = entry.origin.as_ref().expect("origin");
    assert_eq!(origin.from_chat_id, "chat-a");
    assert_eq!(origin.hops, 1);
    assert!(matches!(
        entry.payload,
        SessionCommandPayload::Steer { ref prompt, .. } if prompt == "hello from a"
    ));
    assert_eq!(entry.expires_at, Some(1_500));
    assert_eq!(entry.based_on.as_deref(), Some("last"));
    assert_eq!(entry.issued_by, "dev-a");
    assert_eq!(entry.status, SessionCommandStatus::Pending);
}

#[test]
fn self_send_and_empty_message_are_rejected() {
    let mut host = host();
    assert_eq!(
        host.send_to_session("chat-a", "chat-a", "loop", "m".into())
            .expect_err("own session")
            .message(),
        "cannot send to the own session"
    );
    assert_eq!(
        host.send_to_session("chat-a", "chat-b", "   ", "m".into())
            .expect_err("empty")
            .message(),
        "empty message"
    );
}

#[test]
fn hop_limit_breaks_ping_pong() {
    let mut host = host();
    host.limits.turn_origins.insert("chat-a".into(), 3);
    assert!(host.send_to_session("chat-a", "chat-b", "hop 4", "m".into()).is_ok());
    host.limits.turn_origins.insert("chat-a".into(), 4);
    let err = host
        .send_to_session("chat-a", "chat-c", "hop 5", "m".into())
        .expect_err("too deep");
    assert!(err.message().contains("too deep"), "{}", err.message());
    host.limits.turn_origins.insert("chat-a".into(), u32::MAX);
    let err = host
        .send_to_session("chat-a", "chat-d", "overflow must reject", "m".into())
        .expect_err("too deep");
    assert!(err.message().contains("too deep"), "{}", err.message());
}

#[test]
fn per_turn_send_budget_is_enforced_and_reset_on_new_turn() {
    let mut host = host();
    for i in 0..8 {
        host.send_to_session("chat-a", "chat-b", &format!("m{i}"), "m".into())
            .expect("within budget");
    }
    let err = host
        .send_to_session("chat-a", "chat-b", "one too many", "m".into())
        .expect_err("budget");
    assert!(err.message().contains("budget"), "{}", err.message());
    // A fresh turn records its origin and clears the budget.
    let turn = entry("k", steer(None), SessionCommandStatus::Pending);
    begin_execution(&mut host.limits, "chat-a", &turn, Ok(())).expect("written");
    assert!(host.send_to_session("chat-a", "chat-b", "next turn", "m".into()).is_ok());
}

#[test]
fn a_turn_is_as_deep_as_the_send_that_started_it() {
    let mut host = host();
    let mut turn = entry("k", steer(Some("m")), SessionCommandStatus::Pending);
    turn.origin = Some(CommandOrigin { from_chat_id: "x".into(), hops: 2 });
    assert!(begin_execution(&mut host.limits, "c", &turn, Err(error("no"))).is_err());
    assert!(host.limits.turn_origins.get("c").is_none());
    begin_execution(&mut host.limits, "c", &turn, Ok(())).expect("written");
    let send = host.send_to_session("c", "d", "hi", "m2".into()).expect("let through");
    assert_eq!(send.origin.expect("origin").hops, 3);
}

#[test]
fn commands_of_the_user_carry_their_name_and_revive_archived_chats() {
    let host = host();
    let handle = open_handle("c");
    let queued = host
        .queue_command(&handle, "k".into(), SessionCommandPayload::Interrupt, None, 5, 10)
        .expect("queued");
    assert_eq!(queued.entry.user_id.as_deref(), Some("alice"));
    assert!(queued.transfers.is_empty());
    let mut frozen = open_handle("c");
    frozen.generation_frozen = true;
    let refused = host
        .queue_command(&frozen, "k".into(), SessionCommandPayload::Interrupt, None, 5, 10)
        .expect_err("frozen");
    assert_eq!(
        refused,
        DocError::Schema("chat c is frozen for room-generation cutover".into())
    );
    let nameless = DocHost::new(DocHostConfig {
        device_id: "dev-a".into(),
        user_id: String::new(),
        default_harness: "mock".into(),
        edge: Some(EdgeConfig::new("https://e/".into())),
    });
    let transfers = command_transfers(&vec![Some(("u1".into(), "f.png".into())), None]);
    let queued = nameless
        .queue_command_with_transfers(&handle, "k".into(), steer(None), transfers, None, 5, 10)
        .expect("queued");
    assert_eq!(queued.entry.user_id, None);
    assert_eq!(queued.transfers[0].file_name, "f.png");

    let mut archived = chat_row("dev-b");
    archived.archived = true;
    let row = Some(archived);
    assert!(revives(&steer(None), &row));
    assert!(!revives(&SessionCommandPayload::Interrupt, &row));
    assert!(!revives(&steer(None), &Some(chat_row("dev-b"))) && !revives(&steer(None), &None));
    let nudge = nameless.nudge_remote_host(&row, "c").expect("nudged");
    assert_eq!(nudge.url, "https://e/device/dev-b/nudge");
    assert_eq!(nudge.body.to_text(), r#"{"chatId":"c"}"#);
    assert!(nameless.nudge_remote_host(&Some(chat_row("dev-a")), "c").is_none());
    assert!(nameless.nudge_remote_host(&None, "c").is_none());
    assert!(host.nudge_remote_host(&Some(chat_row("dev-b")), "c").is_none());
    assert_eq!(
        nameless.fetch_tool_blob(true, "c/p").expect("address"),
        "https://e/blob/c/p"
    );
    for (host, signed_in, blob_ref, message) in [
        (&nameless, true, "no-slash", "bad blob ref: no-slash"),
        (&host, true, "c/p", "offline: no edge configured"),
        (&nameless, false, "c/p", "signed out"),
    ] {
        let failed = host.fetch_tool_blob(signed_in, blob_ref).expect_err("refused");
        assert_eq!(failed.message(), message);
    }
}

#[test]
fn a_retry_issues_each_lost_message_once() {
    let mut host = host();
    let run = |mid: &str| SessionCommandPayload::Run {
        request: run_request("p"),
        message_id: mid.into(),
    };
    let at = |mut e: SessionCommandEntry, t: i64| {
        e.issued_at = t;
        e
    };
    let commands = vec![
        at(entry("waiting", run("m1"), SessionCommandStatus::Pending), 1),
        at(entry("dead-1", run("m2"), SessionCommandStatus::Rejected), 1),
        at(entry("dead-2", run("m2"), SessionCommandStatus::Expired), 5),
        at(entry("dead-3", steer(Some("m2")), SessionCommandStatus::Rejected), 5),
        at(entry("landed", run("m3"), SessionCommandStatus::Rejected), 9),
        at(entry("crashed", run("m4"), SessionCommandStatus::Pending), 1),
        at(entry("running", run("m5"), SessionCommandStatus::Pending), 1),
        at(entry("lost-but-live", run("m6"), SessionCommandStatus::Rejected), 1),
        at(entry("live", run("m6"), SessionCommandStatus::Pending), 2),
        at(entry("done", run("m7"), SessionCommandStatus::Applied), 2),
        at(entry("stop", SessionCommandPayload::Interrupt, SessionCommandStatus::Rejected), 2),
    ];
    let processed = vec![
        false, true, true, true, true, true, true, true, false, true, true,
    ];
    host.executing.insert("running".into());
    let plan = host.retry_delivery(&commands, &processed, &vec!["m3".into()]);
    assert_eq!(plan.escorts, [0, 8]);
    assert_eq!(plan.reissues, [2, 5]);
    assert_eq!(
        superseded_by_retry(SessionCommandStatus::Pending),
        Some("interrupted before completion — superseded by retry")
    );
    assert_eq!(superseded_by_retry(SessionCommandStatus::Rejected), None);
    let again = reissue(commands[2].clone(), "new".into(), "dev-a", None, 50, 7);
    assert_eq!(again.id, "new");
    assert_eq!(again.user_id.as_deref(), Some("alice"));
    assert_eq!(again.payload.message_id(), Some("m2"));
    assert_eq!((again.issued_at, again.expires_at), (50, Some(57)));
}

#[test]
fn a_pass_takes_commands_in_order_and_records_them_first() {
    let host = host();
    let handle = open_handle("c");
    assert!(host.drain_commands(&handle, true, true, true));
    assert!(!host.drain_commands(&handle, true, true, false));

    let mut executing = TextSet::new();
    let mut pass = DrainPass::new();
    let commands = vec![
        entry("done", SessionCommandPayload::Interrupt, SessionCommandStatus::Applied),
        entry("crashed", SessionCommandPayload::Interrupt, SessionCommandStatus::Pending),
        entry("first", SessionCommandPayload::Interrupt, SessionCommandStatus::Pending),
        entry("second", SessionCommandPayload::Interrupt, SessionCommandStatus::Pending),
    ];
    let processed = vec![true, true, false, false];
    assert_eq!(pass.sweep(&commands, &processed, &executing), [1]);
    assert!(pass.sweep(&commands, &processed, &executing).is_empty());
    assert_eq!(pass.next(&commands, &processed), Some(2));
    let execute = CommandDisposition::Execute;
    assert_eq!(pass.gate(execute, 1, 0, 899_999), DrainGate::Wait);
    assert_eq!(pass.gate(execute, 1, 0, 900_000), DrainGate::Reject);
    assert_eq!(pass.gate(execute, 0, 0, 0), DrainGate::Open);
    assert_eq!(pass.gate(CommandDisposition::Expired, 3, 0, 0), DrainGate::Open);
    assert_eq!(pass.gate(execute, 1, i64::MAX, i64::MIN), DrainGate::Wait);
    assert_eq!(
        DrainGate::Reject.outcome(),
        Some((SessionCommandStatus::Rejected, "attachments never arrived".into()))
    );
    assert_eq!((DrainGate::Wait.outcome(), DrainGate::Open.outcome()), (None, None));
    assert_eq!(
        swept_outcome(),
        (
            SessionCommandStatus::Rejected,
            "interrupted before completion — retry to send again".into()
        )
    );
    assert!(owes_work(&commands, &processed));
    assert!(!owes_work(&commands, &vec![true; commands.len()]));
    let resolved = vec![entry("done", steer(None), SessionCommandStatus::Applied)];
    assert!(!owes_work(&resolved, &vec![false]));
    assert!(!owes_work(&vec![], &vec![]));

    assert!(pass.claim(&mut executing, "first"));
    assert_eq!(pass.recorded(&mut executing, "first", true, execute), DrainStep::Execute);
    assert!(executing.contains("first"));
    // Another road finds it taken.
    assert!(!pass.claim(&mut executing, "first"));
    assert_eq!(pass.next(&commands, &processed), Some(3));
    executing.remove("first");

    assert!(pass.claim(&mut executing, "second"));
    assert_eq!(pass.recorded(&mut executing, "second", false, execute), DrainStep::Halt);
    assert!(!executing.contains("second"));
    let superseded = CommandDisposition::Superseded;
    assert_eq!(
        pass.recorded(&mut executing, "second", true, superseded),
        DrainStep::Resolve(SessionCommandStatus::Superseded)
    );
    assert_eq!(
        pass.recorded(&mut executing, "second", true, CommandDisposition::Skip),
        DrainStep::Leave
    );
    assert_eq!(pass.next(&commands, &processed), None);
    assert_eq!(outcome_of(Ok((SessionCommandStatus::Applied, None))), (SessionCommandStatus::Applied, None));
    assert_eq!(outcome_of(Err(error("boom"))), (SessionCommandStatus::Rejected, Some("boom".into())));
}

#[test]
fn a_forwarded_command_runs_once() {
    let mut host = host();
    let execute = CommandDisposition::Execute;
    assert_eq!(
        host.ingest_relayed_command(1, true, execute, "k").expect_err("missing").message(),
        "attachments not landed yet"
    );
    assert_eq!(
        host.ingest_relayed_command(0, false, execute, "k").expect_err("nobody").message(),
        "executor unavailable"
    );
    assert_eq!(
        host.ingest_relayed_command(0, true, CommandDisposition::Skip, "k").expect("skip"),
        RelayClaim::Duplicate
    );
    assert_eq!(
        host.ingest_relayed_command(0, true, execute, "k").expect("claimed"),
        RelayClaim::Claimed
    );
    assert_eq!(
        host.ingest_relayed_command(0, true, execute, "k").expect("again"),
        RelayClaim::Duplicate
    );
    assert_eq!(relayed_recorded(Ok(true), execute), RelayStep::Execute);
    assert_eq!(relayed_recorded(Ok(false), execute), RelayStep::Answer("duplicate"));
    assert_eq!(
        relayed_recorded(Ok(true), CommandDisposition::Expired),
        RelayStep::Answer("expired")
    );
    assert_eq!(
        relayed_recorded(Ok(true), CommandDisposition::Superseded),
        RelayStep::Answer("superseded")
    );
    assert_eq!(
        relayed_recorded(Err(error("disk")), execute),
        RelayStep::Failed(error("disk"))
    );
    assert_eq!(relayed_done(Ok((SessionCommandStatus::Applied, None))).expect("ok"), "executed");
}

#[test]
fn attachments_are_waited_for_and_resolved() {
    let mut request = run_request("see pending://a and pending://a");
    request.attachments = vec!["pending://a".into(), "/local".into()];
    let run = SessionCommandPayload::Run { request: request.clone(), message_id: "m".into() };
    let refs = pending_refs(&run, &vec![true, false], vec![]);
    assert_eq!(refs, ["pending://a"]);
    assert_eq!(pending_refs(&steer(None), &vec![], vec!["x".into()]), ["x"]);
    assert!(pending_refs(&SessionCommandPayload::Interrupt, &vec![], vec!["x".into()]).is_empty());
    assert_eq!(missing_attachments(refs.clone(), true, &vec![false]), ["pending://a"]);
    assert!(missing_attachments(refs.clone(), true, &vec![true]).is_empty());
    assert!(missing_attachments(refs, false, &vec![false]).is_empty());

    let resolved = resolve_request_attachments(request, vec![Some("/up/a.png".into()), None]);
    assert_eq!(resolved.prompt, "see /up/a.png and /up/a.png");
    assert_eq!(resolved.attachments, ["/up/a.png", "/local"]);
    assert_eq!(
        resolve_prompt_attachments("x r1 r2", &vec![
            ("r1".into(), Some("/1".into())),
            ("r2".into(), None),
        ]),
        "x /1 r2"
    );
    let commands = vec![entry("k", run, SessionCommandStatus::Pending)];
    assert!(awaiting_attachments(&commands, &vec![false], &vec![1]));
    assert!(!awaiting_attachments(&commands, &vec![true], &vec![1]));
    assert!(!awaiting_attachments(&commands, &vec![false], &vec![0]));
    let mut waiting = TextSet::new();
    assert!(arm_attachment_wait(&mut waiting, "c"));
    assert!(!arm_attachment_wait(&mut waiting, "c"));
    disarm_attachment_wait(&mut waiting, "c");
    assert!(arm_attachment_wait(&mut waiting, "c"));
}

// -- execution --------------------------------------------------------------

#[test]
fn messages_are_stamped_with_the_time_of_their_send() {
    let queued = entry("k", steer(Some("m")), SessionCommandStatus::Pending);
    let refs = vec![("go".to_string(), Some("went".to_string()))];
    let write = prewrite(&queued, &refs, 500).expect("written first");
    assert_eq!(write.message_id, "m");
    assert_eq!(write.text, "went on");
    assert_eq!(write.created_at, 100);
    assert_eq!(write.author.as_deref(), Some("alice"));
    assert_eq!(prewrite(&queued, &refs, 50).expect("skew").created_at, 50);
    let mut nobody = queued.clone();
    nobody.user_id = None;
    assert!(prewrite(&nobody, &refs, 500).is_none());
    let write = canonical_write(&nobody, &refs, 500).expect("a message with an id");
    assert_eq!((write.text.as_str(), write.created_at), ("went on", 100));
    assert_eq!(write.author, None);
    let anonymous = entry("k", steer(None), SessionCommandStatus::Pending);
    assert!(prewrite(&anonymous, &refs, 500).is_none());
    assert!(canonical_write(&anonymous, &refs, 500).is_none());
}

#[test]
fn a_run_gets_its_directory_its_agent_and_its_row() {
    let spec = WorktreeSpec { repo_path: "/repo".into(), base: "main".into() };
    assert!(matches!(
        materialize_worktree(&spec, Some("/repo-wt"), Some("/repo"), false),
        WorktreeStep::Reuse(cwd) if cwd == "/repo-wt"
    ));
    assert!(matches!(
        materialize_worktree(&spec, Some("/repo"), Some("/repo"), true),
        WorktreeStep::Create
    ));
    assert!(matches!(
        materialize_worktree(&spec, None, None, false),
        WorktreeStep::Failed(e) if e.message() == "repos engine not wired"
    ));
    let mut request = run_request("p");
    request.worktree = Some(spec);
    assert_eq!(take_worktree(&mut request).expect("spec").base, "main");
    assert!(request.worktree.is_none());

    let config = Some(ChatConfig {
        harness: "codex".into(),
        model: None,
        reasoning: None,
        model_options: vec![],
        sandbox: SandboxLevel::WorkspaceWrite,
    });
    assert_eq!(harness_for_request(&request, &config, "mock"), "codex");
    assert_eq!(harness_for_request(&request, &None, "mock"), "mock");
    request.harness = Some("opencode".into());
    assert_eq!(harness_for_request(&request, &config, "mock"), "opencode");

    let plan = plan_run(request, "m", 9, &None, true, &None, "mock", 20);
    assert_eq!(plan.harness, "opencode");
    assert_eq!(plan.write.created_at, 9);
    let backfill = plan.backfill.expect("row without settings");
    assert_eq!(backfill.harness, "opencode");
    assert_eq!(backfill.model.as_deref(), Some("m"));
    assert_eq!(backfill.model_options, [("k".to_string(), "v".to_string())]);
    assert_eq!(backfill.sandbox, SandboxLevel::Named("read-only".into()));
    let plan = plan_run(run_request("p"), "m", 9, &None, true, &config, "mock", 20);
    assert!(plan.backfill.is_none());
    let plan = plan_run(run_request("p"), "m", 9, &None, false, &None, "mock", 20);
    assert!(plan.backfill.is_none());
}

#[test]
fn a_steer_without_a_run_becomes_the_next_turn() {
    assert!(matches!(
        steered(SteerOutcome::Accepted, "x".into(), None, &None),
        TurnPlan::Applied
    ));
    assert!(matches!(
        steered(SteerOutcome::NotSteerable, "x".into(), None, &None),
        TurnPlan::Rejected("no live run and no prior run config")
    ));
    let mut last = run_request("before");
    last.attachments = vec!["/old.png".into()];
    match steered(SteerOutcome::NotSteerable, "x".into(), Some(last), &None) {
        TurnPlan::Dispatch { request, note } => {
            assert_eq!(note, "queued as new turn");
            assert_eq!(request.prompt, "x");
            assert_eq!(request.cwd, "/work");
            assert!(request.attachments.is_empty());
            assert_eq!(request.resume, None);
        }
        other => panic!("unexpected plan: {other:?}"),
    }
    let row = request_from_chat_row(&Some(chat_row("dev-a")), "y").expect("row");
    assert_eq!(row.cwd, "/work");
    assert_eq!(row.sandbox, SandboxLevel::WorkspaceWrite);
    assert!(request_from_chat_row(&None, "y").is_none());
    assert_eq!(
        handed_over(Ok(()), Some("queued as new turn")).expect("applied"),
        (SessionCommandStatus::Applied, Some("queued as new turn".into()))
    );
    assert!(handed_over(Err(error("no agent")), None).is_err());
}

#[test]
fn an_answer_to_an_open_question_still_works() {
    let question = |id: &str, text: &str| UserInputQuestion {
        id: id.into(),
        question: text.into(),
    };
    let part = |request: &str, resolved: bool, text: &str| InputPart {
        request_id: request.into(),
        questions: vec![question("q1", text), question("q2", "  ")],
        resolved,
    };
    let entries = vec![
        EntryInputs {
            status: Some(MessageStatus::Aborted),
            inputs: vec![part("r1", false, "old")],
        },
        EntryInputs {
            status: Some(MessageStatus::Complete),
            inputs: vec![part("r1", true, "resolved"), part("r1", false, " Which color? ")],
        },
        EntryInputs {
            status: Some(MessageStatus::Streaming),
            inputs: vec![part("r1", false, "live"), part("r9", false, "live")],
        },
    ];
    let answers = vec![
        UserInputAnswer { question_id: "q1".into(), labels: vec!["red".into(), "blue".into()] },
        UserInputAnswer { question_id: "q2".into(), labels: vec!["x".into()] },
        UserInputAnswer { question_id: "q3".into(), labels: vec![] },
    ];
    let expected = "Answering your earlier question:\nWhich color? — red, blue\nx\n";
    match answered(false, &entries, "r1", &answers, Some(run_request("p")), &None) {
        TurnPlan::Dispatch { request, note } => {
            assert_eq!(note, "answered as new turn");
            assert_eq!(request.prompt, expected);
        }
        other => panic!("unexpected plan: {other:?}"),
    }
    assert_eq!(respond_input_prompt(&entries[1].inputs[1].questions, &answers), expected);
    assert!(matches!(
        answered(true, &entries, "r1", &answers, None, &None),
        TurnPlan::Applied
    ));
    assert!(matches!(
        answered(false, &entries, "r1", &answers, None, &None),
        TurnPlan::Rejected("no pending input request and no prior run config")
    ));
    for stale in ["r9", "nope"] {
        assert!(matches!(
            answered(false, &entries, stale, &answers, None, &None),
            TurnPlan::Rejected("no pending input request")
        ));
    }
}

// -- delivery ---------------------------------------------------------------

#[test]
fn an_escort_tries_the_second_road_after_the_grace() {
    let mut escort = Escort::new(1_000);
    assert_eq!(escort.look(1_000, true), EscortStep::Done);
    assert_eq!(escort.look(10_999, false), EscortStep::Poll(1_000));
    assert_eq!(escort.look(11_000, false), EscortStep::Relay);
    assert_eq!(escort.relayed(false, 11_000), AfterRelay::Wait(5_000));
    assert_eq!(escort.relayed(false, 16_000), AfterRelay::Wait(10_000));
    assert_eq!(escort.relayed(true, 26_000), AfterRelay::Delivered);
    assert_eq!(escort.relayed(false, 901_000), AfterRelay::GaveUp);
    assert!(rows_flushed(Some(stats_at(1))));
    let mut away = stats_at(1);
    away.connected = false;
    assert!(!rows_flushed(Some(away)) && !rows_flushed(None));

    let reply = |text: &str| CallOutcome::Reply(Json::parse(text.as_bytes()).expect("json"));
    for name in ["executed", "duplicate", "expired", "superseded"] {
        let outcome = reply(&format!("{{\"outcome\":\"{name}\"}}"));
        assert_eq!(relay_command(&outcome), Ok(name));
    }
    assert_eq!(relay_command(&reply("{}")), Ok("accepted"));
    assert_eq!(
        relay_command(&CallOutcome::Refused("no".into())),
        Err("host refused: no".into())
    );
    assert_eq!(
        relay_command(&CallOutcome::TimedOut),
        Err("relay call timed out; peer link suspect".into())
    );
    assert_eq!(
        relay_command(&CallOutcome::Failed("eof".into())),
        Err("relay call failed: eof".into())
    );
    assert!(drops_link(&CallOutcome::TimedOut));
    assert!(!drops_link(&CallOutcome::Refused("no".into())));
    assert_eq!(link_failure(false, "x"), "peer links not wired");
    assert_eq!(link_failure(true, "x"), "peer link: x");
    let params = relay_params("c", Json::Null);
    assert_eq!(params.to_text(), r#"{"chatId":"c","entry":null}"#);
}

#[test]
fn attachments_are_pushed_in_chunks() {
    assert_eq!(upload_chunks(b""), [""]);
    assert_eq!(upload_chunks(b"hi!"), ["aGkh"]);
    let bytes = vec![7u8; 45_001];
    let chunks = upload_chunks(&bytes);
    assert_eq!(chunks.len(), 2);
    assert_eq!(chunks[0].len(), 60_000);
    assert_eq!(
        chunks.concat(),
        base64::engine::general_purpose::STANDARD.encode(&bytes)
    );
    assert_eq!(upload_chunks(&vec![7u8; 45_000]).len(), 1);
    assert_eq!(
        chunk_params("u", 3, "d").to_text(),
        r#"{"data":"d","seq":3,"uploadId":"u"}"#
    );
    assert_eq!(
        commit_params("u", "f.png").to_text(),
        r#"{"fileName":"f.png","uploadId":"u"}"#
    );

    let permanent = |text: &str| Err(TransferError::Permanent(text.into()));
    let transient = |text: &str| Err(TransferError::Transient(text.into()));
    assert_eq!(may_push(false, true), permanent("peer links not wired"));
    assert_eq!(may_push(true, false), permanent("uploads not wired"));
    assert_eq!(may_push(true, true), Ok(()));
    assert_eq!(no_link("x"), TransferError::Transient("peer link: x".into()));
    assert_eq!(
        bytes_missing("x"),
        TransferError::Permanent("staged attachment missing: x".into())
    );
    assert_eq!(
        chunk_pushed(&CallOutcome::TimedOut),
        transient("chunk push timed out; peer link suspect")
    );
    assert_eq!(
        chunk_pushed(&CallOutcome::Refused("x".into())),
        permanent("host refused chunk: x")
    );
    assert_eq!(
        chunk_pushed(&CallOutcome::Failed("x".into())),
        transient("chunk push failed: x")
    );
    assert_eq!(
        attachment_committed(&CallOutcome::TimedOut),
        transient("commit timed out; peer link suspect")
    );
    assert_eq!(
        attachment_committed(&CallOutcome::Refused("x".into())),
        permanent("host refused commit: x")
    );
    assert_eq!(
        attachment_committed(&CallOutcome::Failed("x".into())),
        transient("commit failed: x")
    );
    assert_eq!(attachment_committed(&CallOutcome::Reply(Json::Null)), Ok(()));

    let mut transfer = Transfer::new(0);
    assert_eq!(transfer.pushed(&transient("x"), 10), AfterPush::Wait(2_000));
    assert_eq!(transfer.pushed(&transient("x"), 10), AfterPush::Wait(4_000));
    assert_eq!(transfer.pushed(&transient("x"), 900_000), AfterPush::GaveUp);
    assert_eq!(transfer.pushed(&permanent("x"), 10), AfterPush::GaveUp);
    assert_eq!(transfer.pushed(&Ok(()), 10), AfterPush::Delivered);
}

#[test]
fn a_document_is_saved_once_its_changes_rest() {
    let mut timer = SaveTimer::new();
    assert!(!timer.due(5));
    timer.changed(100);
    timer.changed(900);
    assert!(!timer.due(1_099));
    assert!(timer.due(1_100));
    assert!(!timer.due(9_999));
}

#[test]
fn what_a_client_held_goes_back_to_the_queue() {
    let mut pending = PendingUpdates::new();
    let mut handle = open_handle("c");
    pending.buffer_chat2_update("c", vec![1]);
    let generation = handle.sink_generation;
    assert_eq!(carry_back(&mut handle, &mut pending, vec![vec![2], vec![3]]), 2);
    assert!(handle.replay_from_zero);
    assert_eq!(handle.sink_generation, generation, "the client was taken out before");
    assert_eq!(queue_of(&mut pending, "c"), vec![vec![1], vec![2], vec![3]]);

    let mut handle = open_handle("c");
    assert_eq!(carry_back(&mut handle, &mut pending, vec![]), 0);
    assert!(!handle.replay_from_zero);
    handle.purged = true;
    assert_eq!(carry_back(&mut handle, &mut pending, vec![vec![4]]), 1);
    assert!(!handle.replay_from_zero);
    assert!(!pending.has_pending("c"));
}

#[test]
fn a_purge_closes_the_handle() {
    let mut pending = PendingUpdates::new();
    let mut handle = open_handle("c");
    handle.connected = true;
    assert_eq!(purge_chat(&mut pending, &mut handle), "c.pre-chat2");
    assert!(handle.is_closed() && handle.purged && !handle.connected);
    assert_eq!(handle.sink_generation, 1);
    let mut map: TextMap<u32> = TextMap::new();
    map.insert("a".into(), 1);
    map.insert("a".into(), 2);
    assert_eq!(map.get("a"), Some(&2));
    assert_eq!(map.remove("a"), Some(2));
    assert!(!map.contains("a"));
}

#[test]
fn a_command_runs_once_over_both_roads() {
    let mut host = host();
    let mut ledger: Vec<String> = Vec::new();
    let mut runs = 0;
    let execute = CommandDisposition::Execute;
    for _ in 0..2 {
        // It is forwarded…
        let claim = host.ingest_relayed_command(0, true, execute, "k").expect("admitted");
        if claim == RelayClaim::Claimed {
            let fresh = !ledger.iter().any(|id| id == "k");
            ledger.push("k".into());
            if relayed_recorded(Ok(fresh), execute) == RelayStep::Execute {
                runs += 1;
            }
            host.executing.remove("k");
        }
        // …and it stands in the document.
        let commands =
            vec![entry("k", SessionCommandPayload::Interrupt, SessionCommandStatus::Pending)];
        let processed = vec![ledger.iter().any(|id| id == "k")];
        let mut pass = DrainPass::new();
        if pass.next(&commands, &processed).is_some() {
            assert!(pass.claim(&mut host.executing, "k"));
            runs += 1;
        }
    }
    assert_eq!(runs, 1);
}

#[test]
fn local_updates_survive_clients_that_come_and_go() {
    let mut handle = open_handle("c");
    let mut pending = PendingUpdates::new();
    pending.buffer_chat2_update("c", vec![1]);
    pending.buffer_chat2_update("c", vec![2]);
    let mut held: Vec<Vec<u8>> = Vec::new();
    for round in 0..2 {
        let mut install = ClientInstall::new(handle.sink_generation);
        match install.begin(&handle, &mut pending) {
            InstallRound::Enqueue(updates) => held.extend(updates),
            other => panic!("unexpected round: {other:?}"),
        }
        assert!(matches!(
            install.publish(&mut handle, &mut pending),
            InstallPublish::Installed(count) if count == 2 + round
        ));
        // The client goes with everything it holds, and one more update is made.
        let count = park_chat2_client(&mut handle, &mut pending, std::mem::take(&mut held));
        assert_eq!(count, 2 + round);
        assert_eq!(handle.route_local_update(), LocalUpdateRoute::Buffer);
        pending.buffer_chat2_update("c", vec![3 + round as u8]);
    }
    assert!(handle.replay_from_zero);
    assert_eq!(queue_of(&mut pending, "c"), vec![vec![1], vec![2], vec![3], vec![4]]);
}
