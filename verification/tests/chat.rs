//! Rows, checkpoints and cursors of a chat room, over real documents.

use zeron_core::chat::blob::{full_log, Blob};
use zeron_core::chat::sink::{
    row_imported, AppliedRow, EngineChatSink, Lifecycle, RowImport, SaveCursor, CHAT2_DOC_EPOCH,
};
use zeron_core::chat::transport::{
    chat_push_status_error, chat_rows_status_error, EdgeChatTransport, EdgeCheckpointFetcher,
    FetchResponse, FetchStep, SyncError,
};
use zeron_core::chat::version::{
    document_frontier, document_holds_frontier, import_blob_materialized,
};
use zeron_core::host::snapshots::{
    first_contact_log, load_snapshot, merge_snapshots, open_stored, snapshot_imported, OpenPlan,
    StoredCursor,
};

fn open_life() -> Lifecycle {
    Lifecycle { generation: 0, frozen: false, replay_from_zero: false }
}

fn document_with(key: &str, value: &str) -> loro::LoroDoc {
    let doc = loro::LoroDoc::new();
    doc.get_map("meta").insert(key, value).expect("insert");
    doc.commit();
    doc
}

fn blob(bytes: &[u8]) -> Blob {
    Blob::received(bytes.to_vec())
}

fn all_updates(doc: &loro::LoroDoc) -> Vec<u8> {
    doc.export(loro::ExportMode::updates(&loro::VersionVector::default()))
        .expect("export")
}

#[test]
fn encoded_empty_frontier_is_not_contained() {
    let doc = loro::LoroDoc::new();
    let sink = EngineChatSink::new("frontier-test-2".into(), 2, 0, 2);
    let encoded_empty = loro::VersionVector::default().encode();
    assert!(
        !sink.contains_frontier(&open_life(), Some(&doc), &encoded_empty),
        "an encoded-empty frontier must trigger the fetch, not vacuous containment"
    );
}

#[test]
fn empty_frontier_is_not_contained() {
    let doc = loro::LoroDoc::new();
    let sink = EngineChatSink::new("frontier-test".into(), 2, 0, 2);
    assert!(
        !sink.contains_frontier(&open_life(), Some(&doc), &[]),
        "empty frontier on a present checkpoint must trigger the fetch"
    );
    // A real, contained frontier still short-circuits the fetch — the doc needs actual
    // ops, or its own frontier is the vacuous-empty one.
    doc.get_map("meta").insert("k", "v").expect("insert");
    doc.commit();
    let vv = doc.oplog_vv().encode();
    assert!(sink.contains_frontier(&open_life(), Some(&doc), &vv));
}

#[test]
fn a_frontier_ahead_of_the_document_is_not_held() {
    let ahead = document_with("k", "v");
    let behind = loro::LoroDoc::new();
    let frontier = ahead.oplog_vv().encode();
    assert!(document_holds_frontier(&ahead, &frontier));
    assert!(!document_holds_frontier(&behind, &frontier));
    assert!(!document_holds_frontier(&ahead, b"not a frontier"));
    // A claim of a peer without any change is held by every document.
    let nothing: loro::VersionVector = [(7u64, 0i32)].into_iter().collect();
    assert!(document_holds_frontier(&behind, &nothing.encode()));
    assert!(document_holds_frontier(&ahead, &nothing.encode()));
}

#[test]
fn edge_transport_routes_org_rooms_to_chat3_rows() {
    let edge = "https://edge.example/";
    let legacy = EdgeChatTransport::new(edge.into(), "chat-id".into(), "device-id".into(), 2);
    let org_shared = EdgeChatTransport::new(edge.into(), "chat-id".into(), "device-id".into(), 3);

    assert_eq!(legacy.rows_url(), "https://edge.example/chat2/chat-id/rows");
    assert_eq!(org_shared.rows_url(), "https://edge.example/chat3/chat-id/rows");
    assert!(!org_shared.rows_url().contains("/chat2/"));
}

#[test]
fn rows_http_403_is_typed_without_reclassifying_other_statuses() {
    for operation in ["pull", "push"] {
        assert!(matches!(chat_rows_status_error(operation, 403), SyncError::AccessDenied(_)));
        assert!(matches!(chat_rows_status_error(operation, 401), SyncError::Protocol(_)));
        assert!(matches!(chat_rows_status_error(operation, 500), SyncError::Protocol(_)));
    }
    assert!(matches!(
        chat_push_status_error(413, r#"{"error":"too_large"}"#),
        SyncError::PushRejected(code) if code == "too_large"
    ));
    assert!(matches!(
        chat_push_status_error(429, r#"{"error":"quota"}"#),
        SyncError::Protocol(_)
    ));
}

#[test]
fn status_errors_carry_the_reason_of_the_status() {
    match chat_rows_status_error("pull", 500) {
        SyncError::Protocol(message) => {
            assert!(message.contains("500 Internal Server Error"), "unexpected: {message}")
        }
        other => panic!("unexpected error: {other:?}"),
    }
    match chat_rows_status_error("pull", 599) {
        SyncError::Protocol(message) => {
            assert_eq!(message, "chat pull http 599 <unknown status code>")
        }
        other => panic!("unexpected error: {other:?}"),
    }
    match chat_push_status_error(418, "no json") {
        SyncError::Protocol(message) => assert_eq!(message, "chat push http 418 I'm a teapot"),
        other => panic!("unexpected error: {other:?}"),
    }
}

#[test]
fn gen3_sink_persists_the_gen3_cursor_namespace() {
    let doc = document_with("k", "v");
    let life = open_life();
    let mut sink = EngineChatSink::new("gen3-chat".into(), 3, 0, 2);

    let bytes = doc.export(loro::ExportMode::Snapshot).expect("snapshot");
    let saved = sink.apply_row(&life, Some(&doc), &blob(&bytes), 5);
    assert_eq!(
        saved.map(|row| row.save),
        Some(SaveCursor { cursor: 5, epoch: 2 }),
        "remote rows must not finish the handoff"
    );
    let saved = sink.advance_cursor(&life, true, 17);
    assert_eq!(saved, Some(SaveCursor { cursor: 17, epoch: 3 }));
}

#[test]
fn same_generation_reset_persists_an_exact_lower_cursor() {
    let doc = document_with("k", "v");
    let life = open_life();
    let mut sink = EngineChatSink::new("reset-chat".into(), 3, 41, 3);

    assert_eq!(
        sink.reset_cursor(&life, true, 0),
        Some(SaveCursor { cursor: 0, epoch: 3 }),
        "reset preserves room generation"
    );
    let update = all_updates(&doc);
    sink.apply_row(&life, Some(&doc), &blob(&update), 1);
    assert_eq!(
        sink.advance_cursor(&life, true, 1),
        Some(SaveCursor { cursor: 1, epoch: 3 }),
        "post-reset row/ack must not be masked by the old cursor 41"
    );
}

/// A parked row persists the cursor its caller computed but must not make the parked
/// content readable. A checkpoint is the stricter contract: it claims to be a complete
/// frontier, so missing deps still fail it.
#[test]
fn parked_row_keeps_content_invisible_while_a_parked_checkpoint_fails() {
    let receiver = loro::LoroDoc::new();
    let life = open_life();
    let mut sink =
        EngineChatSink::new("pending-row".into(), CHAT2_DOC_EPOCH, 0, CHAT2_DOC_EPOCH);

    // Export only the second change from one peer. Its first change is a causal
    // dependency, so importing this payload into an empty peer parks it.
    let source = loro::LoroDoc::new();
    source.get_map("meta").insert("founding", "dependency").expect("insert");
    source.commit();
    let after_founding = source.oplog_vv();
    source.get_map("meta").insert("dependent", "must-materialize").expect("insert");
    source.commit();
    let dependent_only = source
        .export(loro::ExportMode::updates(&after_founding))
        .expect("export");

    // The caller passes the cursor it deemed honest; the sink persists exactly that, and
    // a replay of the same parked row is a no-op.
    sink.apply_row(&life, Some(&receiver), &blob(&dependent_only), 9);
    let saved = sink.apply_row(&life, Some(&receiver), &blob(&dependent_only), 9);
    assert_eq!(saved.map(|row| row.save), Some(SaveCursor { cursor: 9, epoch: CHAT2_DOC_EPOCH }));
    assert!(
        receiver.get_map("meta").get("dependent").is_none(),
        "parked ops must stay invisible until their dependency lands"
    );

    let checkpoint_receiver = loro::LoroDoc::new();
    let mut checkpoint_sink =
        EngineChatSink::new("pending-checkpoint".into(), CHAT2_DOC_EPOCH, 0, CHAT2_DOC_EPOCH);
    let checkpoint_error = checkpoint_sink
        .apply_checkpoint(&life, Some(&checkpoint_receiver), &blob(&dependent_only), 8)
        .expect_err("a checkpoint with missing dependencies is not a safe frontier");
    assert!(checkpoint_error.contains("unresolved dependencies"));
    assert_eq!(checkpoint_sink.cursor, 0, "failed checkpoint must not advance cursor");

    // Importing the complete checkpoint supplies the dependency and materializes the
    // parked row.
    let whole = source.export(loro::ExportMode::Snapshot).expect("snapshot");
    let saved = sink
        .apply_checkpoint(&life, Some(&receiver), &blob(&whole), 8)
        .expect("complete checkpoint");
    assert!(receiver.get_map("meta").get("dependent").is_some());
    assert_eq!(
        saved.cursor, 9,
        "an older checkpoint repairs parked content without rewinding the cursor"
    );
}

#[test]
fn earlier_materialized_rows_can_repair_an_unrelated_future_pending_row() {
    let chain = loro::LoroDoc::new();
    chain.set_peer_id(101).expect("peer");
    chain.get_map("chain").insert("first", "dependency-one").expect("insert");
    chain.commit();
    let after_first = chain.oplog_vv();
    let first = all_updates(&chain);
    chain.get_map("chain").insert("second", "dependency-two").expect("insert");
    chain.commit();
    let after_second = chain.oplog_vv();
    let second = chain.export(loro::ExportMode::updates(&after_first)).expect("export");

    // A different peer observes both chain changes, then authors a row that causally
    // depends on them. Deliver that future row first.
    let future_source = loro::LoroDoc::new();
    future_source.set_peer_id(202).expect("peer");
    future_source
        .import(&chain.export(loro::ExportMode::Snapshot).expect("snapshot"))
        .expect("import");
    future_source.get_map("future").insert("value", "materialize-last").expect("insert");
    future_source.commit();
    let future = future_source
        .export(loro::ExportMode::updates(&after_second))
        .expect("export");

    let replica = loro::LoroDoc::new();
    assert!(!import_blob_materialized(&replica, &blob(&future)).expect("import"));

    // The first repair row itself is fully materialized even though the later future row
    // remains pending on the second dependency.
    assert!(import_blob_materialized(&replica, &blob(&first)).expect("import"));
    assert!(replica.get_map("chain").get("first").is_some());
    assert!(replica.get_map("future").get("value").is_none());

    assert!(import_blob_materialized(&replica, &blob(&second)).expect("import"));
    assert!(replica.get_map("chain").get("second").is_some());
    assert!(replica.get_map("future").get("value").is_some());
}

#[test]
fn a_blob_that_cannot_be_read_is_not_imported() {
    let doc = loro::LoroDoc::new();
    let failure = import_blob_materialized(&doc, &blob(b"nonsense")).expect_err("unreadable");
    assert_eq!(failure, "decode import metadata: Decode error: (Invalid import data)");
    let mut sink = EngineChatSink::new("unreadable".into(), 3, 4, 3);
    let failure = sink
        .apply_checkpoint(&open_life(), Some(&doc), &blob(&[b'x'; 22]), 9)
        .expect_err("unmarked");
    assert_eq!(
        failure,
        "checkpoint import: decode import metadata: Decode error: (Invalid magic bytes)"
    );
    assert_eq!(sink.cursor, 4);
}

#[test]
fn unacked_local_replay_forces_every_sink_persist_to_cursor_zero() {
    let doc = document_with("local-unacked", "must-replay");
    let life = Lifecycle { generation: 0, frozen: false, replay_from_zero: true };
    let mut sink = EngineChatSink::new_with_lifecycle("dirty-sink".into(), 3, 9, 3, &life);

    // Both a remote import and an own ack can race the debounced host save. Neither may
    // make a snapshot containing the local op look replay-safe.
    let remote = document_with("remote", "row");
    sink.apply_row(&life, Some(&doc), &blob(&all_updates(&remote)), 10);
    let saved = sink.advance_cursor(&life, true, 11);
    assert_eq!(saved, Some(SaveCursor { cursor: 0, epoch: 3 }));

    let bytes = doc.export(loro::ExportMode::Snapshot).expect("snapshot");
    let restored = loro::LoroDoc::new();
    restored.import(&bytes).expect("import");
    assert!(matches!(
        restored.get_map("meta").get("local-unacked"),
        Some(loro::ValueOrContainer::Value(loro::LoroValue::String(value)))
            if value.to_string() == "must-replay"
    ));
}

#[test]
fn a_detached_or_frozen_sink_does_nothing() {
    let doc = document_with("k", "v");
    let life = open_life();
    let mut sink = EngineChatSink::new_with_lifecycle("c".into(), 3, 4, 3, &life);
    for stale in [
        Lifecycle { generation: 1, ..life },
        Lifecycle { frozen: true, ..life },
    ] {
        assert!(!sink.is_active(&stale));
        assert_eq!(sink.advance_cursor(&stale, true, 9), None);
        assert_eq!(sink.apply_row(&stale, Some(&doc), &blob(&all_updates(&doc)), 9), None);
        assert!(sink.apply_checkpoint(&stale, Some(&doc), &blob(&all_updates(&doc)), 9).is_err());
        assert!(sink.contains_frontier(&stale, Some(&doc), &[]));
    }
    assert_eq!(sink.advance_cursor(&life, false, 9), None);
    assert_eq!(sink.cursor, 4);
}

#[test]
fn a_checkpoint_is_fetched_from_where_it_broke_off() {
    let mut fetcher = EdgeCheckpointFetcher::new("https://edge.example/", "c1", 3);
    assert_eq!(fetcher.url, "https://edge.example/chat3/c1/checkpoint");
    assert_eq!(fetcher.attempt(true), FetchStep::Request { range: None });
    assert_eq!(fetcher.response(Some("7".into()), 200), FetchResponse::Read);
    fetcher.chunk(b"abc");
    assert_eq!(
        fetcher.attempt(true),
        FetchStep::Request { range: Some("bytes=3-".into()) }
    );
    assert_eq!(fetcher.response(Some("7".into()), 206), FetchResponse::Read);
    fetcher.chunk(b"def");
    assert_eq!(fetcher.got, b"abcdef".to_vec());
    // A checkpoint that was replaced meanwhile starts over.
    fetcher.attempt(true);
    assert_eq!(fetcher.response(Some("8".into()), 206), FetchResponse::Retry);
    assert!(fetcher.got.is_empty());
}

#[test]
fn a_merge_holds_both_sides_or_names_the_one_that_failed() {
    let target = document_with("target", "t");
    let source = document_with("source", "s");
    let merged = merge_snapshots(
        &blob(&target.export(loro::ExportMode::Snapshot).expect("snapshot")),
        &blob(&source.export(loro::ExportMode::Snapshot).expect("snapshot")),
    )
    .expect("merged");
    assert!(merged.get_map("meta").get("target").is_some());
    assert!(merged.get_map("meta").get("source").is_some());

    let good = target.export(loro::ExportMode::Snapshot).expect("snapshot");
    let failed = merge_snapshots(&blob(b"bad"), &blob(&good)).err().expect("bad target");
    assert_eq!(
        failed.message(),
        "target snapshot import failed: Decode error: (Invalid import data)"
    );
    let failed = merge_snapshots(&blob(&good), &blob(b"bad")).err().expect("bad source");
    assert_eq!(
        failed.message(),
        "source tail merge failed: Decode error: (Invalid import data)"
    );
    let unmarked = [b'x'; 22];
    let failed = merge_snapshots(&blob(&unmarked), &blob(b"bad")).err().expect("unmarked target");
    assert_eq!(
        failed.message(),
        "target snapshot import failed: Decode error: (Invalid magic bytes)"
    );
    let failed = merge_snapshots(&blob(&good), &blob(&unmarked)).err().expect("unmarked source");
    assert_eq!(
        failed.message(),
        "source tail merge failed: Decode error: (Invalid magic bytes)"
    );
    // A blob whose envelope is whole fails on what it holds.
    let mut broken = good.clone();
    broken[30] ^= 1;
    let failed = merge_snapshots(&blob(&broken), &blob(&good)).err().expect("broken target");
    assert!(failed.message().starts_with("target snapshot import failed: "));
}

#[test]
fn a_row_says_how_its_import_went() {
    let source = loro::LoroDoc::new();
    source.get_map("meta").insert("first", "1").expect("insert");
    source.commit();
    let after_first = source.oplog_vv();
    let first = all_updates(&source);
    source.get_map("meta").insert("second", "2").expect("insert");
    source.commit();
    let second = source.export(loro::ExportMode::updates(&after_first)).expect("export");

    let receiver = loro::LoroDoc::new();
    let life = open_life();
    let mut sink = EngineChatSink::new("rows".into(), 3, 0, 3);
    let mut apply = |bytes: &[u8], cursor: u64| {
        sink.apply_row(&life, Some(&receiver), &blob(bytes), cursor).expect("a live sink")
    };
    let save = |cursor: u64| SaveCursor { cursor, epoch: 3 };
    assert_eq!(apply(&second, 1), AppliedRow { import: RowImport::Parked, save: save(1) });
    assert_eq!(apply(&first, 2), AppliedRow { import: RowImport::Imported, save: save(2) });
    let skipped = RowImport::Skipped("Decode error: (Invalid import data)".into());
    assert_eq!(apply(b"poison", 3), AppliedRow { import: skipped, save: save(3) });
    assert!(receiver.get_map("meta").get("second").is_some());

    assert_eq!(row_imported(Ok(false)), RowImport::Imported);
    assert_eq!(row_imported(Ok(true)), RowImport::Parked);
    assert_eq!(row_imported(Err("x".into())), RowImport::Skipped("x".into()));
}

#[test]
fn a_stored_snapshot_opens_the_document_that_was_saved() {
    let doc = document_with("k", "v");
    let bytes = doc.export(loro::ExportMode::Snapshot).expect("snapshot");
    let loaded = load_snapshot(&blob(&bytes)).expect("loaded");
    assert!(loaded.get_map("meta").get("k").is_some());

    let at = StoredCursor { cursor: 7, epoch: 3 };
    let opened = open_stored(Some((blob(&bytes), at))).expect("opened");
    assert_eq!(opened.plan, OpenPlan { cursor: 7, epoch: 3, stamp: false });
    assert_eq!(opened.snapshot_bytes, bytes.len());
    let restored = opened.doc.expect("a document");
    assert_eq!(restored.oplog_vv(), doc.oplog_vv());

    let fresh = open_stored(None).expect("opened");
    assert_eq!(fresh.plan, OpenPlan { cursor: 0, epoch: 2, stamp: true });
    assert_eq!(fresh.snapshot_bytes, 0);
    assert!(fresh.doc.is_none());

    for (bad, cause) in [
        (b"bad".to_vec(), "Decode error: (Invalid import data)"),
        (vec![b'x'; 30], "Decode error: (Invalid magic bytes)"),
    ] {
        let message = format!("snapshot import failed: {cause}");
        assert_eq!(load_snapshot(&blob(&bad)).err().expect("bad").message(), message);
        let failed = open_stored(Some((blob(&bad), at))).err().expect("bad");
        assert_eq!(failed.message(), message);
    }
    assert_eq!(snapshot_imported(Ok(true)).expect("imported"), true);
    assert_eq!(
        snapshot_imported::<bool>(Err("x".into())).expect_err("failed").message(),
        "snapshot import failed: x"
    );
}

#[test]
fn the_whole_log_goes_out_on_first_contact_alone() {
    let doc = document_with("k", "v");
    let log = full_log(&doc).expect("written");
    assert_eq!(log.as_bytes(), all_updates(&doc));
    assert_eq!(log.len(), log.as_bytes().len());
    let replica = load_snapshot(&log).expect("loaded");
    assert_eq!(replica.oplog_vv(), doc.oplog_vv());

    let first = first_contact_log(true, 0, &doc).expect("written").expect("first contact");
    assert_eq!(first.into_bytes(), all_updates(&doc));
    assert!(first_contact_log(true, 1, &doc).expect("later").is_none());
    assert!(first_contact_log(false, 0, &doc).expect("offline").is_none());
}

#[test]
fn a_document_holds_its_own_frontier() {
    let doc = document_with("k", "v");
    let frontier = document_frontier(&doc);
    assert_eq!(loro::VersionVector::decode(&frontier).expect("readable"), doc.oplog_vv());
    let sink = EngineChatSink::new("own-frontier".into(), 3, 0, 3);
    assert!(sink.contains_frontier(&open_life(), Some(&doc), &frontier));
    assert!(!sink.contains_frontier(&open_life(), Some(&loro::LoroDoc::new()), &frontier));
    // Every document holds a claim of no change.
    let nothing: loro::VersionVector = [(7u64, 0i32)].into_iter().collect();
    assert!(sink.contains_frontier(&open_life(), Some(&loro::LoroDoc::new()), &nothing.encode()));
}
