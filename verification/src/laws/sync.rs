//! Laws of the client of a room.

use vstd::prelude::*;
use vstd::utf8::encode_utf8;

use crate::chat::blob::{full_log, log_exports, Blob};
use crate::chat::sink::{
    row_imported, AppliedRow, EngineChatSink, Lifecycle, RowImport, SaveCursor,
};
use crate::chat::transport::{
    chat_push_status_error, chat_rows_status_error, is_status_code, push_error_of, status_text,
    EdgeChatTransport, EdgeCheckpointFetcher, FetchResponse, FetchStep, SyncError,
};
use crate::chat::import::versions_since;
use crate::chat::version::{
    answered_from, changes_of, decoded_version, document_frontier, document_holds_frontier,
    frontier_held, import_blob_end, import_blob_materialized, import_outcomes, includes,
    is_materialized, materialized_by, version_entries, version_holds_frontier, versions_of, Version,
};
use crate::json::Json;
use crate::laws::sign_in::slashes_are_known;
use crate::laws::text::repeated;
use crate::text::decimal;

verus! {

/// A client starts at the given place, in the given epoch or the first synchronized one,
/// and never past the generation of its room, in the generation that its handle is in.
pub proof fn a_client_starts_where_it_stopped(
    chat_id: String,
    room_gen: u32,
    cursor: u64,
    epoch: u32,
    life: &Lifecycle,
    r: EngineChatSink,
    alone: EngineChatSink,
)
    requires
        call_ensures(
            EngineChatSink::new_with_lifecycle,
            (chat_id, room_gen, cursor, epoch, life),
            r,
        ),
        call_ensures(EngineChatSink::new, (chat_id, room_gen, cursor, epoch), alone),
    ensures
        r.chat_id == chat_id && r.cursor == cursor && r.client_generation == life.generation,
        room_gen >= 2 ==> r.target_room_gen == room_gen,
        room_gen < 2 ==> r.target_room_gen == 2,
        2 <= r.epoch <= r.target_room_gen,
        2 <= epoch <= r.target_room_gen ==> r.epoch == epoch,
        epoch < 2 ==> r.epoch == 2,
        epoch > r.target_room_gen ==> r.epoch == r.target_room_gen,
        alone.cursor == r.cursor && alone.epoch == r.epoch && alone.target_room_gen
            == r.target_room_gen && alone.client_generation == 0,
{
}

/// A client speaks for its handle until that is frozen or has another client.
pub proof fn a_client_speaks_until_it_is_replaced(sink: &EngineChatSink, life: &Lifecycle, r: bool)
    requires
        call_ensures(EngineChatSink::is_active, (sink, life), r),
    ensures
        r <==> !life.frozen && life.generation == sink.client_generation,
{
}

/// What is saved is the place that was reached, and zero while anything is to be replayed.
pub open spec fn is_saved_at(save: SaveCursor, sink: EngineChatSink, life: Lifecycle) -> bool {
    &&& save.epoch == sink.epoch
    &&& life.replay_from_zero ==> save.cursor == 0
    &&& !life.replay_from_zero ==> save.cursor == sink.cursor
}

/// Two moments of the same client: only its place and its epoch may differ.
pub open spec fn is_beside(after: EngineChatSink, before: EngineChatSink) -> bool {
    after.chat_id == before.chat_id && after.target_room_gen == before.target_room_gen
        && after.client_generation == before.client_generation
}

/// A write moves the place forward, and only a reset moves it back; an own acknowledgement
/// alone moves the epoch, and to the room's generation.
pub proof fn a_place_moves_forward(
    sink: &mut EngineChatSink,
    cursor: u64,
    promote: bool,
    exact: bool,
    life: &Lifecycle,
    r: SaveCursor,
)
    requires
        old(sink).wf(),
        call_ensures(EngineChatSink::persist_with_cursor, (sink, cursor, promote, exact, life), r),
    ensures
        exact || cursor > old(sink).cursor ==> final(sink).cursor == cursor,
        !exact && cursor <= old(sink).cursor ==> final(sink).cursor == old(sink).cursor,
        promote ==> final(sink).epoch == old(sink).target_room_gen,
        !promote ==> final(sink).epoch == old(sink).epoch,
        is_beside(*final(sink), *old(sink)),
        is_saved_at(r, *final(sink), *life),
{
}

/// A row moves the place however its import went, and what is reported is how it went. A
/// client that is replaced, or whose document is gone, does nothing.
pub proof fn a_bad_row_does_not_hold_the_room_up(
    sink: &mut EngineChatSink,
    life: &Lifecycle,
    doc: Option<&loro::LoroDoc>,
    blob: &Blob,
    cursor: u64,
    r: Option<AppliedRow>,
)
    requires
        old(sink).wf(),
        call_ensures(EngineChatSink::apply_row, (sink, life, doc, blob, cursor), r),
    ensures
        r is Some <==> !life.frozen && life.generation == old(sink).client_generation && doc
            is Some,
        r is None ==> *final(sink) == *old(sink),
        r is Some ==> {
            &&& cursor > old(sink).cursor ==> final(sink).cursor == cursor
            &&& cursor <= old(sink).cursor ==> final(sink).cursor == old(sink).cursor
            &&& final(sink).epoch == old(sink).epoch
            &&& is_saved_at(r->0.save, *final(sink), *life)
            &&& blob@.len() < 22 ==> r->0.import is Skipped && r->0.import->Skipped_0@
                == "Decode error: (Invalid import data)"@
            &&& r->0.import is Imported ==> import_outcomes(*doc->0).contains(
                (blob@, Ok::<bool, Seq<char>>(false)),
            )
            &&& r->0.import is Parked ==> import_outcomes(*doc->0).contains(
                (blob@, Ok::<bool, Seq<char>>(true)),
            )
            &&& r->0.import is Skipped ==> import_outcomes(*doc->0).contains(
                (blob@, Err::<bool, Seq<char>>(r->0.import->Skipped_0@)),
            )
        },
        is_beside(*final(sink), *old(sink)),
{
}

/// The import of a row is reported as it went: whole, waiting for others, or not at all,
/// with the cause.
pub proof fn an_import_is_reported_as_it_went(outcome: Result<bool, String>, r: RowImport)
    requires
        call_ensures(row_imported, (outcome,), r),
    ensures
        r is Imported <==> outcome == Ok::<bool, String>(false),
        r is Parked <==> outcome == Ok::<bool, String>(true),
        r is Skipped <==> outcome is Err,
        r is Skipped ==> r->Skipped_0 == outcome->Err_0,
{
}

/// A checkpoint moves the place only where all of it became part of the document.
pub proof fn a_checkpoint_is_taken_whole_or_not(
    sink: &mut EngineChatSink,
    life: &Lifecycle,
    outcome: Result<bool, String>,
    cursor: u64,
    r: Result<SaveCursor, String>,
)
    requires
        old(sink).wf(),
        call_ensures(EngineChatSink::checkpoint_imported, (sink, life, outcome, cursor), r),
    ensures
        r is Ok <==> outcome == Ok::<bool, String>(true),
        r is Err ==> *final(sink) == *old(sink),
        is_beside(*final(sink), *old(sink)),
        outcome == Ok::<bool, String>(false) ==> r->Err_0@
            == "checkpoint import has unresolved dependencies"@,
        outcome is Err ==> r->Err_0@ == "checkpoint import: "@ + outcome->Err_0@,
        r is Ok ==> {
            &&& cursor > old(sink).cursor ==> final(sink).cursor == cursor
            &&& cursor <= old(sink).cursor ==> final(sink).cursor == old(sink).cursor
            &&& final(sink).epoch == old(sink).epoch
            &&& is_saved_at(r->Ok_0, *final(sink), *life)
        },
{
}

/// A checkpoint is not taken by a client that is replaced or whose document is gone.
pub proof fn a_replaced_client_takes_no_checkpoint(
    sink: &mut EngineChatSink,
    life: &Lifecycle,
    doc: Option<&loro::LoroDoc>,
    blob: &Blob,
    cursor: u64,
    r: Result<SaveCursor, String>,
)
    requires
        old(sink).wf(),
        call_ensures(EngineChatSink::apply_checkpoint, (sink, life, doc, blob, cursor), r),
    ensures
        ({
            let active = !life.frozen && life.generation == old(sink).client_generation;
            &&& !active ==> r is Err && r->Err_0@
                == "chat handle retired during checkpoint import"@
            &&& active && doc is None ==> r is Err && r->Err_0@ == "doc evicted"@
            &&& r is Err ==> *final(sink) == *old(sink)
            &&& is_beside(*final(sink), *old(sink))
            &&& r is Ok ==> active && doc is Some && exists|version: Map<u64, int>| #[trigger]
                versions_since(*doc->0, blob@, false).contains(version) && has_all(
                    version,
                    import_blob_end(blob@)->Ok_0,
                )
            &&& active && doc is Some && import_blob_end(blob@) is Err ==> r is Err && r->Err_0@
                == "checkpoint import: "@ + ("decode import metadata: "@ + import_blob_end(
                blob@,
            )->Err_0)
            &&& r is Ok ==> (cursor > old(sink).cursor ==> final(sink).cursor == cursor) && (cursor
                <= old(sink).cursor ==> final(sink).cursor == old(sink).cursor) && final(sink).epoch == old(sink).epoch && is_saved_at(r->Ok_0, *final(sink), *life)
            &&& active && doc is Some && blob@.len() < 22 ==> r is Err && r->Err_0@
                == "checkpoint import: "@ + ("decode import metadata: "@
                + "Decode error: (Invalid import data)"@)
            &&& active && doc is Some && import_blob_end(blob@) is Ok && r is Err ==> r->Err_0@
                == "checkpoint import has unresolved dependencies"@ || exists|cause: Seq<char>|
                r->Err_0@ == #[trigger] ("checkpoint import: "@ + cause) && import_outcomes(
                    *doc->0,
                ).contains((blob@, Err::<bool, Seq<char>>(cause)))
        }),
{
    if r is Ok {
        let version = choose|version: Map<u64, int>| #[trigger]
            materialized_by(*doc->0, blob@, false, version, true);
        assert(materialized_by(*doc->0, blob@, false, version, true));
        having_all_is_including(version, import_blob_end(blob@)->Ok_0);
        assert(versions_since(*doc->0, blob@, false).contains(version));
    }
}

/// An own acknowledgement moves the place and finishes a move to the room's generation; a
/// reset moves the place wherever the room says. A client that is replaced does neither.
pub proof fn an_own_write_finishes_a_move(
    sink: &mut EngineChatSink,
    life: &Lifecycle,
    alive: bool,
    cursor: u64,
    r: Option<SaveCursor>,
    other: &mut EngineChatSink,
    reset: Option<SaveCursor>,
)
    requires
        old(sink).wf() && old(other).wf(),
        call_ensures(EngineChatSink::advance_cursor, (sink, life, alive, cursor), r),
        call_ensures(EngineChatSink::reset_cursor, (other, life, alive, cursor), reset),
    ensures
        r is Some <==> !life.frozen && life.generation == old(sink).client_generation && alive,
        r is None ==> *final(sink) == *old(sink),
        r is Some ==> {
            &&& cursor > old(sink).cursor ==> final(sink).cursor == cursor
            &&& cursor <= old(sink).cursor ==> final(sink).cursor == old(sink).cursor
            &&& final(sink).epoch == old(sink).target_room_gen
            &&& is_saved_at(r->0, *final(sink), *life)
        },
        reset is Some <==> !life.frozen && life.generation == old(other).client_generation
            && alive,
        reset is None ==> *final(other) == *old(other),
        reset is Some ==> final(other).cursor == cursor && final(other).epoch == old(other).epoch
            && is_saved_at(reset->0, *final(other), *life),
        is_beside(*final(sink), *old(sink)) && is_beside(*final(other), *old(other)),
{
}

/// A version holds, of each peer, at least as many changes as another.
pub open spec fn has_all(version: Map<u64, int>, other: Map<u64, int>) -> bool {
    forall|peer: u64| #[trigger]
        other.dom().contains(peer) && other[peer] > 0 ==> version.dom().contains(peer)
            && version[peer] >= other[peer]
}

proof fn having_all_is_including(version: Map<u64, int>, other: Map<u64, int>)
    ensures
        has_all(version, other) == includes(version, other),
{
    if has_all(version, other) {
        assert forall|peer: u64| #[trigger] other.dom().contains(peer) implies changes_of(
            other,
            peer,
        ) <= changes_of(version, peer) by {}
    }
    if includes(version, other) {
        assert forall|peer: u64| #[trigger]
            other.dom().contains(peer) && other[peer] > 0 implies version.dom().contains(peer)
            && version[peer] >= other[peer] by {
            assert(changes_of(other, peer) <= changes_of(version, peer));
        }
    }
}

/// An import became part of a document exactly where nothing of it is pending and the
/// document holds, of each peer, at least what it carries.
pub proof fn an_import_is_whole_where_nothing_is_missing(
    pending: bool,
    version: &Version,
    end: &Version,
    r: bool,
)
    requires
        call_ensures(is_materialized, (pending, version, end), r),
    ensures
        r <==> !pending && has_all(version_entries(*version), version_entries(*end)),
{
    having_all_is_including(version_entries(*version), version_entries(*end));
}

/// A blob that cannot be read is not imported. The import of any other is whole exactly
/// where none of its changes stayed pending and a version of the document from then on
/// holds all that the blob carries; a failure is that of the import.
pub proof fn an_import_is_whole_by_what_came_of_it(
    doc: &loro::LoroDoc,
    blob: &Blob,
    r: Result<bool, String>,
)
    requires
        call_ensures(import_blob_materialized, (doc, blob), r),
    ensures
        import_blob_end(blob@) is Err ==> r is Err && r->Err_0@ == "decode import metadata: "@
            + import_blob_end(blob@)->Err_0,
        import_blob_end(blob@) is Ok && r is Err ==> import_outcomes(*doc).contains(
            (blob@, Err::<bool, Seq<char>>(r->Err_0@)),
        ),
        r is Ok ==> exists|pending: bool, version: Map<u64, int>| #[trigger]
            versions_since(*doc, blob@, pending).contains(version) && versions_of(*doc).contains(
                version,
            ) && import_outcomes(*doc).contains((blob@, Ok::<bool, Seq<char>>(pending)))
                && r->Ok_0 == (!pending && has_all(version, import_blob_end(blob@)->Ok_0)),
{
    if r is Ok {
        let (pending, version) = choose|pending: bool, version: Map<u64, int>| #[trigger]
            materialized_by(*doc, blob@, pending, version, r->Ok_0);
        assert(materialized_by(*doc, blob@, pending, version, r->Ok_0));
        having_all_is_including(version, import_blob_end(blob@)->Ok_0);
        assert(versions_since(*doc, blob@, pending).contains(version));
    }
}

/// A claim is held exactly where it can be read, claims somebody, and no more of anybody
/// than the version holds.
pub open spec fn is_held(version: Map<u64, int>, frontier: Seq<u8>) -> bool {
    decoded_version(frontier) matches Some(claimed) && claimed != Map::<u64, int>::empty()
        && has_all(version, claimed)
}

proof fn held_is_held(version: Map<u64, int>, frontier: Seq<u8>)
    ensures
        is_held(version, frontier) == frontier_held(version, frontier),
{
    if decoded_version(frontier) is Some {
        having_all_is_including(version, decoded_version(frontier)->0);
    }
}

/// A version holds a claim that it covers, and no other.
pub proof fn a_held_claim_is_within_the_version(version: &Version, frontier: &[u8], r: bool)
    requires
        call_ensures(version_holds_frontier, (version, frontier), r),
    ensures
        r <==> is_held(version_entries(*version), frontier@),
{
    held_is_held(version_entries(*version), frontier@);
}

/// A document holds a claim where a version of it does. What a document claims is a
/// version that it has.
pub proof fn a_document_answers_from_its_versions(
    doc: &loro::LoroDoc,
    frontier: &[u8],
    r: bool,
    claim: Vec<u8>,
)
    requires
        call_ensures(document_holds_frontier, (doc, frontier), r),
        call_ensures(document_frontier, (doc,), claim),
    ensures
        exists|version: Map<u64, int>| #[trigger]
            versions_of(*doc).contains(version) && r == is_held(version, frontier@),
        decoded_version(claim@) is Some,
        versions_of(*doc).contains(decoded_version(claim@)->0),
{
    let version = choose|version: Map<u64, int>| #[trigger]
        answered_from(*doc, version, frontier@, r);
    assert(answered_from(*doc, version, frontier@, r));
    held_is_held(version, frontier@);
    assert(versions_of(*doc).contains(version));
}

/// Nothing is fetched for a client that is replaced or whose document is gone; any other
/// client fetches what a version of its document does not hold.
pub proof fn a_client_fetches_what_its_document_lacks(
    sink: &EngineChatSink,
    life: &Lifecycle,
    doc: Option<&loro::LoroDoc>,
    frontier: &[u8],
    r: bool,
)
    requires
        call_ensures(EngineChatSink::contains_frontier, (sink, life, doc, frontier), r),
    ensures
        life.frozen || life.generation != sink.client_generation || doc is None ==> r,
        !life.frozen && life.generation == sink.client_generation && doc is Some ==> exists|
            version: Map<u64, int>,
        | #[trigger]
            versions_of(*doc->0).contains(version) && r == is_held(version, frontier@),
{
    if !life.frozen && life.generation == sink.client_generation && doc is Some {
        let version = choose|version: Map<u64, int>| #[trigger]
            answered_from(*doc->0, version, frontier@, r);
        assert(answered_from(*doc->0, version, frontier@, r));
        held_is_held(version, frontier@);
        assert(versions_of(*doc->0).contains(version));
    }
}

// ---------------------------------------------------------------------------
// The room over HTTP
// ---------------------------------------------------------------------------

/// Rows and checkpoints lie under the edge's own address, in the part of the room's
/// generation.
pub proof fn a_room_has_its_generation_in_its_address(
    edge_url: String,
    edge_text: &str,
    chat_id: String,
    chat: &str,
    device_id: String,
    room_gen: u32,
    transport: EdgeChatTransport,
    rows: String,
    fetcher: EdgeCheckpointFetcher,
    base: Seq<char>,
    slashes: nat,
)
    requires
        edge_text@ == edge_url@ && chat@ == chat_id@,
        edge_url@ == base + repeated('/', slashes),
        base.len() > 0 ==> base.last() != '/',
        call_ensures(EdgeChatTransport::new, (edge_url, chat_id, device_id, room_gen), transport),
        call_ensures(EdgeChatTransport::rows_url, (&transport,), rows),
        call_ensures(EdgeCheckpointFetcher::new, (edge_text, chat, room_gen), fetcher),
    ensures
        room_gen >= 3 ==> rows@ == base + "/"@ + "chat3"@ + "/"@ + chat@ + "/rows"@,
        room_gen < 3 ==> rows@ == base + "/"@ + "chat2"@ + "/"@ + chat@ + "/rows"@,
        room_gen >= 3 ==> fetcher.url@ == base + "/"@ + "chat3"@ + "/"@ + chat@ + "/checkpoint"@,
        room_gen < 3 ==> fetcher.url@ == base + "/"@ + "chat2"@ + "/"@ + chat@ + "/checkpoint"@,
        transport.device_id == device_id,
        fetcher.got@.len() == 0 && fetcher.attempts == 0 && fetcher.seen_seq is None,
{
    slashes_are_known(edge_url@, base, slashes);
}

/// Only a 403 is a denial; a push whose code says so will never be accepted; anything else
/// may be tried again. Each says what was asked and what came back.
pub proof fn only_a_403_is_a_denial(
    operation: &str,
    status: u16,
    rows: SyncError,
    parsed: Option<Json>,
    found: Option<&Json>,
    push: SyncError,
)
    requires
        is_status_code(status),
        call_ensures(chat_rows_status_error, (operation, status), rows),
        call_ensures(push_error_of, (status, &parsed), push),
        parsed matches Some(value) ==> call_ensures(Json::get, (&value, "error"), found),
        parsed is None ==> found is None,
    ensures
        ({
            let line = status_text(status);
            let code = found is Some && found->0@ is Text;
            let never = code && (found->0@->Text_0 == "too_large"@ || found->0@->Text_0 == "empty"@
                || found->0@->Text_0 == "bad_push"@);
            &&& rows is AccessDenied <==> status == 403
            &&& rows is Protocol <==> status != 403
            &&& status == 403 ==> rows->AccessDenied_0@ == "chat "@ + operation@ + " http "@ + line
            &&& status != 403 ==> rows->Protocol_0@ == "chat "@ + operation@ + " http "@ + line
            &&& push is AccessDenied <==> status == 403
            &&& status == 403 ==> push->AccessDenied_0@ == "chat push http "@ + line
            &&& push is PushRejected <==> status != 403 && never
            &&& push is PushRejected ==> push->PushRejected_0@ == found->0@->Text_0
            &&& push is Protocol <==> status != 403 && !never
            &&& push is Protocol && code ==> push->Protocol_0@ == "chat push http "@ + line + ": "@
                + found->0@->Text_0
            &&& push is Protocol && !code ==> push->Protocol_0@ == "chat push http "@ + line
        }),
{
    if parsed is Some {
        assert(found is Some ==> crate::json::member(parsed->0@, "error"@) == Some(found->0@));
    }
}

/// A status is named by its number first.
pub proof fn a_status_is_named_by_its_number(status: u16, number: String)
    requires
        call_ensures(decimal, (status as u64,), number),
    ensures
        number@.is_prefix_of(status_text(status)),
{
    assert(status_text(status).take(number@.len() as int) =~= number@);
}

/// A download is tried four times, by someone who is signed in, and goes on at the byte
/// where it stopped.
pub proof fn a_download_goes_on_where_it_stopped(
    fetch: &mut EdgeCheckpointFetcher,
    signed_in: bool,
    r: FetchStep,
    place: String,
)
    requires
        call_ensures(EdgeCheckpointFetcher::attempt, (fetch, signed_in), r),
        old(fetch).got@.len() <= u64::MAX,
        call_ensures(decimal, (old(fetch).got@.len() as u64,), place),
    ensures
        r is Request <==> old(fetch).attempts < 4 && signed_in,
        r is Request ==> (r->range is Some <==> old(fetch).got@.len() > 0),
        r is Request && r->range is Some ==> r->range->0@ == "bytes="@ + place@ + "-"@,
        old(fetch).attempts >= 4 ==> r->Failed_0 is Protocol && r->Failed_0->Protocol_0@
            == "checkpoint fetch exhausted resume attempts"@,
        old(fetch).attempts < 4 && !signed_in ==> r->Failed_0 is Auth && r->Failed_0->Auth_0@
            == "signed out"@,
        old(fetch).attempts < 4 ==> final(fetch).attempts == old(fetch).attempts + 1,
        old(fetch).attempts >= 4 ==> final(fetch).attempts == old(fetch).attempts,
        final(fetch).got == old(fetch).got && final(fetch).seen_seq == old(fetch).seen_seq,
        final(fetch).url == old(fetch).url,
{
}

/// A download never splices two checkpoints: one whose mark changed starts over. A whole
/// response replaces what was read and a partial one goes on behind it.
pub proof fn a_download_never_splices_checkpoints(
    fetch: &mut EdgeCheckpointFetcher,
    seq: Option<String>,
    status: u16,
    r: FetchResponse,
    later: &mut EdgeCheckpointFetcher,
    bytes: &[u8],
    code: String,
)
    requires
        call_ensures(EdgeCheckpointFetcher::response, (fetch, seq, status), r),
        *old(later) == *final(fetch),
        call_ensures(EdgeCheckpointFetcher::chunk, (later, bytes), ()),
        call_ensures(decimal, (status as u64,), code),
    ensures
        final(later).url == old(fetch).url && final(later).attempts == old(fetch).attempts,
        final(later).seen_seq == final(fetch).seen_seq,
        final(later).got@ == final(fetch).got@ + bytes@,
        ({
            let other = seq is Some && old(fetch).seen_seq is Some && seq->0@ != old(fetch).seen_seq->0@;
            &&& other <==> r is Retry
            &&& other ==> final(fetch).got@.len() == 0
            &&& r is Read <==> !other && (status == 200 || status == 206)
            &&& r is Read && status == 200 ==> final(later).got@ == bytes@
            &&& r is Read && status == 206 ==> final(later).got@ == old(fetch).got@ + bytes@
            &&& seq is Some ==> final(fetch).seen_seq == seq
            &&& seq is None ==> final(fetch).seen_seq == old(fetch).seen_seq
            &&& r is Failed ==> final(fetch).got == old(fetch).got && r->Failed_0 is Protocol
            &&& r is Failed && status == 416 ==> r->Failed_0->Protocol_0@
                == "checkpoint range beyond end"@
            &&& r is Failed && status == 404 ==> r->Failed_0->Protocol_0@ == "no checkpoint"@
            &&& r is Failed && status != 416 && status != 404 ==> r->Failed_0->Protocol_0@
                == "checkpoint HTTP "@ + code@
        }),
{
    assert(Seq::<u8>::empty() + bytes@ =~= bytes@);
}

/// A refused push is read from its body: the same as where the body was parsed before.
pub proof fn a_push_is_refused_by_its_body(
    status: u16,
    body: &str,
    bytes: &[u8],
    parsed: Option<Json>,
    found: Option<&Json>,
    r: SyncError,
)
    requires
        is_status_code(status),
        call_ensures(chat_push_status_error, (status, body), r),
        bytes@ == encode_utf8(body@),
        call_ensures(Json::parse, (bytes,), parsed),
        parsed matches Some(value) ==> call_ensures(Json::get, (&value, "error"), found),
        parsed is None ==> found is None,
    ensures
        ({
            let line = status_text(status);
            let code = found is Some && found->0@ is Text;
            let never = code && (found->0@->Text_0 == "too_large"@ || found->0@->Text_0 == "empty"@
                || found->0@->Text_0 == "bad_push"@);
            &&& r is AccessDenied <==> status == 403
            &&& r is AccessDenied ==> r->AccessDenied_0@ == "chat push http "@ + line
            &&& r is PushRejected <==> status != 403 && never
            &&& r is PushRejected ==> r->PushRejected_0@ == found->0@->Text_0
            &&& r is Protocol && code ==> r->Protocol_0@ == "chat push http "@ + line + ": "@
                + found->0@->Text_0
            &&& r is Protocol && !code ==> r->Protocol_0@ == "chat push http "@ + line
        }),
{
    if parsed is Some {
        assert(found is Some ==> crate::json::member(parsed->0@, "error"@) == Some(found->0@));
    }
}

/// The whole log of a document is one of the writings of that document, and carries the
/// envelope that its readers ask for. Where the document cannot be written, its own words
/// say why.
pub proof fn a_whole_log_is_a_writing_of_its_document(
    doc: &loro::LoroDoc,
    r: Result<Blob, String>,
)
    requires
        call_ensures(full_log, (doc,), r),
    ensures
        r matches Ok(blob) ==> {
            &&& log_exports(*doc).contains(Ok::<Seq<u8>, Seq<char>>(blob@))
            &&& blob@.len() >= 22
            &&& blob@[0] == 0x6c && blob@[1] == 0x6f && blob@[2] == 0x72 && blob@[3] == 0x6f
        },
        r matches Err(e) ==> log_exports(*doc).contains(Err::<Seq<u8>, Seq<char>>(e@)),
{
    if r is Ok {
        let bytes = r->Ok_0@;
        let mark = seq![0x6cu8, 0x6fu8, 0x72u8, 0x6fu8];
        assert(bytes.take(4) == mark);
        assert(forall|i: int| 0 <= i < 4 ==> bytes[i] == #[trigger] bytes.take(4)[i]);
        assert(bytes.take(4)[0] == mark[0] && bytes.take(4)[1] == mark[1]);
        assert(bytes.take(4)[2] == mark[2] && bytes.take(4)[3] == mark[3]);
    }
}

} // verus!
