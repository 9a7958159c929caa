//! Laws of rooms: joining them, their checkpoints, and where they live.

use vstd::prelude::*;
use vstd::utf8::encode_utf8;

use crate::auth::types::EngineError;
use crate::chat::transport::SyncError;
use crate::encoding::{
    base64_round_trip, base64url_decode, percent_encoded, url_coding_round_trip, url_decode,
};
use crate::host::checkpoint::{
    bootstrap_look, chat2_maintenance, checkpoint_posted, spawn_chat2_checkpoint, wants_bootstrap,
    BootstrapLook, CheckpointRequest, CheckpointUpload, Maintenance, UploadLook, UploadOutcome,
};
use crate::host::edge::{
    blob_fetched, fetch_tool_blob, host_query, is_chat_char, is_part_char, read_blob_ref, room_path,
    upload_tool_sidecar, BlobReply, EdgeConfig, SidecarPut,
};
use crate::host::handle::{ChatDocHandle, CheckpointState};
use crate::host::join::{
    host_duty, AfterDial, DialOutcome, HostDuty, JoinedStep, RoomJoin, RoomNews, WaitEnd,
};
use crate::host::snapshots::ClientStats;
use crate::laws::sign_in::slashes_are_known;
use crate::laws::text::repeated;
use crate::text::{decimal, find_from, find_from_is_first, find_text, find_text_is_first, occurs_at};

verus! {

// ---------------------------------------------------------------------------
// Checkpoints
// ---------------------------------------------------------------------------

/// A request while an upload runs starts none, and the upload takes it next, under its
/// own reason; an upload ends only where nothing was asked for.
pub proof fn a_request_is_taken_by_the_upload_that_runs(
    state: &mut CheckpointState,
    reason: &'static str,
    start: bool,
    later: &mut CheckpointState,
    taken: Option<&'static str>,
    last: &mut CheckpointState,
    none: Option<&'static str>,
)
    requires
        call_ensures(CheckpointState::request, (state, reason), start),
        *old(later) == *final(state),
        call_ensures(CheckpointState::claim, (later,), taken),
        *old(last) == *final(later),
        call_ensures(CheckpointState::claim, (last,), none),
    ensures
        start <==> !old(state).running,
        final(state).running && final(state).requested,
        taken is Some && taken->0@ == reason@,
        final(later).running && !final(later).requested,
        none is None,
        !final(last).running && !final(last).requested,
{
}

/// An upload that was stopped runs no more and serves no request, as before the first.
pub proof fn a_stopped_upload_serves_nothing(state: &mut CheckpointState, new: CheckpointState)
    requires
        call_ensures(CheckpointState::stop, (state,), ()),
        call_ensures(CheckpointState::new, (), new),
    ensures
        !final(state).running && !final(state).requested,
        !new.running && !new.requested,
{
}

/// A checkpoint is asked for of an open document with an edge, and of no other.
pub proof fn an_open_document_gets_a_checkpoint(
    handle: &mut ChatDocHandle,
    edge: bool,
    reason: &'static str,
    start: bool,
)
    requires
        call_ensures(spawn_chat2_checkpoint, (handle, edge, reason), start),
    ensures
        ({
            let open = edge && !old(handle).generation_frozen && !old(handle).retired && !old(handle).purged;
            &&& start <==> open && !old(handle).checkpoint.running
            &&& open ==> final(handle).checkpoint.running && final(handle).checkpoint.requested
                && final(handle).checkpoint.reason@ == reason@
            &&& !open ==> *final(handle) == *old(handle)
            &&& *final(handle) == (ChatDocHandle {
                checkpoint: final(handle).checkpoint,
                ..*old(handle)
            })
        }),
{
}

/// An upload covers what its client had when it was looked at; it waits for a client that
/// cannot be read, and ends with its document.
pub proof fn an_upload_covers_what_it_saw(
    upload: &CheckpointUpload,
    handle: Option<&ChatDocHandle>,
    current: bool,
    stats: Option<ClientStats>,
    r: UploadLook,
    is_host: bool,
    post: bool,
)
    requires
        call_ensures(CheckpointUpload::look, (upload, handle, current, stats), r),
        call_ensures(CheckpointUpload::may_post, (upload, is_host, handle, current), post),
    ensures
        ({
            let open = handle is Some && current && !handle->0.generation_frozen
                && !handle->0.retired && !handle->0.purged;
            &&& r is Stop <==> !open
            &&& r is Busy <==> open && stats is None
            &&& r is Busy ==> r->Busy_0 == 25
            &&& r is Export <==> open && stats is Some
            &&& r is Export ==> r->seq_covered == stats->0.cursor && r->rejected_covered
                == stats->0.rejected
            &&& post <==> open && is_host
        }),
{
}

/// An upload is posted by a success, given up by a refusal of the host slot, and tried
/// again otherwise: after a quarter of a second, and then twice as long each time, up to
/// half a minute.
pub proof fn an_upload_is_tried_again(
    new: CheckpointUpload,
    upload: &mut CheckpointUpload,
    status: Option<u16>,
    r: UploadOutcome,
    other: &mut CheckpointUpload,
    wait: u64,
)
    requires
        call_ensures(CheckpointUpload::new, (), new),
        old(upload).backoff.cap == new.backoff.cap,
        old(other).backoff.cap == new.backoff.cap,
        call_ensures(CheckpointUpload::answered, (upload, status), r),
        call_ensures(CheckpointUpload::failed, (other,), wait),
    ensures
        new.backoff.current == 250,
        r is Posted <==> status is Some && 200 <= status->0 <= 299,
        r is GiveUp <==> status == Some(403u16),
        r matches UploadOutcome::Retry(w) ==> {
            &&& w == old(upload).backoff.current
            &&& w <= 15_000 ==> final(upload).backoff.current == 2 * w
            &&& w > 15_000 ==> final(upload).backoff.current == 30_000
        },
        !(r is Retry) ==> *final(upload) == *old(upload),
        wait == old(other).backoff.current,
        wait <= 15_000 ==> final(other).backoff.current == 2 * wait,
        wait > 15_000 ==> final(other).backoff.current == 30_000,
        new.backoff.base == 250 && new.backoff.cap == 30_000,
        final(upload).backoff.base == old(upload).backoff.base && final(upload).backoff.cap
            == old(upload).backoff.cap,
        final(other).backoff.base == old(other).backoff.base && final(other).backoff.cap == old(other).backoff.cap,
{
}

/// A checkpoint is posted to the chat's own address, as its host, with the number of rows
/// that it covers, and with the version that it reaches.
pub proof fn a_checkpoint_is_posted_to_its_chat(
    upload: &CheckpointUpload,
    edge: &EdgeConfig,
    chat_id: &str,
    covered: u64,
    frontier: &[u8],
    r: CheckpointRequest,
    number: String,
    base: Seq<char>,
    slashes: nat,
    header: &str,
    read: Option<Vec<u8>>,
)
    requires
        header@ == r.frontier@,
        call_ensures(base64url_decode, (header,), read),
        call_ensures(CheckpointUpload::request, (upload, edge, chat_id, covered, frontier), r),
        call_ensures(decimal, (covered,), number),
        edge.url@ == base + repeated('/', slashes),
        base.len() > 0 ==> base.last() != '/',
    ensures
        r.url@ == base + "/chat3/"@ + chat_id@ + "/checkpoint?seqCovered="@ + number@
            + "&role=host"@,
        read is Some && read->0@ == frontier@,
{
    slashes_are_known(edge.url@, base, slashes);
    base64_round_trip(frontier@, false, true);
}

/// What a checkpoint covers is never taken back.
pub proof fn what_is_covered_stays_covered(handle: &mut ChatDocHandle, covered: u64)
    requires
        call_ensures(checkpoint_posted, (handle, covered), ()),
    ensures
        final(handle).checkpointed_rejections >= covered,
        final(handle).checkpointed_rejections >= old(handle).checkpointed_rejections,
        final(handle).checkpointed_rejections == covered || final(handle).checkpointed_rejections
            == old(handle).checkpointed_rejections,
        *final(handle) == (ChatDocHandle {
            checkpointed_rejections: final(handle).checkpointed_rejections,
            ..*old(handle)
        }),
{
}

/// A host with an edge and a client publishes the tail each time, and asks for a
/// checkpoint past half a megabyte or two hundred rows. Nobody else does.
pub proof fn a_host_keeps_its_room_in_shape(
    handle: &ChatDocHandle,
    is_host: bool,
    stats: Option<ClientStats>,
    edge: bool,
    r: Maintenance,
)
    requires
        call_ensures(chat2_maintenance, (handle, is_host, stats, edge), r),
    ensures
        r.tail <==> !handle.retired && is_host && edge && stats is Some,
        r.checkpoint <==> r.tail && (stats->0.row_bytes > 524_288 || stats->0.row_count > 200),
{
}

/// A fresh room is asked every three seconds until it answers; it gets a checkpoint where
/// it has none and there is something to put into it.
pub proof fn a_fresh_room_gets_a_checkpoint(
    handle: Option<&ChatDocHandle>,
    stats: Option<ClientStats>,
    r: BootstrapLook,
    no_checkpoint: bool,
    entries: usize,
    wants: bool,
)
    requires
        call_ensures(bootstrap_look, (handle, stats), r),
        call_ensures(wants_bootstrap, (no_checkpoint, entries), wants),
    ensures
        ({
            let open = handle is Some && !handle->0.generation_frozen && !handle->0.retired
                && !handle->0.purged;
            let known = stats is Some && stats->0.server_known;
            &&& r is Stop <==> !open
            &&& r is Wait <==> open && !known
            &&& r is Wait ==> r->Wait_0 == 3_000
            &&& r is Known <==> open && known
            &&& r is Known ==> (r->no_checkpoint <==> stats->0.checkpoint_size == 0)
            &&& wants <==> no_checkpoint && entries > 0
        }),
{
}

// ---------------------------------------------------------------------------
// Joining
// ---------------------------------------------------------------------------

/// A join waits from its base on, twice as long after each wait that ran its course, up to
/// its cap; any good news starts over. A client is installed where there is still an
/// account and a document, for the generation that was dialed.
pub proof fn a_join_waits_longer_until_good_news(
    generation: u64,
    base_ms: u64,
    cap_ms: u64,
    new: RoomJoin,
    join: &mut RoomJoin,
    end: WaitEnd,
    outcome: DialOutcome,
    signed_in: bool,
    alive: bool,
    r: AfterDial,
)
    requires
        call_ensures(RoomJoin::new, (generation, base_ms, cap_ms), new),
        call_ensures(RoomJoin::waited, (join, end), ()),
        call_ensures(RoomJoin::dialed, (&*final(join), outcome, signed_in, alive), r),
    ensures
        new.client_generation == generation && new.backoff.current == base_ms && new.backoff.base
            == base_ms && new.backoff.cap == cap_ms,
        ({
            let wait = old(join).backoff.current;
            let cap = old(join).backoff.cap;
            &&& end == WaitEnd::Elapsed && wait + wait <= cap ==> final(join).backoff.current
                == wait + wait
            &&& end == WaitEnd::Elapsed && wait + wait > cap ==> final(join).backoff.current == cap
            &&& end != WaitEnd::Elapsed ==> final(join).backoff.current == old(join).backoff.base
            &&& final(join).backoff.base == old(join).backoff.base && final(join).backoff.cap == cap
            &&& final(join).client_generation == old(join).client_generation
        }),
        r is Wait <==> outcome != DialOutcome::Connected,
        r is Wait ==> r->Wait_0 == final(join).backoff.current,
        r is Install <==> outcome == DialOutcome::Connected && signed_in && alive,
        r is Install ==> r->generation == old(join).client_generation,
{
}

/// What a joined room reports ends a replay where rows were applied, and ends the
/// supervisor where the client is gone; without an account the room is left.
pub proof fn a_joined_room_is_left_without_an_account(
    join: &RoomJoin,
    news: RoomNews,
    r: JoinedStep,
    signed_in: bool,
    changed: JoinedStep,
)
    requires
        call_ensures(RoomJoin::joined_news, (join, news), r),
        call_ensures(RoomJoin::token_changed, (join, signed_in), changed),
    ensures
        r == JoinedStep::ClearReplay <==> news == RoomNews::Applied,
        r == JoinedStep::Stop <==> news == RoomNews::Closed,
        r == JoinedStep::Nothing <==> news != RoomNews::Applied && news != RoomNews::Closed,
        changed == JoinedStep::Park <==> !signed_in,
        changed == JoinedStep::Nothing <==> signed_in,
{
}

/// A room that was wiped, or that rejected a push, gets a checkpoint from its host, under
/// its own reason.
pub proof fn a_wiped_room_is_seeded(news: RoomNews, alive: bool, r: HostDuty)
    requires
        call_ensures(host_duty, (news, alive), r),
    ensures
        r is Checkpoint <==> alive && (news == RoomNews::ServerReset || news
            == RoomNews::PushRejected),
        r is Checkpoint && news == RoomNews::ServerReset ==> r->Checkpoint_0@ == "server-reset"@,
        r is Checkpoint && news == RoomNews::PushRejected ==> r->Checkpoint_0@
            == "push-rejected"@,
        r is Stop <==> news == RoomNews::Closed || (!alive && (news == RoomNews::ServerReset || news
            == RoomNews::PushRejected)),
{
}

// ---------------------------------------------------------------------------
// Addresses
// ---------------------------------------------------------------------------

/// A room is dialed at the edge's own address over a web socket, at its chat, with the
/// token of the moment and this device's name where it has one; a host says so. Without a
/// token it is not dialed.
pub proof fn a_room_is_dialed_at_the_edge(
    join: &RoomJoin,
    edge: &EdgeConfig,
    chat_id: &str,
    is_host: bool,
    token: Option<&str>,
    r: Result<String, SyncError>,
    rest: Seq<char>,
    slashes: nat,
)
    requires
        call_ensures(RoomJoin::dial_url, (join, edge, chat_id, is_host, token), r),
        edge.url@ == "http"@ + rest + repeated('/', slashes),
        rest.len() > 0 && rest.last() != '/',
    ensures
        r is Ok <==> token is Some,
        r is Err ==> r->Err_0 is Auth && r->Err_0->Auth_0@ == "no access token (signed out)"@,
        r is Ok ==> {
            let address = "ws"@ + rest + "/chat3/"@ + chat_id@ + "/ws?token="@ + token->0@;
            let named = if edge.device_id@.len() > 0 {
                address + "&device="@ + edge.device_id@
            } else {
                address
            };
            r->Ok_0@ == if is_host {
                named + "&role=host"@
            } else {
                named
            }
        },
{
    let url = edge.url@;
    let tail = rest + repeated('/', slashes);
    reveal_strlit("http");
    reveal_strlit("ws");
    reveal_strlit("");
    reveal_strlit("/ws");
    reveal_strlit("?token=");
    reveal_strlit("/ws?token=");
    assert(url =~= "http"@ + tail);
    assert(url.subrange(0, "http"@.len() as int) =~= "http"@);
    assert(occurs_at(url, "http"@, 0));
    find_text_is_first(url, "http"@, 0);
    assert(find_text(url, "http"@, 0) == Some(0int));
    let ws = crate::text::replaced_first(url, "http"@, "ws"@);
    assert(url.skip(4) =~= tail);
    assert(ws =~= "ws"@ + rest + repeated('/', slashes));
    assert(("ws"@ + rest).last() == rest.last());
    slashes_are_known(ws, "ws"@ + rest, slashes);
    if r is Ok {
        let address = "ws"@ + rest + "/chat3/"@ + chat_id@ + "/ws?token="@ + token->0@;
        let start = "ws"@ + rest + ("/chat3/"@ + chat_id@ + "/ws"@) + "?token="@ + token->0@;
        assert(start =~= address);
        if !is_host {
            assert(start + ""@ =~= start);
            assert(start + "&device="@ + edge.device_id@ + ""@ =~= start + "&device="@
                + edge.device_id@);
        }
    }
}

/// Everything of a chat lies under the edge's own address; the name of a part is read back
/// from its address.
pub proof fn each_thing_has_its_address(
    edge: &EdgeConfig,
    chat_id: &str,
    part_id: &str,
    device: &str,
    tail: String,
    nudge: String,
    health: String,
    blob: String,
    diff: String,
    base: Seq<char>,
    slashes: nat,
    segment: &str,
    decoded: String,
)
    requires
        call_ensures(EdgeConfig::tail_url, (edge, chat_id), tail),
        call_ensures(EdgeConfig::nudge_url, (edge, device), nudge),
        call_ensures(EdgeConfig::health_url, (edge,), health),
        call_ensures(EdgeConfig::blob_url, (edge, chat_id, part_id), blob),
        call_ensures(EdgeConfig::diff_url, (edge, chat_id, part_id), diff),
        edge.url@ == base + repeated('/', slashes),
        base.len() > 0 ==> base.last() != '/',
        segment@ == percent_encoded(encode_utf8(part_id@)),
        call_ensures(url_decode, (segment,), decoded),
    ensures
        tail@ == base + "/chat3/"@ + chat_id@ + "/tail"@,
        nudge@ == base + "/device/"@ + device@ + "/nudge"@,
        health@ == base + "/health"@,
        blob@ == base + "/blob/"@ + chat_id@ + "/"@ + segment@,
        diff@ == base + "/blob/"@ + chat_id@ + "/"@ + segment@ + ".diff"@,
        decoded@ == part_id@,
{
    slashes_are_known(edge.url@, base, slashes);
    url_coding_round_trip(part_id@);
}

/// An edge is its address, for no device in particular until one is named.
pub proof fn an_edge_is_its_address(url: String, device: String, r: EdgeConfig, named: EdgeConfig)
    requires
        call_ensures(EdgeConfig::new, (url,), r),
        call_ensures(EdgeConfig::with_device, (r, device), named),
    ensures
        r.url == url && r.device_id@.len() == 0,
        named.url == url && named.device_id == device,
{
}

/// A letter or digit of ASCII.
pub open spec fn is_plain(c: char) -> bool {
    'a' <= c <= 'z' || 'A' <= c <= 'Z' || '0' <= c <= '9'
}

/// A name that a chat can have in a reference.
pub open spec fn is_chat_name(s: Seq<char>) -> bool {
    1 <= s.len() <= 128 && forall|i: int|
        0 <= i < s.len() ==> is_plain(#[trigger] s[i]) || s[i] == '_' || s[i] == '-'
}

/// A name that a part can have in a reference.
pub open spec fn is_part_name(s: Seq<char>) -> bool {
    1 <= s.len() <= 200 && forall|i: int|
        0 <= i < s.len() ==> is_plain(#[trigger] s[i]) || s[i] == '.' || s[i] == '_' || s[i] == ':'
            || s[i] == '#' || s[i] == '~' || s[i] == '-'
}

/// A reference is a chat, a slash and a part; what is not is refused, and what is names
/// exactly these.
pub proof fn a_reference_is_a_chat_and_a_part(
    reference: &str,
    r: Option<(String, String)>,
    chat: Seq<char>,
    part: Seq<char>,
)
    requires
        call_ensures(read_blob_ref, (reference,), r),
        reference@ == chat + seq!['/'] + part,
        !chat.contains('/'),
    ensures
        r is Some <==> is_chat_name(chat) && is_part_name(part),
        r matches Some((c, p)) ==> c@ == chat && p@ == part,
{
    let s = reference@;
    let n = chat.len() as int;
    find_from_is_first(s, '/', 0);
    let at = find_from(s, '/', 0);
    assert(s[n] == '/');
    assert(at == n) by {
        if at < n {
            assert(s[at] == chat[at]);
            assert(chat.contains('/'));
        }
    }
    assert(s.contains('/'));
    assert(s.take(at) =~= chat);
    assert(s.skip(at + 1) =~= part);
    assert((forall|i: int| 0 <= i < chat.len() ==> is_chat_char(#[trigger] chat[i])) == (forall|
        i: int,
    |
        0 <= i < chat.len() ==> is_plain(#[trigger] chat[i]) || chat[i] == '_' || chat[i] == '-'))
        by {
        if forall|i: int| 0 <= i < chat.len() ==> is_chat_char(#[trigger] chat[i]) {
            assert forall|i: int| 0 <= i < chat.len() implies is_plain(#[trigger] chat[i])
                || chat[i] == '_' || chat[i] == '-' by {
                assert(is_chat_char(chat[i]));
            }
        }
    }
    if forall|i: int| 0 <= i < part.len() ==> is_part_char(#[trigger] part[i]) {
        assert forall|i: int| 0 <= i < part.len() implies is_plain(#[trigger] part[i]) || part[i]
            == '.' || part[i] == '_' || part[i] == ':' || part[i] == '#' || part[i] == '~'
            || part[i] == '-' by {
            assert(is_part_char(part[i]));
        }
    }
}

/// What holds no slash is no reference.
pub proof fn a_reference_has_a_slash(reference: &str, r: Option<(String, String)>)
    requires
        call_ensures(read_blob_ref, (reference,), r),
        !reference@.contains('/'),
    ensures
        r is None,
{
}

/// A blob is fetched from where its reference says, with an edge and an account; what is
/// missing first is reported.
pub proof fn a_blob_is_fetched_by_its_reference(
    edge: Option<EdgeConfig>,
    signed_in: bool,
    reference: &str,
    named: Option<(String, String)>,
    r: Result<String, EngineError>,
    chat: &str,
    part: &str,
    address: String,
)
    requires
        call_ensures(read_blob_ref, (reference,), named),
        call_ensures(fetch_tool_blob, (&edge, signed_in, reference), r),
        named matches Some((c, p)) ==> chat@ == c@ && part@ == p@,
        edge matches Some(e) ==> call_ensures(EdgeConfig::blob_url, (&e, chat, part), address),
    ensures
        r is Ok <==> named is Some && edge is Some && signed_in,
        r is Ok ==> r->Ok_0@ == address@,
        named is None ==> r->Err_0.text() == "bad blob ref: "@ + reference@,
        named is Some && edge is None ==> r->Err_0.text() == "offline: no edge configured"@,
        named is Some && edge is Some && !signed_in ==> r->Err_0.text() == "signed out"@,
{
}

/// Only a body is a success, and every failure says what failed.
pub proof fn only_a_body_is_a_blob(reply: BlobReply, r: Result<String, EngineError>, code: String)
    requires
        call_ensures(blob_fetched, (reply,), r),
        reply matches BlobReply::Status(status) ==> call_ensures(decimal, (status as u64,), code),
    ensures
        r is Ok <==> reply is Body,
        reply is Body ==> r->Ok_0 == reply->Body_0,
        reply is Failed ==> r->Err_0.text() == "sidecar fetch failed: "@ + reply->Failed_0@,
        reply is Status ==> r->Err_0.text() == "sidecar fetch: HTTP "@ + code@,
        reply is BodyFailed ==> r->Err_0.text() == "sidecar body read failed: "@
            + reply->BodyFailed_0@,
{
}

/// The output of a tool goes to its blob as text, and its diff beside it as JSON; what is
/// not there is not sent.
pub proof fn a_result_goes_to_its_blob(
    edge: &EdgeConfig,
    chat_id: &str,
    part_id: &str,
    output: Option<&str>,
    diff: Option<Vec<u8>>,
    r: Vec<SidecarPut>,
    blob: String,
    beside: String,
)
    requires
        call_ensures(upload_tool_sidecar, (edge, chat_id, part_id, output, diff), r),
        call_ensures(EdgeConfig::blob_url, (edge, chat_id, part_id), blob),
        call_ensures(EdgeConfig::diff_url, (edge, chat_id, part_id), beside),
    ensures
        output is None && diff is None ==> r@.len() == 0,
        output is Some != diff is Some ==> r@.len() == 1,
        output is Some && diff is Some ==> r@.len() == 2,
        output is Some ==> r@[0].url@ == blob@ && r@[0].content_type@
            == "text/plain; charset=utf-8"@ && r@[0].body@ == encode_utf8(output->0@),
        diff is Some ==> r@.last().url@ == beside@ && r@.last().content_type@
            == "application/json"@ && r@.last().body@ == diff->0@,
{
}

/// Every address of a room is that of its path, with the token, the device where it has a
/// name, and what is asked for behind them, in this order. A room is at its chat's own
/// path, and only a host claims to be one.
pub proof fn a_room_address_is_made_in_order(
    edge: &EdgeConfig,
    path: &str,
    extra: &str,
    token: Option<&str>,
    plain: Result<String, SyncError>,
    r: Result<String, SyncError>,
    chat_id: &str,
    room: String,
    host: &'static str,
    guest: &'static str,
    seq: u64,
    number: String,
    checkpoint: String,
    rest: Seq<char>,
    slashes: nat,
)
    requires
        call_ensures(EdgeConfig::room_url, (edge, path, token), plain),
        call_ensures(EdgeConfig::room_url_with, (edge, path, extra, token), r),
        call_ensures(room_path, (chat_id,), room),
        call_ensures(host_query, (true,), host),
        call_ensures(host_query, (false,), guest),
        call_ensures(decimal, (seq,), number),
        call_ensures(EdgeConfig::checkpoint_url, (edge, chat_id, seq), checkpoint),
        edge.url@ == "http"@ + rest + repeated('/', slashes),
        rest.len() > 0 && rest.last() != '/',
    ensures
        room@ == "/chat3/"@ + chat_id@ + "/ws"@,
        host@ == "&role=host"@,
        guest@.len() == 0,
        checkpoint@ == "http"@ + rest + "/chat3/"@ + chat_id@ + "/checkpoint?seqCovered="@ + number@
            + "&role=host"@,
        plain is Ok <==> token is Some,
        r is Ok <==> token is Some,
        r is Err ==> r->Err_0 is Auth && r->Err_0->Auth_0@ == "no access token (signed out)"@,
        r is Ok ==> {
            let address = "ws"@ + rest + path@ + "?token="@ + token->0@;
            &&& edge.device_id@.len() > 0 ==> plain->Ok_0@ == address + "&device="@
                + edge.device_id@
            &&& edge.device_id@.len() == 0 ==> plain->Ok_0@ == address
            &&& r->Ok_0@ == plain->Ok_0@ + extra@
        },
{
    reveal_strlit("");
    reveal_strlit("http");
    reveal_strlit("ws");
    let url = edge.url@;
    let tail = rest + repeated('/', slashes);
    assert(url =~= "http"@ + tail);
    assert(url.subrange(0, "http"@.len() as int) =~= "http"@);
    assert(occurs_at(url, "http"@, 0));
    find_text_is_first(url, "http"@, 0);
    assert(find_text(url, "http"@, 0) == Some(0int));
    let ws = crate::text::replaced_first(url, "http"@, "ws"@);
    assert(url.skip(4) =~= tail);
    assert(ws =~= "ws"@ + rest + repeated('/', slashes));
    assert(("ws"@ + rest).last() == rest.last());
    slashes_are_known(ws, "ws"@ + rest, slashes);
    assert(("http"@ + rest).last() == rest.last());
    slashes_are_known(url, "http"@ + rest, slashes);
    assert(guest@ =~= ""@);
}

} // verus!
