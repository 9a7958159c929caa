//! Laws of commands on their way to their host.

use vstd::prelude::*;

use crate::encoding::base64_text;
use crate::host::backoff::Backoff;
use crate::host::commands::{
    command_transfers, issuing_user, marked_texts, missing_attachments, new_entry, nudge_remote_host,
    pending_refs, queue_command, remote_host_for, revives, AttachmentTransfer, CommandOrigin,
    Nudge, SessionCommandEntry, SessionCommandPayload, SessionCommandStatus,
};
use crate::host::delivery::{
    attachment_committed, bytes_missing, chunk_params, chunk_pushed, chunks_from, commit_params,
    drops_link, link_failure, may_push, no_link, relay_command, relay_params, rows_flushed,
    upload_chunks, AfterPush, AfterRelay, CallOutcome, Escort, EscortStep, Transfer,
    TransferError,
};
use crate::host::edge::EdgeConfig;
use crate::host::handle::{ChatDocHandle, DocError};
use crate::host::snapshots::ClientStats;
use crate::json::{Json, JsonView};
use crate::laws::sign_in::slashes_are_known;
use crate::laws::text::repeated;
use crate::rows::Chat;
use crate::text::{decimal, texts};

verus! {

/// A queued command is pending, of this device and this moment, on top of the message
/// that its sender saw last, and good for exactly its time to live.
pub proof fn a_queued_command_is_good_for_its_time(
    handle: &ChatDocHandle,
    id: String,
    payload: SessionCommandPayload,
    user_id: Option<String>,
    origin: Option<CommandOrigin>,
    last_message: Option<String>,
    now: i64,
    ttl: i64,
    r: Result<SessionCommandEntry, DocError>,
)
    requires
        i64::MIN <= now + ttl <= i64::MAX,
        call_ensures(
            queue_command,
            (handle, id, payload, user_id, origin, last_message, now, ttl),
            r,
        ),
    ensures
        r is Ok <==> !handle.closed(),
        r matches Ok(entry) ==> {
            &&& entry.id == id && entry.payload == payload
            &&& entry.issued_by@ == handle.device_id@
            &&& entry.issued_at == now
            &&& entry.user_id == user_id && entry.origin == origin
            &&& entry.based_on == last_message
            &&& entry.expires_at is Some && entry.expires_at->0 - now == ttl
            &&& entry.status == SessionCommandStatus::Pending
            &&& entry.resolution is None
        },
        r matches Err(e) ==> e is Schema && e->Schema_0@ == "chat "@ + handle.chat_id@
            + " is frozen for room-generation cutover"@,
{
}

/// A command of nobody names nobody.
pub proof fn a_command_names_its_user(user_id: &str, r: Option<String>)
    requires
        call_ensures(issuing_user, (user_id,), r),
    ensures
        r is Some <==> user_id@.len() > 0,
        r is Some ==> r->0@ == user_id@,
{
}

/// A run or a steer takes its chat out of the archive; nothing else does.
pub proof fn a_message_revives_its_chat(payload: &SessionCommandPayload, chat: Option<Chat>, r: bool)
    requires
        call_ensures(revives, (payload, &chat), r),
    ensures
        r <==> (payload is Run || payload is Steer) && chat is Some && chat->0.archived,
{
}

/// A nudge goes to the device that hosts the chat, where that is another one and there is
/// an edge, and names the chat.
pub proof fn a_nudge_goes_to_the_other_host(
    edge: Option<EdgeConfig>,
    chat: Option<Chat>,
    device_id: &str,
    chat_id: &str,
    host: Option<String>,
    r: Option<Nudge>,
    base: Seq<char>,
    slashes: nat,
)
    requires
        call_ensures(remote_host_for, (&chat, device_id), host),
        call_ensures(nudge_remote_host, (&edge, &chat, device_id, chat_id), r),
        edge is Some ==> edge->0.url@ == base + repeated('/', slashes),
        base.len() > 0 ==> base.last() != '/',
    ensures
        host is Some <==> chat is Some && chat->0.device_id@ != device_id@,
        host is Some ==> host->0@ == chat->0.device_id@,
        r is Some <==> edge is Some && host is Some,
        r is Some ==> r->0.url@ == base + "/device/"@ + chat->0.device_id@ + "/nudge"@,
        r is Some ==> r->0.body@ is Object && r->0.body@->Object_0.len() == 1
            && r->0.body@->Object_0[0] == ("chatId"@, JsonView::Text(chat_id@)),
{
    if edge is Some {
        slashes_are_known(edge->0.url@, base, slashes);
    }
}

proof fn later_marks_do_not_matter(items: Seq<Seq<char>>, marked: Seq<bool>, more: bool)
    requires
        items.len() <= marked.len(),
    ensures
        marked_texts(items, marked.push(more)) == marked_texts(items, marked),
    decreases items.len(),
{
    if items.len() > 0 {
        later_marks_do_not_matter(items.drop_last(), marked, more);
        assert(marked.push(more)[items.len() - 1] == marked[items.len() - 1]);
    }
}

/// What has to be on the host before a run can start is read off its attachments one by
/// one: one more attachment is one more of them exactly where it is marked, behind those
/// before it. Without attachments there is none.
pub proof fn attachments_are_picked_one_by_one(
    less: &SessionCommandPayload,
    more: &SessionCommandPayload,
    marked: &Vec<bool>,
    more_marked: &Vec<bool>,
    in_prompt: Vec<String>,
    r: Vec<String>,
    more_r: Vec<String>,
    last: String,
    mark: bool,
)
    requires
        less is Run && more is Run,
        more->Run_request.attachments@ == less->Run_request.attachments@.push(last),
        marked@.len() == less->Run_request.attachments@.len(),
        more_marked@ == marked@.push(mark),
        call_ensures(pending_refs, (less, marked, in_prompt), r),
        call_ensures(pending_refs, (more, more_marked, in_prompt), more_r),
    ensures
        less->Run_request.attachments@.len() == 0 ==> r@.len() == 0,
        mark ==> texts(more_r@) == texts(r@).push(last@),
        !mark ==> texts(more_r@) == texts(r@),
{
    let items = texts(less->Run_request.attachments@);
    let all = texts(more->Run_request.attachments@);
    assert(all.drop_last() =~= items);
    later_marks_do_not_matter(items, marked@, mark);
    assert(texts(r@).len() == r@.len());
}

/// A steer waits for exactly what its prompt names, and nothing else waits for anything.
pub proof fn a_steer_waits_for_what_its_prompt_names(
    payload: &SessionCommandPayload,
    marked: &Vec<bool>,
    in_prompt: Vec<String>,
    r: Vec<String>,
)
    requires
        call_ensures(pending_refs, (payload, marked, in_prompt), r),
    ensures
        payload is Steer ==> texts(r@) == texts(in_prompt@),
        payload is Interrupt || payload is RespondInput ==> r@.len() == 0,
{
    assert(texts(r@).len() == r@.len());
}

/// What is missing is what has not landed, in order; without an uploads store nothing is
/// missing.
pub proof fn what_has_not_landed_is_missing(
    refs: Vec<String>,
    more: Vec<String>,
    landed: &Vec<bool>,
    more_landed: &Vec<bool>,
    uploads: bool,
    r: Vec<String>,
    more_r: Vec<String>,
    last: String,
    here: bool,
)
    requires
        landed@.len() == refs@.len(),
        more@ == refs@.push(last),
        more_landed@ == landed@.push(here),
        call_ensures(missing_attachments, (refs, uploads, landed), r),
        call_ensures(missing_attachments, (more, uploads, more_landed), more_r),
    ensures
        refs@.len() == 0 || !uploads ==> r@.len() == 0,
        uploads && !here ==> texts(more_r@) == texts(r@).push(last@),
        uploads && here ==> texts(more_r@) == texts(r@),
{
    let missing = landed@.map_values(|l: bool| !l);
    assert(more_landed@.map_values(|l: bool| !l) =~= missing.push(!here));
    assert(texts(more@).drop_last() =~= texts(refs@));
    later_marks_do_not_matter(texts(refs@), missing, !here);
    assert(texts(r@).len() == r@.len());
}

/// Each reference that names an upload is one transfer of it, in order.
pub proof fn each_upload_is_one_transfer(
    names: &Vec<Option<(String, String)>>,
    more: &Vec<Option<(String, String)>>,
    last: Option<(String, String)>,
    r: Vec<AttachmentTransfer>,
    more_r: Vec<AttachmentTransfer>,
)
    requires
        more@ == names@.push(last),
        call_ensures(command_transfers, (names,), r),
        call_ensures(command_transfers, (more,), more_r),
    ensures
        names@.len() == 0 ==> r@.len() == 0,
        last is None ==> more_r@ == r@,
        last matches Some((upload, file)) ==> more_r@.len() == r@.len() + 1 && more_r@.drop_last()
            == r@ && more_r@.last().upload_id == upload && more_r@.last().file_name == file,
{
    assert(more@.drop_last() =~= names@);
    if last is Some {
        assert(more_r@.drop_last() =~= r@);
    }
}

// ---------------------------------------------------------------------------
// Waits
// ---------------------------------------------------------------------------

/// A wait starts at its base, doubles after each use and stops at its cap.
pub proof fn a_wait_doubles_after_each_use(wait: &mut Backoff, r: u64)
    requires
        call_ensures(Backoff::next_wait, (wait,), r),
    ensures
        r == old(wait).current,
        final(wait).base == old(wait).base && final(wait).cap == old(wait).cap,
        final(wait).current <= old(wait).cap,
        r + r <= old(wait).cap ==> final(wait).current == r + r,
        r + r > old(wait).cap ==> final(wait).current == old(wait).cap,
{
}

/// A wait that starts over is as long as the first, and its bounds stay.
pub proof fn a_wait_starts_over(wait: &mut Backoff, base: u64, cap: u64, r: Backoff)
    requires
        call_ensures(Backoff::reset, (wait,), ()),
        call_ensures(Backoff::new, (base, cap), r),
    ensures
        final(wait).current == old(wait).base,
        final(wait).base == old(wait).base && final(wait).cap == old(wait).cap,
        r.base == base && r.cap == cap && r.current == base,
{
}

/// A command gets ten seconds of the normal road, looked at every second, before the
/// second road opens; the second road is tried after five seconds, then ten, twenty and
/// thirty, until fifteen minutes are over.
pub proof fn an_escort_keeps_its_times(
    start: u64,
    escort: Escort,
    now: u64,
    flushed: bool,
    look: EscortStep,
    running: &mut Escort,
    delivered: bool,
    after: AfterRelay,
)
    requires
        start + 900_000 <= u64::MAX,
        call_ensures(Escort::new, (start,), escort),
        call_ensures(Escort::look, (&escort, now, flushed), look),
        old(running).grace_end == escort.grace_end && old(running).give_up_at == escort.give_up_at,
        old(running).backoff.cap == escort.backoff.cap,
        call_ensures(Escort::relayed, (running, delivered, now), after),
    ensures
        escort.backoff.current == 5_000,
        look is Done <==> flushed,
        look is Poll <==> !flushed && now < start + 10_000,
        look is Poll ==> look->Poll_0 == 1_000,
        look is Relay <==> !flushed && now >= start + 10_000,
        after is Delivered <==> delivered,
        after is GaveUp <==> !delivered && now >= start + 900_000,
        after matches AfterRelay::Wait(wait) ==> {
            &&& wait == old(running).backoff.current
            &&& wait <= 15_000 ==> final(running).backoff.current == 2 * wait
            &&& wait > 15_000 ==> final(running).backoff.current == 30_000
            &&& final(running).backoff.cap == 30_000
        },
        final(running).grace_end == old(running).grace_end && final(running).give_up_at == old(running).give_up_at,
        !(after is Wait) ==> *final(running) == *old(running),
{
}

/// The rows are on the edge when a client is connected and nothing of it is under way.
pub proof fn rows_are_flushed_when_nothing_is_under_way(stats: Option<ClientStats>, r: bool)
    requires
        call_ensures(rows_flushed, (stats,), r),
    ensures
        r <==> stats is Some && stats->0.connected && stats->0.pending_pushes == 0,
{
}

/// A link is dropped where a call on it got no answer, and kept where the host refused.
pub proof fn a_silent_link_is_dropped(outcome: &CallOutcome, r: bool, failure: Result<&'static str, String>)
    requires
        call_ensures(drops_link, (outcome,), r),
        call_ensures(relay_command, (outcome,), failure),
    ensures
        r <==> outcome is TimedOut || outcome is Failed,
        failure is Ok <==> outcome is Reply,
        outcome is TimedOut ==> failure->Err_0@ == "relay call timed out; peer link suspect"@,
        outcome is Refused ==> failure->Err_0@ == "host refused: "@ + outcome->Refused_0@,
        outcome is Failed ==> failure->Err_0@ == "relay call failed: "@ + outcome->Failed_0@,
{
}

/// A host's reply means the outcome that it names where that is a known one, and that it
/// was accepted otherwise.
pub proof fn a_reply_means_what_it_names(
    outcome: &CallOutcome,
    found: Option<&Json>,
    r: Result<&'static str, String>,
)
    requires
        outcome is Reply,
        call_ensures(Json::get, (&outcome->Reply_0, "outcome"), found),
        call_ensures(relay_command, (outcome,), r),
    ensures
        ({
            let known = found is Some && found->0@ is Text && (found->0@->Text_0 == "executed"@
                || found->0@->Text_0 == "duplicate"@ || found->0@->Text_0 == "expired"@
                || found->0@->Text_0 == "superseded"@);
            &&& r is Ok
            &&& known ==> r->Ok_0@ == found->0@->Text_0
            &&& !known ==> r->Ok_0@ == "accepted"@
        }),
{
}

/// A forwarded command names its chat and carries its entry as it is.
pub proof fn a_forwarded_command_carries_its_entry(chat_id: &str, entry: Json, r: Json)
    requires
        call_ensures(relay_params, (chat_id, entry), r),
    ensures
        r@ is Object && r@->Object_0.len() == 2,
        r@->Object_0[0] == ("chatId"@, JsonView::Text(chat_id@)),
        r@->Object_0[1] == ("entry"@, entry@),
{
}

/// A failed transfer is tried again after two seconds, then four, eight, sixteen and
/// thirty, until fifteen minutes are over; what will never work is not tried again.
pub proof fn a_transfer_keeps_its_times(
    start: u64,
    transfer: Transfer,
    running: &mut Transfer,
    result: Result<(), TransferError>,
    now: u64,
    after: AfterPush,
)
    requires
        start + 900_000 <= u64::MAX,
        call_ensures(Transfer::new, (start,), transfer),
        old(running).deadline == transfer.deadline,
        old(running).backoff.cap == transfer.backoff.cap,
        call_ensures(Transfer::pushed, (running, &result, now), after),
    ensures
        transfer.backoff.current == 2_000,
        after is Delivered <==> result is Ok,
        after is GaveUp <==> result is Err && (result->Err_0 is Permanent || now >= start
            + 900_000),
        after matches AfterPush::Wait(wait) ==> {
            &&& wait == old(running).backoff.current
            &&& wait <= 15_000 ==> final(running).backoff.current == 2 * wait
            &&& wait > 15_000 ==> final(running).backoff.current == 30_000
            &&& final(running).backoff.cap == 30_000
        },
        final(running).deadline == old(running).deadline,
        !(after is Wait) ==> *final(running) == *old(running),
{
}

/// What may heal is tried again: a link that could not be had, a call that timed out or
/// failed. What cannot is not: a store that is not there, bytes that are gone, a host that
/// refused.
pub proof fn only_what_may_heal_is_tried_again(
    links: bool,
    uploads: bool,
    may: Result<(), TransferError>,
    cause: &str,
    link: TransferError,
    bytes: TransferError,
    refused: String,
    outcome: &CallOutcome,
    chunk: Result<(), TransferError>,
    commit: Result<(), TransferError>,
)
    requires
        call_ensures(may_push, (links, uploads), may),
        call_ensures(no_link, (cause,), link),
        call_ensures(bytes_missing, (cause,), bytes),
        call_ensures(link_failure, (links, cause), refused),
        call_ensures(chunk_pushed, (outcome,), chunk),
        call_ensures(attachment_committed, (outcome,), commit),
    ensures
        may is Ok <==> links && uploads,
        may is Err ==> may->Err_0 is Permanent,
        !links ==> may->Err_0->Permanent_0@ == "peer links not wired"@ && refused@
            == "peer links not wired"@,
        links && !uploads ==> may->Err_0->Permanent_0@ == "uploads not wired"@,
        links ==> refused@ == "peer link: "@ + cause@,
        link is Transient && link->Transient_0@ == "peer link: "@ + cause@,
        bytes is Permanent && bytes->Permanent_0@ == "staged attachment missing: "@ + cause@,
        chunk is Ok <==> outcome is Reply,
        commit is Ok <==> outcome is Reply,
        outcome is Refused ==> chunk->Err_0 is Permanent && chunk->Err_0->Permanent_0@
            == "host refused chunk: "@ + outcome->Refused_0@ && commit->Err_0 is Permanent
            && commit->Err_0->Permanent_0@ == "host refused commit: "@ + outcome->Refused_0@,
        outcome is Failed ==> chunk->Err_0 is Transient && chunk->Err_0->Transient_0@
            == "chunk push failed: "@ + outcome->Failed_0@ && commit->Err_0 is Transient
            && commit->Err_0->Transient_0@ == "commit failed: "@ + outcome->Failed_0@,
        outcome is TimedOut ==> chunk->Err_0 is Transient && chunk->Err_0->Transient_0@
            == "chunk push timed out; peer link suspect"@ && commit->Err_0 is Transient
            && commit->Err_0->Transient_0@ == "commit timed out; peer link suspect"@,
{
}

/// The texts one behind the other.
pub open spec fn in_turn(parts: Seq<Seq<char>>) -> Seq<char>
    decreases parts.len(),
{
    if parts.len() == 0 {
        Seq::empty()
    } else {
        in_turn(parts.drop_last()) + parts.last()
    }
}

proof fn one_more_in_front(first: Seq<char>, rest: Seq<Seq<char>>)
    ensures
        in_turn(seq![first] + rest) == first + in_turn(rest),
    decreases rest.len(),
{
    let all = seq![first] + rest;
    if rest.len() == 0 {
        assert(all.drop_last() =~= Seq::<Seq<char>>::empty());
        reveal_with_fuel(in_turn, 2);
        assert(in_turn(all) =~= first);
        assert(in_turn(rest) =~= Seq::<char>::empty());
        assert(first + in_turn(rest) =~= first);
    } else {
        assert(all.drop_last() =~= seq![first] + rest.drop_last());
        one_more_in_front(first, rest.drop_last());
        assert(in_turn(all) =~= first + in_turn(rest));
    }
}

proof fn chunks_come_in_turn(s: Seq<char>, from: int)
    requires
        0 <= from <= s.len(),
    ensures
        ({
            let chunks = chunks_from(s, from, 60_000);
            &&& in_turn(chunks) == s.skip(from)
            &&& chunks.len() > 0
            &&& chunks.last().len() <= 60_000
            &&& chunks.len() > 1 ==> chunks.last().len() > 0
            &&& forall|i: int| 0 <= i < chunks.len() - 1 ==> (#[trigger] chunks[i]).len() == 60_000
        }),
    decreases s.len() - from,
{
    let chunks = chunks_from(s, from, 60_000);
    if from + 60_000 >= s.len() {
        one_more_in_front(s.skip(from), Seq::empty());
        assert(chunks =~= seq![s.skip(from)] + Seq::<Seq<char>>::empty());
        assert(in_turn(chunks) =~= s.skip(from));
    } else {
        let rest = chunks_from(s, from + 60_000, 60_000);
        chunks_come_in_turn(s, from + 60_000);
        one_more_in_front(s.subrange(from, from + 60_000), rest);
        assert(s.subrange(from, from + 60_000) + s.skip(from + 60_000) =~= s.skip(from));
        assert forall|i: int| 0 <= i < chunks.len() - 1 implies (#[trigger] chunks[i]).len()
            == 60_000 by {
            if i > 0 {
                assert(chunks[i] == rest[i - 1]);
            }
        }
        assert(chunks.last() == rest.last());
    }
}

/// The chunks of an attachment, one behind the other, are its Base64 text; each but the
/// last is sixty thousand characters long, and the last is not longer. There is always
/// one, and it is empty only where it is the only one.
pub proof fn an_attachment_is_cut_into_equal_chunks(bytes: &[u8], text: Seq<char>, r: Vec<String>)
    requires
        text == base64_text(bytes@, '+', '/', true),
        call_ensures(upload_chunks, (bytes,), r),
    ensures
        in_turn(texts(r@)) == text,
        r@.len() > 0,
        r@.last()@.len() <= 60_000,
        r@.len() > 1 ==> r@.last()@.len() > 0,
        forall|i: int| 0 <= i < r@.len() - 1 ==> (#[trigger] r@[i])@.len() == 60_000,
{
    chunks_come_in_turn(text, 0);
    assert(text.skip(0) =~= text);
    assert(texts(r@).len() == r@.len());
    assert(texts(r@).last() == r@.last()@);
    assert forall|i: int| 0 <= i < r@.len() - 1 implies (#[trigger] r@[i])@.len() == 60_000 by {
        assert(texts(r@)[i] == r@[i]@);
    }
}

/// A chunk names its upload, its place and its data; a commit its upload and its file.
pub proof fn a_chunk_names_its_place(
    upload_id: &str,
    seq: u32,
    data: &str,
    place: String,
    chunk: Json,
    file_name: &str,
    commit: Json,
)
    requires
        call_ensures(chunk_params, (upload_id, seq, data), chunk),
        call_ensures(commit_params, (upload_id, file_name), commit),
        call_ensures(decimal, (seq as u64,), place),
    ensures
        chunk@ is Object && chunk@->Object_0.len() == 3,
        chunk@->Object_0[0] == ("uploadId"@, JsonView::Text(upload_id@)),
        chunk@->Object_0[1].0 == "seq"@ && chunk@->Object_0[1].1 == JsonView::Number(place@),
        chunk@->Object_0[2] == ("data"@, JsonView::Text(data@)),
        commit@ is Object && commit@->Object_0.len() == 2,
        commit@->Object_0[0] == ("uploadId"@, JsonView::Text(upload_id@)),
        commit@->Object_0[1] == ("fileName"@, JsonView::Text(file_name@)),
{
}

/// A message is carried by a run and by a steer, and named by the id that they give it.
pub proof fn a_message_is_carried_by_runs_and_steers(
    payload: &SessionCommandPayload,
    r: bool,
    id: Option<&str>,
)
    requires
        call_ensures(SessionCommandPayload::is_message, (payload,), r),
        call_ensures(SessionCommandPayload::message_id, (payload,), id),
    ensures
        r <==> payload is Run || payload is Steer,
        payload is Run ==> id is Some && id->0@ == payload->Run_message_id@,
        payload is Steer ==> (id is Some) == (payload->Steer_message_id is Some),
        payload is Steer && id is Some ==> id->0@ == payload->Steer_message_id->0@,
        !(payload is Run || payload is Steer) ==> id is None,
{
}

/// A new command is pending, of its device and its moment, and good for its time to live.
pub proof fn a_new_command_is_pending(
    id: String,
    payload: SessionCommandPayload,
    user_id: Option<String>,
    origin: Option<CommandOrigin>,
    device_id: &str,
    last_message: Option<String>,
    now: i64,
    ttl: i64,
    r: SessionCommandEntry,
)
    requires
        i64::MIN <= now + ttl <= i64::MAX,
        call_ensures(
            new_entry,
            (id, payload, user_id, origin, device_id, last_message, now, ttl),
            r,
        ),
    ensures
        r.id == id && r.payload == payload && r.user_id == user_id && r.origin == origin,
        r.issued_by@ == device_id@ && r.issued_at == now && r.based_on == last_message,
        r.expires_at is Some && r.expires_at->0 == now + ttl,
        r.status == SessionCommandStatus::Pending && r.resolution is None,
{
}

/// A wait grows to twice its length, and not past its cap.
pub proof fn a_wait_grows_to_its_cap(wait: &mut Backoff)
    requires
        call_ensures(Backoff::grow, (wait,), ()),
    ensures
        final(wait).base == old(wait).base && final(wait).cap == old(wait).cap,
        2 * old(wait).current <= old(wait).cap ==> final(wait).current == 2 * old(wait).current,
        2 * old(wait).current > old(wait).cap ==> final(wait).current == old(wait).cap,
{
}

} // verus!
