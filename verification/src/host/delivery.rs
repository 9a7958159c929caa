//! The escort of a command to another device: its attachments first, then a short grace
//! for the rows to reach the edge, then the peer link as a second road.
//!
//! The escort ends when any road has delivered, or when it has tried long enough; the
//! command stays in the document either way.

use vstd::prelude::*;

use super::backoff::{doubled, Backoff};
use super::snapshots::ClientStats;
use crate::encoding::{base64_encode, base64_text};
use crate::json::{add_member, integer, integer_text, member, text_of, Json, JsonView};
use crate::text::{from_chars, join2, text_eq, texts, to_chars};

verus! {

/// The grace that the normal path gets before the relay road opens.
pub const ROWS_GRACE_MS: u64 = 10_000;

/// How often the normal path is looked at meanwhile.
pub const ROWS_POLL_MS: u64 = 1_000;

pub const RELAY_BACKOFF_BASE_MS: u64 = 5_000;

pub const RELAY_BACKOFF_CAP_MS: u64 = 30_000;

pub const RELAY_CALL_TIMEOUT_MS: u64 = 20_000;

pub const RELAY_GIVE_UP_MS: u64 = 900_000;

pub const TRANSFER_BACKOFF_BASE_MS: u64 = 2_000;

pub const TRANSFER_BACKOFF_CAP_MS: u64 = 30_000;

/// How long attachments are pushed before the transfer gives up.
pub const ATTACHMENT_PUSH_MAX_MS: u64 = 900_000;

/// The most characters of one chunk.
pub const TRANSFER_CHUNK_B64: usize = 60_000;

pub const TRANSFER_CHUNK_TIMEOUT_MS: u64 = 30_000;

pub const TRANSFER_COMMIT_TIMEOUT_MS: u64 = 60_000;

/// Every local batch was acknowledged while connected: the rows are on the edge, and
/// the host's own room delivers them. A room that has not joined keeps updates in a
/// local queue, so an empty client queue alone says nothing.
pub fn rows_flushed(stats: Option<ClientStats>) -> (r: bool)
    ensures
        r == (stats is Some && stats->0.connected && stats->0.pending_pushes == 0),
{
    match stats {
        Some(s) => s.connected && s.pending_pushes == 0,
        None => false,
    }
}

// ---------------------------------------------------------------------------
// The escort
// ---------------------------------------------------------------------------

/// The escort of one command, with times of a clock that never goes back, in
/// milliseconds.
#[derive(Debug, Clone, Copy, PartialEq, Eq, Structural)]
pub struct Escort {
    pub grace_end: u64,
    pub give_up_at: u64,
    pub backoff: Backoff,
}

/// What the escort of a command does next.
#[derive(Debug, Clone, Copy, PartialEq, Eq, Structural)]
pub enum EscortStep {
    /// The command is delivered, or is as good as that: end.
    Done,
    /// Look again after this wait.
    Poll(u64),
    /// Try the peer link.
    Relay,
}

/// What follows a try on the peer link.
#[derive(Debug, Clone, Copy, PartialEq, Eq, Structural)]
pub enum AfterRelay {
    Delivered,
    /// The escort has tried long enough; the command stays in the document.
    GaveUp,
    /// Wait this long, unless good news comes first, then look again.
    Wait(u64),
}

impl Escort {
    pub fn new(now: u64) -> (r: Self)
        requires
            now + RELAY_GIVE_UP_MS <= u64::MAX,
        ensures
            r.grace_end == now + ROWS_GRACE_MS,
            r.give_up_at == now + RELAY_GIVE_UP_MS,
            r.backoff == (Backoff {
                base: RELAY_BACKOFF_BASE_MS,
                cap: RELAY_BACKOFF_CAP_MS,
                current: RELAY_BACKOFF_BASE_MS,
            }),
    {
        Escort {
            grace_end: now + ROWS_GRACE_MS,
            give_up_at: now + RELAY_GIVE_UP_MS,
            backoff: Backoff::new(RELAY_BACKOFF_BASE_MS, RELAY_BACKOFF_CAP_MS),
        }
    }

    /// Looks whether the rows are on the edge; the relay road opens only after the
    /// grace.
    pub fn look(&self, now: u64, flushed: bool) -> (r: EscortStep)
        ensures
            r == (if flushed {
                EscortStep::Done
            } else if now < self.grace_end {
                EscortStep::Poll(ROWS_POLL_MS)
            } else {
                EscortStep::Relay
            }),
    {
        if flushed {
            EscortStep::Done
        } else if now < self.grace_end {
            EscortStep::Poll(ROWS_POLL_MS)
        } else {
            EscortStep::Relay
        }
    }

    /// Goes on after a try on the peer link. A refusal by the host is no reason to stop
    /// before the time is up: it may be that attachments had not landed yet.
    pub fn relayed(&mut self, delivered: bool, now: u64) -> (r: AfterRelay)
        ensures
            r == (if delivered {
                AfterRelay::Delivered
            } else if now >= old(self).give_up_at {
                AfterRelay::GaveUp
            } else {
                AfterRelay::Wait(old(self).backoff.current)
            }),
            *final(self) == (if r is Wait {
                Escort {
                    backoff: Backoff {
                        current: doubled(old(self).backoff.current, old(self).backoff.cap),
                        ..old(self).backoff
                    },
                    ..*old(self)
                }
            } else {
                *old(self)
            }),
    {
        if delivered {
            return AfterRelay::Delivered;
        }
        if now >= self.give_up_at {
            return AfterRelay::GaveUp;
        }
        AfterRelay::Wait(self.backoff.next_wait())
    }
}

/// How a call over a peer link ended.
pub enum CallOutcome {
    TimedOut,
    /// The other side refused, with its message.
    Refused(String),
    /// The call did not get through.
    Failed(String),
    Reply(Json),
}

/// A link that a call timed out on, or that failed, is not used again.
pub fn drops_link(outcome: &CallOutcome) -> (r: bool)
    ensures
        r == (outcome is TimedOut || outcome is Failed),
{
    match outcome {
        CallOutcome::TimedOut => true,
        CallOutcome::Failed(_) => true,
        _ => false,
    }
}

/// The parameters of a forwarded command: the chat, and the entry as it is written.
pub fn relay_params(chat_id: &str, entry: Json) -> (r: Json)
    ensures
        r@ == JsonView::Object(seq![("chatId"@, JsonView::Text(chat_id@)), ("entry"@, entry@)]),
{
    let mut members: Vec<(String, Json)> = Vec::new();
    add_member(&mut members, "chatId", Json::Text(chat_id.to_owned()));
    add_member(&mut members, "entry", entry);
    let r = Json::Object(members);
    assert(r@->Object_0 =~= seq![("chatId"@, JsonView::Text(chat_id@)), ("entry"@, entry@)]);
    r
}

/// The outcome that a host's reply names; an unknown one counts as accepted.
pub open spec fn named_outcome(reply: JsonView) -> Seq<char> {
    let name = match member(reply, "outcome"@) {
        Some(value) => text_of(value),
        None => None,
    };
    if name == Some("executed"@) {
        "executed"@
    } else if name == Some("duplicate"@) {
        "duplicate"@
    } else if name == Some("expired"@) {
        "expired"@
    } else if name == Some("superseded"@) {
        "superseded"@
    } else {
        "accepted"@
    }
}

fn outcome_name(reply: &Json) -> (r: &'static str)
    ensures
        r@ == named_outcome(reply@),
{
    match reply.get("outcome") {
        Some(value) => match value.as_text() {
            Some(name) => {
                if text_eq(name.as_str(), "executed") {
                    "executed"
                } else if text_eq(name.as_str(), "duplicate") {
                    "duplicate"
                } else if text_eq(name.as_str(), "expired") {
                    "expired"
                } else if text_eq(name.as_str(), "superseded") {
                    "superseded"
                } else {
                    "accepted"
                }
            },
            None => "accepted",
        },
        None => "accepted",
    }
}

/// The result of a try on the peer link.
pub fn relay_command(outcome: &CallOutcome) -> (r: Result<&'static str, String>)
    ensures
        match outcome {
            CallOutcome::TimedOut => r is Err && r->Err_0@
                == "relay call timed out; peer link suspect"@,
            CallOutcome::Refused(e) => r is Err && r->Err_0@ == "host refused: "@ + e@,
            CallOutcome::Failed(e) => r is Err && r->Err_0@ == "relay call failed: "@ + e@,
            CallOutcome::Reply(reply) => r is Ok && r->Ok_0@ == named_outcome(reply@),
        },
{
    match outcome {
        CallOutcome::TimedOut => Err("relay call timed out; peer link suspect".to_owned()),
        CallOutcome::Refused(e) => Err(join2("host refused: ", e.as_str())),
        CallOutcome::Failed(e) => Err(join2("relay call failed: ", e.as_str())),
        CallOutcome::Reply(reply) => Ok(outcome_name(reply)),
    }
}

/// The failure of a try on the peer link before any call: there are no links, or this
/// one could not be had.
pub fn link_failure(wired: bool, cause: &str) -> (r: String)
    ensures
        !wired ==> r@ == "peer links not wired"@,
        wired ==> r@ == "peer link: "@ + cause@,
{
    if wired {
        join2("peer link: ", cause)
    } else {
        "peer links not wired".to_owned()
    }
}

// ---------------------------------------------------------------------------
// Attachments
// ---------------------------------------------------------------------------

/// How a transfer failed: for the moment, for the link may heal, or for good, for the
/// host refused or the bytes are gone.
#[derive(Debug, PartialEq, Eq)]
pub enum TransferError {
    Transient(String),
    Permanent(String),
}

/// The transfer of a command's attachments.
#[derive(Debug, Clone, Copy, PartialEq, Eq, Structural)]
pub struct Transfer {
    pub deadline: u64,
    pub backoff: Backoff,
}

/// What follows one try of a transfer.
#[derive(Debug, Clone, Copy, PartialEq, Eq, Structural)]
pub enum AfterPush {
    /// The bytes are there: nudge the host, and go on with the command.
    Delivered,
    GaveUp,
    /// Wait this long, unless good news comes first, then try again.
    Wait(u64),
}

impl Transfer {
    pub fn new(now: u64) -> (r: Self)
        requires
            now + ATTACHMENT_PUSH_MAX_MS <= u64::MAX,
        ensures
            r.deadline == now + ATTACHMENT_PUSH_MAX_MS,
            r.backoff == (Backoff {
                base: TRANSFER_BACKOFF_BASE_MS,
                cap: TRANSFER_BACKOFF_CAP_MS,
                current: TRANSFER_BACKOFF_BASE_MS,
            }),
    {
        Transfer {
            deadline: now + ATTACHMENT_PUSH_MAX_MS,
            backoff: Backoff::new(TRANSFER_BACKOFF_BASE_MS, TRANSFER_BACKOFF_CAP_MS),
        }
    }

    /// Goes on after one try: a permanent failure ends the transfer at once, and a
    /// transient one when the time is up.
    pub fn pushed(&mut self, result: &Result<(), TransferError>, now: u64) -> (r: AfterPush)
        ensures
            r == (match result {
                Ok(_) => AfterPush::Delivered,
                Err(TransferError::Permanent(_)) => AfterPush::GaveUp,
                Err(TransferError::Transient(_)) => if now >= old(self).deadline {
                    AfterPush::GaveUp
                } else {
                    AfterPush::Wait(old(self).backoff.current)
                },
            }),
            *final(self) == (if r is Wait {
                Transfer {
                    backoff: Backoff {
                        current: doubled(old(self).backoff.current, old(self).backoff.cap),
                        ..old(self).backoff
                    },
                    ..*old(self)
                }
            } else {
                *old(self)
            }),
    {
        match result {
            Ok(_) => AfterPush::Delivered,
            Err(TransferError::Permanent(_)) => AfterPush::GaveUp,
            Err(TransferError::Transient(_)) => {
                if now >= self.deadline {
                    AfterPush::GaveUp
                } else {
                    AfterPush::Wait(self.backoff.next_wait())
                }
            },
        }
    }
}

/// A try of a transfer may begin: peer links and an uploads store are there.
pub fn may_push(links: bool, uploads: bool) -> (r: Result<(), TransferError>)
    ensures
        !links ==> r is Err && r->Err_0 is Permanent && r->Err_0->Permanent_0@
            == "peer links not wired"@,
        links && !uploads ==> r is Err && r->Err_0 is Permanent && r->Err_0->Permanent_0@
            == "uploads not wired"@,
        links && uploads ==> r is Ok,
{
    if !links {
        return Err(TransferError::Permanent("peer links not wired".to_owned()));
    }
    if !uploads {
        return Err(TransferError::Permanent("uploads not wired".to_owned()));
    }
    Ok(())
}

/// The link could not be had: that may heal.
pub fn no_link(cause: &str) -> (r: TransferError)
    ensures
        r is Transient && r->Transient_0@ == "peer link: "@ + cause@,
{
    TransferError::Transient(join2("peer link: ", cause))
}

/// The bytes are gone: that will not.
pub fn bytes_missing(cause: &str) -> (r: TransferError)
    ensures
        r is Permanent && r->Permanent_0@ == "staged attachment missing: "@ + cause@,
{
    TransferError::Permanent(join2("staged attachment missing: ", cause))
}

/// The pieces of a text from a place on, each of the given length but the last; at
/// least one, which may be empty.
pub open spec fn chunks_from(s: Seq<char>, from: int, len: int) -> Seq<Seq<char>>
    decreases s.len() - from,
{
    if len <= 0 || from < 0 || from + len >= s.len() {
        seq![s.skip(from)]
    } else {
        seq![s.subrange(from, from + len)] + chunks_from(s, from + len, len)
    }
}

/// The chunks in which an attachment is pushed, in their order: its Base64 text in
/// pieces. An empty attachment is pushed as one empty chunk.
pub fn upload_chunks(bytes: &[u8]) -> (r: Vec<String>)
    ensures
        texts(r@) == chunks_from(
            base64_text(bytes@, '+', '/', true),
            0,
            TRANSFER_CHUNK_B64 as int,
        ),
{
    let text = base64_encode(bytes);
    let chars = to_chars(text.as_str());
    let end: usize = chars.len();
    let ghost whole = chunks_from(text@, 0, TRANSFER_CHUNK_B64 as int);
    let mut out: Vec<String> = Vec::new();
    let mut start: usize = 0;
    assert(texts(out@) + whole =~= whole);
    while end - start > TRANSFER_CHUNK_B64
        invariant
            chars@ == text@,
            end == text@.len(),
            start <= end,
            texts(out@) + chunks_from(text@, start as int, TRANSFER_CHUNK_B64 as int) == whole,
        decreases end - start,
    {
        let ghost before = texts(out@);
        let next: usize = start + TRANSFER_CHUNK_B64;
        let chunk = from_chars(&chars, start, next);
        let ghost rest = chunks_from(text@, next as int, TRANSFER_CHUNK_B64 as int);
        out.push(chunk);
        assert(texts(out@) =~= before.push(text@.subrange(start as int, next as int)));
        assert(texts(out@) + rest =~= before + (seq![text@.subrange(start as int, next as int)]
            + rest));
        start = next;
    }
    let ghost before = texts(out@);
    let last = from_chars(&chars, start, end);
    out.push(last);
    assert(text@.subrange(start as int, end as int) =~= text@.skip(start as int));
    assert(texts(out@) =~= before + seq![text@.skip(start as int)]);
    out
}

/// The parameters of one chunk.
pub fn chunk_params(upload_id: &str, seq: u32, data: &str) -> (r: Json)
    ensures
        r@ == JsonView::Object(
            seq![
                ("uploadId"@, JsonView::Text(upload_id@)),
                ("seq"@, JsonView::Number(integer_text(seq as int))),
                ("data"@, JsonView::Text(data@)),
            ],
        ),
{
    let mut members: Vec<(String, Json)> = Vec::new();
    add_member(&mut members, "uploadId", Json::Text(upload_id.to_owned()));
    add_member(&mut members, "seq", Json::Number(integer(seq as i64)));
    add_member(&mut members, "data", Json::Text(data.to_owned()));
    let r = Json::Object(members);
    assert(r@->Object_0 =~= seq![
        ("uploadId"@, JsonView::Text(upload_id@)),
        ("seq"@, JsonView::Number(integer_text(seq as int))),
        ("data"@, JsonView::Text(data@)),
    ]);
    r
}

/// The parameters of a commit.
pub fn commit_params(upload_id: &str, file_name: &str) -> (r: Json)
    ensures
        r@ == JsonView::Object(
            seq![
                ("uploadId"@, JsonView::Text(upload_id@)),
                ("fileName"@, JsonView::Text(file_name@)),
            ],
        ),
{
    let mut members: Vec<(String, Json)> = Vec::new();
    add_member(&mut members, "uploadId", Json::Text(upload_id.to_owned()));
    add_member(&mut members, "fileName", Json::Text(file_name.to_owned()));
    let r = Json::Object(members);
    assert(r@->Object_0 =~= seq![
        ("uploadId"@, JsonView::Text(upload_id@)),
        ("fileName"@, JsonView::Text(file_name@)),
    ]);
    r
}

/// The result of pushing one chunk.
pub fn chunk_pushed(outcome: &CallOutcome) -> (r: Result<(), TransferError>)
    ensures
        match outcome {
            CallOutcome::TimedOut => r is Err && r->Err_0 is Transient && r->Err_0->Transient_0@
                == "chunk push timed out; peer link suspect"@,
            CallOutcome::Refused(e) => r is Err && r->Err_0 is Permanent && r->Err_0->Permanent_0@
                == "host refused chunk: "@ + e@,
            CallOutcome::Failed(e) => r is Err && r->Err_0 is Transient && r->Err_0->Transient_0@
                == "chunk push failed: "@ + e@,
            CallOutcome::Reply(_) => r is Ok,
        },
{
    match outcome {
        CallOutcome::TimedOut => Err(
            TransferError::Transient("chunk push timed out; peer link suspect".to_owned()),
        ),
        CallOutcome::Refused(e) => Err(
            TransferError::Permanent(join2("host refused chunk: ", e.as_str())),
        ),
        CallOutcome::Failed(e) => Err(
            TransferError::Transient(join2("chunk push failed: ", e.as_str())),
        ),
        CallOutcome::Reply(_) => Ok(()),
    }
}

/// The result of the commit of an attachment.
pub fn attachment_committed(outcome: &CallOutcome) -> (r: Result<(), TransferError>)
    ensures
        match outcome {
            CallOutcome::TimedOut => r is Err && r->Err_0 is Transient && r->Err_0->Transient_0@
                == "commit timed out; peer link suspect"@,
            CallOutcome::Refused(e) => r is Err && r->Err_0 is Permanent && r->Err_0->Permanent_0@
                == "host refused commit: "@ + e@,
            CallOutcome::Failed(e) => r is Err && r->Err_0 is Transient && r->Err_0->Transient_0@
                == "commit failed: "@ + e@,
            CallOutcome::Reply(_) => r is Ok,
        },
{
    match outcome {
        CallOutcome::TimedOut => Err(
            TransferError::Transient("commit timed out; peer link suspect".to_owned()),
        ),
        CallOutcome::Refused(e) => Err(
            TransferError::Permanent(join2("host refused commit: ", e.as_str())),
        ),
        CallOutcome::Failed(e) => Err(
            TransferError::Transient(join2("commit failed: ", e.as_str())),
        ),
        CallOutcome::Reply(_) => Ok(()),
    }
}

/// The texts one after the other.
pub open spec fn concatenated(parts: Seq<Seq<char>>) -> Seq<char>
    decreases parts.len(),
{
    if parts.len() == 0 {
        Seq::empty()
    } else {
        parts[0] + concatenated(parts.drop_first())
    }
}

/// The chunks of an attachment put together are its text again, none is longer than the
/// limit, and there is always one.
pub proof fn chunks_hold_the_whole_text(s: Seq<char>, from: int, len: int)
    requires
        0 < len,
        0 <= from <= s.len(),
    ensures
        concatenated(chunks_from(s, from, len)) == s.skip(from),
        chunks_from(s, from, len).len() > 0,
        forall|i: int|
            0 <= i < chunks_from(s, from, len).len() ==> (#[trigger] chunks_from(
                s,
                from,
                len,
            )[i]).len() <= len,
    decreases s.len() - from,
{
    let chunks = chunks_from(s, from, len);
    if from + len >= s.len() {
        assert(chunks.drop_first() =~= Seq::empty());
        assert(concatenated(Seq::<Seq<char>>::empty()) =~= Seq::empty());
        assert(concatenated(chunks) =~= s.skip(from));
    } else {
        chunks_hold_the_whole_text(s, from + len, len);
        let rest = chunks_from(s, from + len, len);
        assert(chunks.drop_first() =~= rest);
        assert(concatenated(chunks) =~= s.skip(from));
        assert forall|i: int| 0 <= i < chunks.len() implies (#[trigger] chunks[i]).len() <= len by {
            if i > 0 {
                assert(chunks[i] == rest[i - 1]);
            }
        }
    }
}

} // verus!
