//! The room over HTTP: addresses, failures, and the download of a checkpoint with
//! resumption.

use vstd::prelude::*;

use crate::json::{member_or_null, option_json, parse_json, parsed_json, text_of, Json, JsonView};
use crate::text::{
    decimal, decimal_digits, join2, join3, join4, join5, option_text, option_text_eq,
    same_option_text, text_eq, trim_end_slashes, without_end_slashes,
};

verus! {

/// A failure of synchronisation.
#[derive(Debug, PartialEq, Eq)]
pub enum SyncError {
    Auth(String),
    Protocol(String),
    AccessDenied(String),
    PushRejected(String),
    WebSocket(String),
}

/// The path of a room's generation: org-shared rooms from generation 3 on.
pub open spec fn room_path(room_gen: u32) -> Seq<char> {
    if room_gen >= 3 {
        "chat3"@
    } else {
        "chat2"@
    }
}

/// The URL of something of a room.
pub open spec fn room_url(
    edge: Seq<char>,
    room_gen: u32,
    chat_id: Seq<char>,
    what: Seq<char>,
) -> Seq<char> {
    without_end_slashes(edge) + "/"@ + room_path(room_gen) + "/"@ + chat_id + what
}

fn room_address(edge_url: &str, room_gen: u32, chat_id: &str, what: &str) -> (r: String)
    ensures
        r@ == room_url(edge_url@, room_gen, chat_id@, what@),
{
    let edge = trim_end_slashes(edge_url);
    let path = if room_gen >= 3 {
        "chat3"
    } else {
        "chat2"
    };
    let head = join5(edge.as_str(), "/", path, "/", chat_id);
    join2(head.as_str(), what)
}

/// Plain-HTTPS chat pull/push (the airplane-wifi transport): GET/POST
/// `/chat2/{id}/rows` for legacy rooms or `/chat3/{id}/rows` for org-shared
/// rooms, with the same bearer auth the checkpoint fetcher uses.
#[derive(Debug)]
pub struct EdgeChatTransport {
    pub edge_url: String,
    pub chat_id: String,
    pub device_id: String,
    /// 2 = `/chat2/...`, 3 = org-shared `/chat3/...`.
    pub room_gen: u32,
}

impl EdgeChatTransport {
    pub fn new(edge_url: String, chat_id: String, device_id: String, room_gen: u32) -> (r: Self)
        ensures
            r == (EdgeChatTransport { edge_url, chat_id, device_id, room_gen }),
    {
        EdgeChatTransport { edge_url, chat_id, device_id, room_gen }
    }

    /// Where the rows of the room are pulled from and pushed to.
    pub fn rows_url(&self) -> (r: String)
        ensures
            r@ == room_url(self.edge_url@, self.room_gen, self.chat_id@, "/rows"@),
    {
        room_address(self.edge_url.as_str(), self.room_gen, self.chat_id.as_str(), "/rows")
    }
}

/// The numbers that are status codes.
pub open spec fn is_status_code(status: u16) -> bool {
    100 <= status <= 999
}

/// The reason phrase that is written with a status code.
pub uninterp spec fn reason_phrase(status: u16) -> Seq<char>;

/// The text of a status: its number, a space, and its reason phrase.
pub open spec fn status_text(status: u16) -> Seq<char> {
    decimal_digits(status as nat) + " "@ + reason_phrase(status)
}

/// Calls `to_string` of the `reqwest::StatusCode` with the given number. The text is the
/// number, a space and a phrase; the contract names the phrase.
#[verifier::external_body]
fn status_line(status: u16) -> (r: String)
    requires
        is_status_code(status),
    ensures
        r@ == decimal_digits(status as nat) + " "@ + reason_phrase(status),
{
    reqwest::StatusCode::from_u16(status).map(|code| code.to_string()).unwrap_or_default()
}

/// The failure of a pull or push that was not accepted: only a 403 is a denial.
pub open spec fn rows_error(operation: Seq<char>, status: u16, r: SyncError) -> bool {
    let message = "chat "@ + operation + " http "@ + status_text(status);
    if status == 403 {
        r is AccessDenied && r->AccessDenied_0@ == message
    } else {
        r is Protocol && r->Protocol_0@ == message
    }
}

/// The failure of a request for rows that was answered with the given status.
pub fn chat_rows_status_error(operation: &str, status: u16) -> (r: SyncError)
    requires
        is_status_code(status),
    ensures
        rows_error(operation@, status, r),
{
    let line = status_line(status);
    let message = join4("chat ", operation, " http ", line.as_str());
    if status == 403 {
        SyncError::AccessDenied(message)
    } else {
        SyncError::Protocol(message)
    }
}

/// The code in the body of a refused push.
pub open spec fn push_code(parsed: Option<JsonView>) -> Option<Seq<char>> {
    match parsed {
        Some(value) => text_of(member_or_null(value, "error"@)),
        None => None,
    }
}

/// A push with this code will never be accepted.
pub open spec fn is_permanent(code: Seq<char>) -> bool {
    code == "too_large"@ || code == "empty"@ || code == "bad_push"@
}

/// The failure of a push: a denial, a batch that will never be accepted, or anything
/// else.
pub open spec fn push_error(status: u16, code: Option<Seq<char>>, r: SyncError) -> bool {
    let message = "chat push http "@ + status_text(status);
    if status == 403 {
        r is AccessDenied && r->AccessDenied_0@ == message
    } else {
        match code {
            Some(code) => if is_permanent(code) {
                r is PushRejected && r->PushRejected_0@ == code
            } else {
                r is Protocol && r->Protocol_0@ == message + ": "@ + code
            },
            None => r is Protocol && r->Protocol_0@ == message,
        }
    }
}

/// The failure of a push with the given status, whose body parsed as `parsed`.
pub fn push_error_of(status: u16, parsed: &Option<Json>) -> (r: SyncError)
    requires
        is_status_code(status),
    ensures
        push_error(status, push_code(option_json(*parsed)), r),
{
    let line = status_line(status);
    let message = join2("chat push http ", line.as_str());
    if status == 403 {
        return SyncError::AccessDenied(message);
    }
    let code = match parsed {
        Some(value) => match value.get("error") {
            Some(Json::Text(code)) => Some(code.clone()),
            _ => None,
        },
        None => None,
    };
    match code {
        Some(code) => {
            if text_eq(code.as_str(), "too_large") || text_eq(code.as_str(), "empty") || text_eq(
                code.as_str(),
                "bad_push",
            ) {
                SyncError::PushRejected(code)
            } else {
                SyncError::Protocol(join3(message.as_str(), ": ", code.as_str()))
            }
        },
        None => SyncError::Protocol(message),
    }
}

/// The failure of a push that was answered with the given status and body.
pub fn chat_push_status_error(status: u16, body: &str) -> (r: SyncError)
    requires
        is_status_code(status),
    ensures
        push_error(status, push_code(parsed_json(vstd::utf8::encode_utf8(body@))), r),
{
    let parsed = parse_json(body.as_bytes());
    push_error_of(status, &parsed)
}

// ---------------------------------------------------------------------------
// Checkpoints
// ---------------------------------------------------------------------------

/// How often a download is begun or resumed at most.
pub const MAX_ATTEMPTS: u32 = 4;

/// The download of a checkpoint, with resumption at the byte where the last attempt
/// stopped.
#[derive(Debug)]
pub struct EdgeCheckpointFetcher {
    pub url: String,
    pub got: Vec<u8>,
    pub seen_seq: Option<String>,
    pub attempts: u32,
}

/// What the caller does next for a download.
#[derive(Debug, PartialEq, Eq)]
pub enum FetchStep {
    /// Ask for the checkpoint, from the given byte on where there is one.
    Request { range: Option<String> },
    Failed(SyncError),
}

/// What the caller does with a response.
#[derive(Debug, PartialEq, Eq)]
pub enum FetchResponse {
    /// Read its body chunk by chunk.
    Read,
    /// Drop it and begin another attempt.
    Retry,
    Failed(SyncError),
}

impl EdgeCheckpointFetcher {
    pub fn new(edge_url: &str, chat_id: &str, room_gen: u32) -> (r: Self)
        ensures
            r.url@ == room_url(edge_url@, room_gen, chat_id@, "/checkpoint"@),
            r.got@ == Seq::<u8>::empty(),
            r.seen_seq is None,
            r.attempts == 0,
    {
        EdgeCheckpointFetcher {
            url: room_address(edge_url, room_gen, chat_id, "/checkpoint"),
            got: Vec::new(),
            seen_seq: None,
            attempts: 0,
        }
    }

    /// Begins the next attempt: it resumes where the last one stopped, and fails once
    /// the attempts are used up or nobody is signed in.
    pub fn attempt(&mut self, signed_in: bool) -> (r: FetchStep)
        ensures
            final(self).url == old(self).url,
            final(self).got == old(self).got,
            final(self).seen_seq == old(self).seen_seq,
            old(self).attempts >= MAX_ATTEMPTS ==> final(self).attempts == old(self).attempts && (r
                matches FetchStep::Failed(SyncError::Protocol(m)) && m@
                == "checkpoint fetch exhausted resume attempts"@),
            old(self).attempts < MAX_ATTEMPTS ==> final(self).attempts == old(self).attempts + 1,
            old(self).attempts < MAX_ATTEMPTS && !signed_in ==> (r matches FetchStep::Failed(
                SyncError::Auth(m),
            ) && m@ == "signed out"@),
            old(self).attempts < MAX_ATTEMPTS && signed_in ==> r is Request && option_text(r->range)
                == (if old(self).got@.len() == 0 {
                None
            } else {
                Some("bytes="@ + decimal_digits(old(self).got@.len()) + "-"@)
            }),
    {
        if self.attempts >= MAX_ATTEMPTS {
            return FetchStep::Failed(
                SyncError::Protocol("checkpoint fetch exhausted resume attempts".to_owned()),
            );
        }
        self.attempts = self.attempts + 1;
        if !signed_in {
            return FetchStep::Failed(SyncError::Auth("signed out".to_owned()));
        }
        let range = if self.got.is_empty() {
            None
        } else {
            let from = decimal(self.got.len() as u64);
            Some(join3("bytes=", from.as_str(), "-"))
        };
        FetchStep::Request { range }
    }

    /// The checkpoint was replaced since the last response: both carry a sequence mark
    /// and the marks differ.
    pub open spec fn replaced(self, seq: Option<String>) -> bool {
        seq is Some && self.seen_seq is Some && !same_option_text(seq, self.seen_seq)
    }

    /// Takes the head of a response. A checkpoint that was replaced since the last
    /// attempt begins again from nothing, for a resumed read would splice two different
    /// blobs. A whole response replaces what was read; a partial one continues it.
    pub fn response(&mut self, seq: Option<String>, status: u16) -> (r: FetchResponse)
        ensures
            final(self).url == old(self).url,
            final(self).attempts == old(self).attempts,
            final(self).seen_seq == (if seq is Some {
                seq
            } else {
                old(self).seen_seq
            }),
            old(self).replaced(seq) ==> r is Retry && final(self).got@ == Seq::<u8>::empty(),
            !old(self).replaced(seq) && status == 200 ==> r is Read && final(self).got@ == Seq::<
                u8,
            >::empty(),
            !old(self).replaced(seq) && status == 206 ==> r is Read && final(self).got == old(
                self,
            ).got,
            !old(self).replaced(seq) && status != 200 && status != 206 ==> final(self).got == old(
                self,
            ).got && r is Failed && r->Failed_0 is Protocol && r->Failed_0->Protocol_0@ == (
            if status == 416 {
                "checkpoint range beyond end"@
            } else if status == 404 {
                "no checkpoint"@
            } else {
                "checkpoint HTTP "@ + decimal_digits(status as nat)
            }),
    {
        let replaced = seq.is_some() && self.seen_seq.is_some() && !option_text_eq(
            &seq,
            &self.seen_seq,
        );
        if seq.is_some() {
            self.seen_seq = seq;
        }
        if replaced {
            self.got.clear();
            return FetchResponse::Retry;
        }
        if status == 200 {
            self.got.clear();
            FetchResponse::Read
        } else if status == 206 {
            FetchResponse::Read
        } else if status == 416 {
            FetchResponse::Failed(
                SyncError::Protocol("checkpoint range beyond end".to_owned()),
            )
        } else if status == 404 {
            FetchResponse::Failed(SyncError::Protocol("no checkpoint".to_owned()))
        } else {
            let code = decimal(status as u64);
            FetchResponse::Failed(SyncError::Protocol(join2("checkpoint HTTP ", code.as_str())))
        }
    }

    /// Takes a chunk of the body.
    pub fn chunk(&mut self, bytes: &[u8])
        ensures
            final(self).url == old(self).url,
            final(self).attempts == old(self).attempts,
            final(self).seen_seq == old(self).seen_seq,
            final(self).got@ == old(self).got@ + bytes@,
    {
        let mut i: usize = 0;
        assert(old(self).got@ + bytes@.take(0) =~= old(self).got@);
        while i < bytes.len()
            invariant
                i <= bytes@.len(),
                self.url == old(self).url,
                self.attempts == old(self).attempts,
                self.seen_seq == old(self).seen_seq,
                self.got@ == old(self).got@ + bytes@.take(i as int),
            decreases bytes@.len() - i,
        {
            self.got.push(bytes[i]);
            assert(self.got@ =~= old(self).got@ + bytes@.take(i + 1));
            i = i + 1;
        }
        assert(bytes@.take(i as int) =~= bytes@);
    }
}

} // verus!
