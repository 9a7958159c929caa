//! The loopback callback of a headed sign-in: reading the request that the browser
//! makes, and answering it with a page.

use vstd::prelude::*;
use vstd::utf8::{decode_utf8, encode_utf8, valid_utf8};

use crate::encoding::{lossy_text, percent_decoded, url_decode, utf8_lossy};
use crate::text::{
    after, before, decimal, decimal_digits, find, find_from, from_chars, join3, join5, pieces,
    split, split_once, split_words, text_eq, texts, to_chars, words,
};

verus! {

/// How many bytes of a request head are read at most before it is looked at.
pub const MAX_HEAD_BYTES: usize = 16384;

/// A carriage return and a line feed, twice, at a place.
pub open spec fn blank_line_at(buf: Seq<u8>, i: int) -> bool {
    0 <= i && i + 4 <= buf.len() && buf[i] == 13 && buf[i + 1] == 10 && buf[i + 2] == 13 && buf[i
        + 3] == 10
}

/// The head of a request is whole, or long enough to stop reading it.
pub open spec fn head_done(buf: Seq<u8>) -> bool {
    buf.len() > MAX_HEAD_BYTES || exists|i: int| #[trigger] blank_line_at(buf, i)
}

/// Whether enough of a request has been read.
pub fn head_complete(buf: &[u8]) -> (r: bool)
    ensures
        r == head_done(buf@),
{
    if buf.len() > MAX_HEAD_BYTES {
        return true;
    }
    let mut i: usize = 0;
    while buf.len() - i >= 4
        invariant
            i <= buf@.len(),
            buf@.len() <= MAX_HEAD_BYTES,
            forall|j: int| 0 <= j < i ==> !#[trigger] blank_line_at(buf@, j),
        decreases buf@.len() - i,
    {
        if buf[i] == 13 && buf[i + 1] == 10 && buf[i + 2] == 13 && buf[i + 3] == 10 {
            assert(blank_line_at(buf@, i as int));
            return true;
        }
        i = i + 1;
    }
    assert(forall|j: int| !#[trigger] blank_line_at(buf@, j));
    false
}

/// The first line of a text, without its line ending.
pub open spec fn first_line(s: Seq<char>) -> Seq<char> {
    let at = find_from(s, '\n', 0);
    if at < s.len() && at > 0 && s[at - 1] == '\r' {
        s.take(at - 1)
    } else {
        s.take(at)
    }
}

fn line_of(s: &str) -> (r: String)
    ensures
        r@ == first_line(s@),
{
    let chars = to_chars(s);
    let at = find(&chars, '\n', 0);
    let to: usize = if at < chars.len() && at > 0 && chars[at - 1] == '\r' {
        at - 1
    } else {
        at
    };
    assert(s@.subrange(0, to as int) =~= s@.take(to as int));
    from_chars(&chars, 0, to)
}

/// The target of a request: the second word of its first line.
pub open spec fn request_target(head: Seq<char>) -> Seq<char> {
    let parts = words(first_line(head));
    if parts.len() > 1 {
        parts[1]
    } else {
        Seq::empty()
    }
}

/// The value of the last of the first `n` parameters with the given name, decoded. A
/// part without an equals sign is no parameter.
pub open spec fn param_within(parts: Seq<Seq<char>>, name: Seq<char>, n: int) -> Option<Seq<char>>
    decreases n,
{
    if n <= 0 || n > parts.len() {
        None
    } else {
        let part = parts[n - 1];
        if part.contains('=') && before(part, '=') == name {
            Some(utf8_lossy(percent_decoded(encode_utf8(after(part, '=')))))
        } else {
            param_within(parts, name, n - 1)
        }
    }
}

/// The value of a query parameter, the last where it is repeated.
pub open spec fn query_param(query: Seq<char>, name: Seq<char>) -> Option<Seq<char>> {
    param_within(pieces(query, '&'), name, pieces(query, '&').len() as int)
}

fn param(query: &str, name: &str) -> (r: Option<String>)
    ensures
        crate::text::option_text(r) == query_param(query@, name@),
{
    let parts = split(query, '&');
    assert(texts(parts@).len() == parts@.len());
    let mut n: usize = parts.len();
    while n > 0
        invariant
            n <= parts@.len(),
            texts(parts@) == pieces(query@, '&'),
            texts(parts@).len() == parts@.len(),
            query_param(query@, name@) == param_within(texts(parts@), name@, n as int),
        decreases n,
    {
        assert(texts(parts@)[n - 1] == parts@[n - 1]@);
        if let Some((key, value)) = split_once(parts[n - 1].as_str(), '=') {
            if text_eq(key.as_str(), name) {
                return Some(url_decode(value.as_str()));
            }
        }
        n = n - 1;
    }
    None
}

/// What a browser asked of the callback server.
#[derive(Debug, PartialEq, Eq)]
pub enum CallbackRequest {
    /// Something other than the callback.
    NotFound,
    /// The callback, without a code or without a state.
    Invalid,
    Callback { code: String, state: String },
}

/// What a request head asks: only `/callback` is served, and only with both a code and
/// a state.
pub open spec fn asks(head: Seq<char>, r: CallbackRequest) -> bool {
    let target = request_target(head);
    let path = before(target, '?');
    let query = after(target, '?');
    let code = query_param(query, "code"@);
    let state = query_param(query, "state"@);
    if path != "/callback"@ {
        r == CallbackRequest::NotFound
    } else if code is Some && state is Some {
        &&& r is Callback
        &&& r->code@ == code->0
        &&& r->state@ == state->0
    } else {
        r == CallbackRequest::Invalid
    }
}

/// Reads what a request head asks.
pub fn read_callback(head: &str) -> (r: CallbackRequest)
    ensures
        asks(head@, r),
{
    let line = line_of(head);
    let parts = split_words(line.as_str());
    assert(texts(parts@).len() == parts@.len());
    let target = if parts.len() > 1 {
        assert(texts(parts@)[1] == parts@[1]@);
        parts[1].clone()
    } else {
        String::new()
    };
    let (path, query) = match split_once(target.as_str(), '?') {
        Some(sides) => sides,
        None => {
            proof {
                crate::text::find_from_is_first(target@, '?', 0);
                let at = find_from(target@, '?', 0);
                if at < target@.len() {
                    assert(target@.contains('?'));
                }
                assert(target@.take(at) =~= target@);
            }
            (target.clone(), String::new())
        },
    };
    if !text_eq(path.as_str(), "/callback") {
        return CallbackRequest::NotFound;
    }
    match (param(query.as_str(), "code"), param(query.as_str(), "state")) {
        (Some(code), Some(state)) => CallbackRequest::Callback { code, state },
        _ => CallbackRequest::Invalid,
    }
}

/// Reads what the bytes of a request head ask.
pub fn read_callback_bytes(buf: &[u8]) -> (r: CallbackRequest)
    ensures
        asks(utf8_lossy(buf@), r),
        valid_utf8(buf@) ==> asks(decode_utf8(buf@), r),
{
    let head = lossy_text(buf);
    read_callback(head.as_str())
}

/// How a callback ended.
#[derive(Debug, Clone, Copy, PartialEq, Eq, Structural)]
pub enum CallbackOutcome {
    NotFound,
    /// No such sign-in is pending.
    Invalid,
    /// The code could not be exchanged.
    ExchangeFailed,
    /// The sign-in was canceled while its code was exchanged.
    Canceled,
    SignedIn,
}

/// How a callback ends: by what was asked, whether its sign-in was pending, whether its
/// code was exchanged, and whether the sign-in was committed. What was not tried did not
/// succeed.
pub fn callback_outcome(
    request: &CallbackRequest,
    pending: bool,
    exchanged: bool,
    committed: bool,
) -> (r: CallbackOutcome)
    ensures
        r == (match *request {
            CallbackRequest::NotFound => CallbackOutcome::NotFound,
            CallbackRequest::Invalid => CallbackOutcome::Invalid,
            CallbackRequest::Callback { .. } => if !pending {
                CallbackOutcome::Invalid
            } else if !exchanged {
                CallbackOutcome::ExchangeFailed
            } else if !committed {
                CallbackOutcome::Canceled
            } else {
                CallbackOutcome::SignedIn
            },
        }),
{
    match request {
        CallbackRequest::NotFound => CallbackOutcome::NotFound,
        CallbackRequest::Invalid => CallbackOutcome::Invalid,
        CallbackRequest::Callback { code: _, state: _ } => {
            if !pending {
                CallbackOutcome::Invalid
            } else if !exchanged {
                CallbackOutcome::ExchangeFailed
            } else if !committed {
                CallbackOutcome::Canceled
            } else {
                CallbackOutcome::SignedIn
            }
        },
    }
}

/// The status line of an outcome.
pub open spec fn outcome_status(outcome: CallbackOutcome) -> Seq<char> {
    match outcome {
        CallbackOutcome::NotFound => "404 Not Found"@,
        CallbackOutcome::Invalid => "400 Bad Request"@,
        CallbackOutcome::ExchangeFailed => "502 Bad Gateway"@,
        CallbackOutcome::Canceled => "409 Conflict"@,
        CallbackOutcome::SignedIn => "200 OK"@,
    }
}

/// What the page of an outcome says.
pub open spec fn outcome_message(outcome: CallbackOutcome) -> Seq<char> {
    match outcome {
        CallbackOutcome::NotFound => "Not found."@,
        CallbackOutcome::Invalid => "Invalid or expired sign-in link. Start again from Zeron."@,
        CallbackOutcome::ExchangeFailed =>
            "Sign-in failed during token exchange — check the Zeron logs."@,
        CallbackOutcome::Canceled =>
            "This sign-in was canceled. Start again from Zeron if you still want to enable sync."@,
        CallbackOutcome::SignedIn => "Signed in. You can close this tab and return to Zeron."@,
    }
}

/// A page that says one thing.
pub open spec fn page_text(message: Seq<char>) -> Seq<char> {
    "<html><body style='font-family:sans-serif;padding:2rem'>"@ + message + "</body></html>"@
}

/// A page that says one thing.
pub fn page(message: &str) -> (r: String)
    ensures
        r@ == page_text(message@),
{
    join3(
        "<html><body style='font-family:sans-serif;padding:2rem'>",
        message,
        "</body></html>",
    )
}

/// The whole response of an outcome. The length it announces is that of the page in
/// bytes.
pub open spec fn response_text(outcome: CallbackOutcome) -> Seq<char> {
    let body = page_text(outcome_message(outcome));
    "HTTP/1.1 "@ + outcome_status(outcome)
        + "\r\ncontent-type: text/html; charset=utf-8\r\ncontent-length: "@ + decimal_digits(
        (encode_utf8(body).len() as usize) as nat,
    ) + "\r\nconnection: close\r\n\r\n"@ + body
}

/// The response to send for an outcome.
pub fn callback_response(outcome: CallbackOutcome) -> (r: String)
    ensures
        r@ == response_text(outcome),
{
    let (status, body) = match outcome {
        CallbackOutcome::NotFound => ("404 Not Found", page("Not found.")),
        CallbackOutcome::Invalid => (
            "400 Bad Request",
            page("Invalid or expired sign-in link. Start again from Zeron."),
        ),
        CallbackOutcome::ExchangeFailed => (
            "502 Bad Gateway",
            page("Sign-in failed during token exchange — check the Zeron logs."),
        ),
        CallbackOutcome::Canceled => (
            "409 Conflict",
            page(
                "This sign-in was canceled. Start again from Zeron if you still want to enable sync.",
            ),
        ),
        CallbackOutcome::SignedIn => (
            "200 OK",
            page("Signed in. You can close this tab and return to Zeron."),
        ),
    };
    let length = decimal(body.as_str().len() as u64);
    let head = join5(
        "HTTP/1.1 ",
        status,
        "\r\ncontent-type: text/html; charset=utf-8\r\ncontent-length: ",
        length.as_str(),
        "\r\nconnection: close\r\n\r\n",
    );
    crate::text::join2(head.as_str(), body.as_str())
}

} // verus!
