//! The edge: where rooms, blobs, checkpoints and nudges live.

use vstd::prelude::*;

use crate::auth::types::{error, EngineError};
use crate::chat::transport::SyncError;
use vstd::utf8::encode_utf8;

use crate::encoding::{encode_part_segment, percent_encoded};
use crate::text::{
    after, before, decimal, decimal_digits, find_from_is_first, join2, join3, join4, join5,
    replace_first, replaced_first, split_once, to_chars, trim_end_slashes, without_end_slashes,
};

verus! {

/// A part's name as a path segment.
pub open spec fn part_segment(part: Seq<char>) -> Seq<char> {
    percent_encoded(encode_utf8(part))
}

/// Edge connection config. The bearer is never part of it: every connect and request
/// reads it anew, so that refreshed tokens take effect at once.
#[derive(Debug, PartialEq, Eq)]
pub struct EdgeConfig {
    /// Edge base URL (`http(s)://…`); rewritten to `ws(s)` for the room socket.
    pub url: String,
    /// This engine's device id, carried on room dials (`&device=`) so the edge can
    /// attribute sockets in logs. Empty = omitted.
    pub device_id: String,
}

/// The address of a room socket before its query.
pub open spec fn room_base(url: Seq<char>, path: Seq<char>) -> Seq<char> {
    without_end_slashes(replaced_first(url, "http"@, "ws"@)) + path
}

/// The address of a room socket.
pub open spec fn room_address(
    edge: EdgeConfig,
    path: Seq<char>,
    token: Seq<char>,
    extra: Seq<char>,
) -> Seq<char> {
    let start = room_base(edge.url@, path) + "?token="@ + token;
    if edge.device_id@.len() > 0 {
        start + "&device="@ + edge.device_id@ + extra
    } else {
        start + extra
    }
}

impl EdgeConfig {
    pub fn new(url: String) -> (r: Self)
        ensures
            r.url == url,
            r.device_id@.len() == 0,
    {
        EdgeConfig { url, device_id: String::new() }
    }

    /// Attribute this engine's room sockets in edge logs.
    pub fn with_device(self, device_id: String) -> (r: Self)
        ensures
            r.url == self.url,
            r.device_id == device_id,
    {
        EdgeConfig { url: self.url, device_id }
    }

    /// The address of a room socket for the token of the moment.
    pub fn room_url(&self, path: &str, token: Option<&str>) -> (r: Result<String, SyncError>)
        ensures
            match token {
                Some(t) => r is Ok && r->Ok_0@ == room_address(
                    *self,
                    path@,
                    t@,
                    Seq::<char>::empty(),
                ),
                None => r is Err && r->Err_0 is Auth && r->Err_0->Auth_0@
                    == "no access token (signed out)"@,
            },
    {
        let r = self.room_url_with(path, "", token);
        proof {
            reveal_strlit("");
            assert(""@ =~= Seq::<char>::empty());
        }
        r
    }

    /// [`Self::room_url`] with extra query params appended after the token and device
    /// (e.g. `"&role=host"` for a host claim).
    pub fn room_url_with(&self, path: &str, extra: &str, token: Option<&str>) -> (r: Result<
        String,
        SyncError,
    >)
        ensures
            match token {
                Some(t) => r is Ok && r->Ok_0@ == room_address(*self, path@, t@, extra@),
                None => r is Err && r->Err_0 is Auth && r->Err_0->Auth_0@
                    == "no access token (signed out)"@,
            },
    {
        let token = match token {
            Some(t) => t,
            None => {
                return Err(SyncError::Auth("no access token (signed out)".to_owned()));
            },
        };
        let ws_base = replace_first(self.url.as_str(), "http", "ws");
        let base = trim_end_slashes(ws_base.as_str());
        let start = join4(base.as_str(), path, "?token=", token);
        if self.device_id.as_str().is_empty() {
            Ok(join2(start.as_str(), extra))
        } else {
            Ok(join4(start.as_str(), "&device=", self.device_id.as_str(), extra))
        }
    }

    /// The edge base URL without its end slashes.
    fn base(&self) -> (r: String)
        ensures
            r@ == without_end_slashes(self.url@),
    {
        trim_end_slashes(self.url.as_str())
    }

    /// Where the tail of a transcript is published.
    pub fn tail_url(&self, chat_id: &str) -> (r: String)
        ensures
            r@ == without_end_slashes(self.url@) + "/chat3/"@ + chat_id@ + "/tail"@,
    {
        let base = self.base();
        join4(base.as_str(), "/chat3/", chat_id, "/tail")
    }

    /// Where a checkpoint that covers rows up to a number is posted.
    pub fn checkpoint_url(&self, chat_id: &str, seq_covered: u64) -> (r: String)
        ensures
            r@ == without_end_slashes(self.url@) + "/chat3/"@ + chat_id@
                + "/checkpoint?seqCovered="@ + decimal_digits(seq_covered as nat)
                + "&role=host"@,
    {
        let base = self.base();
        let seq = decimal(seq_covered);
        let start = join4(base.as_str(), "/chat3/", chat_id, "/checkpoint?seqCovered=");
        join3(start.as_str(), seq.as_str(), "&role=host")
    }

    /// Where a host device is nudged.
    pub fn nudge_url(&self, device: &str) -> (r: String)
        ensures
            r@ == without_end_slashes(self.url@) + "/device/"@ + device@ + "/nudge"@,
    {
        let base = self.base();
        join4(base.as_str(), "/device/", device, "/nudge")
    }

    /// Where the edge says that it is there.
    pub fn health_url(&self) -> (r: String)
        ensures
            r@ == without_end_slashes(self.url@) + "/health"@,
    {
        let base = self.base();
        join2(base.as_str(), "/health")
    }

    /// Where the full output of a tool lies.
    pub fn blob_url(&self, chat_id: &str, part_id: &str) -> (r: String)
        ensures
            r@ == without_end_slashes(self.url@) + "/blob/"@ + chat_id@ + "/"@ + part_segment(
                part_id@,
            ),
    {
        let base = self.base();
        let part = encode_part_segment(part_id);
        join5(base.as_str(), "/blob/", chat_id, "/", part.as_str())
    }

    /// Where the diff of a tool lies.
    pub fn diff_url(&self, chat_id: &str, part_id: &str) -> (r: String)
        ensures
            r@ == without_end_slashes(self.url@) + "/blob/"@ + chat_id@ + "/"@ + part_segment(
                part_id@,
            ) + ".diff"@,
    {
        let blob = self.blob_url(chat_id, part_id);
        join2(blob.as_str(), ".diff")
    }
}

/// The path of a chat's room socket.
pub fn room_path(chat_id: &str) -> (r: String)
    ensures
        r@ == "/chat3/"@ + chat_id@ + "/ws"@,
{
    join3("/chat3/", chat_id, "/ws")
}

/// The claim of the host slot that rides a room dial.
pub fn host_query(is_host: bool) -> (r: &'static str)
    ensures
        is_host ==> r@ == "&role=host"@,
        !is_host ==> r@ == ""@,
{
    if is_host {
        "&role=host"
    } else {
        ""
    }
}

// ---------------------------------------------------------------------------
// Blob references
// ---------------------------------------------------------------------------

pub open spec fn is_alnum(c: char) -> bool {
    ('a' <= c && c <= 'z') || ('A' <= c && c <= 'Z') || ('0' <= c && c <= '9')
}

fn alnum(c: char) -> (r: bool)
    ensures
        r == is_alnum(c),
{
    ('a' <= c && c <= 'z') || ('A' <= c && c <= 'Z') || ('0' <= c && c <= '9')
}

/// A character of a chat's name in a blob reference.
pub open spec fn is_chat_char(c: char) -> bool {
    is_alnum(c) || c == '_' || c == '-'
}

/// A character of a part's name in a blob reference.
pub open spec fn is_part_char(c: char) -> bool {
    is_alnum(c) || c == '.' || c == '_' || c == ':' || c == '#' || c == '~' || c == '-'
}

/// A blob reference: the chat, a slash and the part, each of its own alphabet and
/// within its own length. Every character of either alphabet is one byte.
pub open spec fn is_blob_ref(s: Seq<char>) -> bool {
    let chat = before(s, '/');
    let part = after(s, '/');
    &&& s.contains('/')
    &&& 0 < chat.len() <= 128
    &&& forall|i: int| 0 <= i < chat.len() ==> is_chat_char(#[trigger] chat[i])
    &&& 0 < part.len() <= 200
    &&& forall|i: int| 0 <= i < part.len() ==> is_part_char(#[trigger] part[i])
}

fn all_chat_chars(s: &str) -> (r: bool)
    ensures
        r == (forall|i: int| 0 <= i < s@.len() ==> is_chat_char(#[trigger] s@[i])),
{
    let chars = to_chars(s);
    let mut i: usize = 0;
    while i < chars.len()
        invariant
            chars@ == s@,
            i <= chars@.len(),
            forall|j: int| 0 <= j < i ==> is_chat_char(#[trigger] s@[j]),
        decreases chars@.len() - i,
    {
        let c = chars[i];
        if !(alnum(c) || c == '_' || c == '-') {
            assert(!is_chat_char(s@[i as int]));
            return false;
        }
        i = i + 1;
    }
    true
}

fn all_part_chars(s: &str) -> (r: bool)
    ensures
        r == (forall|i: int| 0 <= i < s@.len() ==> is_part_char(#[trigger] s@[i])),
{
    let chars = to_chars(s);
    let mut i: usize = 0;
    while i < chars.len()
        invariant
            chars@ == s@,
            i <= chars@.len(),
            forall|j: int| 0 <= j < i ==> is_part_char(#[trigger] s@[j]),
        decreases chars@.len() - i,
    {
        let c = chars[i];
        if !(alnum(c) || c == '.' || c == '_' || c == ':' || c == '#' || c == '~' || c == '-') {
            assert(!is_part_char(s@[i as int]));
            return false;
        }
        i = i + 1;
    }
    true
}

/// The chat and the part that a blob reference names, where it is one.
pub fn read_blob_ref(blob_ref: &str) -> (r: Option<(String, String)>)
    ensures
        match r {
            Some((chat, part)) => is_blob_ref(blob_ref@) && chat@ == before(blob_ref@, '/')
                && part@ == after(blob_ref@, '/'),
            None => !is_blob_ref(blob_ref@),
        },
{
    match split_once(blob_ref, '/') {
        None => None,
        Some((chat, part)) => {
            let chat_len = to_chars(chat.as_str()).len();
            let part_len = to_chars(part.as_str()).len();
            if chat_len == 0 || chat_len > 128 || part_len == 0 || part_len > 200 {
                return None;
            }
            if !all_chat_chars(chat.as_str()) || !all_part_chars(part.as_str()) {
                return None;
            }
            Some((chat, part))
        },
    }
}

/// Plans the fetch of a blob: the address to read. A reference that is none fails, and
/// so does a fetch without an edge or without a token, in this order.
pub fn fetch_tool_blob(edge: &Option<EdgeConfig>, signed_in: bool, blob_ref: &str) -> (r: Result<
    String,
    EngineError,
>)
    ensures
        !is_blob_ref(blob_ref@) ==> r is Err && r->Err_0.text() == "bad blob ref: "@ + blob_ref@,
        is_blob_ref(blob_ref@) && edge is None ==> r is Err && r->Err_0.text()
            == "offline: no edge configured"@,
        is_blob_ref(blob_ref@) && edge is Some && !signed_in ==> r is Err && r->Err_0.text()
            == "signed out"@,
        is_blob_ref(blob_ref@) && edge is Some && signed_in ==> r is Ok && r->Ok_0@
            == without_end_slashes(edge->0.url@) + "/blob/"@ + before(blob_ref@, '/') + "/"@
            + part_segment(after(blob_ref@, '/')),
{
    match read_blob_ref(blob_ref) {
        None => Err(EngineError::Other(join2("bad blob ref: ", blob_ref))),
        Some((chat, part)) => match edge {
            None => Err(error("offline: no edge configured")),
            Some(edge) => {
                if !signed_in {
                    return Err(error("signed out"));
                }
                Ok(edge.blob_url(chat.as_str(), part.as_str()))
            },
        },
    }
}

/// How the read of a blob ended.
#[derive(Debug)]
pub enum BlobReply {
    Failed(String),
    Status(u16),
    BodyFailed(String),
    Body(String),
}

/// The result of a blob fetch. Only a success has a body to read.
pub fn blob_fetched(reply: BlobReply) -> (r: Result<String, EngineError>)
    ensures
        match reply {
            BlobReply::Failed(e) => r is Err && r->Err_0.text() == "sidecar fetch failed: "@ + e@,
            BlobReply::Status(status) => r is Err && r->Err_0.text() == "sidecar fetch: HTTP "@
                + decimal_digits(status as nat),
            BlobReply::BodyFailed(e) => r is Err && r->Err_0.text()
                == "sidecar body read failed: "@ + e@,
            BlobReply::Body(text) => r == Ok::<String, EngineError>(text),
        },
{
    match reply {
        BlobReply::Failed(e) => Err(EngineError::Other(join2("sidecar fetch failed: ", e.as_str()))),
        BlobReply::Status(status) => {
            let number = decimal(status as u64);
            Err(EngineError::Other(join2("sidecar fetch: HTTP ", number.as_str())))
        },
        BlobReply::BodyFailed(e) => Err(
            EngineError::Other(join2("sidecar body read failed: ", e.as_str())),
        ),
        BlobReply::Body(text) => Ok(text),
    }
}

/// One upload of a tool's full result.
#[derive(Debug)]
pub struct SidecarPut {
    pub url: String,
    pub content_type: &'static str,
    pub body: Vec<u8>,
}

/// The uploads of a tool's full result: its output as text, and its diff, already
/// written as JSON, each if there is one and in this order.
pub fn upload_tool_sidecar(
    edge: &EdgeConfig,
    chat_id: &str,
    part_id: &str,
    output: Option<&str>,
    diff_json: Option<Vec<u8>>,
) -> (r: Vec<SidecarPut>)
    ensures
        r@.len() == (if output is Some {
            1int
        } else {
            0int
        }) + (if diff_json is Some {
            1int
        } else {
            0int
        }),
        output is Some ==> {
            &&& r@[0].url@ == without_end_slashes(edge.url@) + "/blob/"@ + chat_id@ + "/"@
                + part_segment(part_id@)
            &&& r@[0].content_type@ == "text/plain; charset=utf-8"@
            &&& r@[0].body@ == encode_utf8(output->0@)
        },
        diff_json is Some ==> {
            &&& r@.last().url@ == without_end_slashes(edge.url@) + "/blob/"@ + chat_id@ + "/"@
                + part_segment(part_id@) + ".diff"@
            &&& r@.last().content_type@ == "application/json"@
            &&& r@.last().body == diff_json->0
        },
{
    let mut puts: Vec<SidecarPut> = Vec::new();
    if let Some(output) = output {
        puts.push(
            SidecarPut {
                url: edge.blob_url(chat_id, part_id),
                content_type: "text/plain; charset=utf-8",
                body: utf8_bytes(output),
            },
        );
    }
    if let Some(body) = diff_json {
        puts.push(
            SidecarPut {
                url: edge.diff_url(chat_id, part_id),
                content_type: "application/json",
                body,
            },
        );
    }
    puts
}

fn utf8_bytes(s: &str) -> (r: Vec<u8>)
    ensures
        r@ == encode_utf8(s@),
{
    let bytes = s.as_bytes();
    let mut out: Vec<u8> = Vec::new();
    let mut i: usize = 0;
    while i < bytes.len()
        invariant
            i <= bytes@.len(),
            out@ == bytes@.take(i as int),
        decreases bytes@.len() - i,
    {
        out.push(bytes[i]);
        assert(out@ =~= bytes@.take(i + 1));
        i = i + 1;
    }
    assert(bytes@.take(i as int) =~= bytes@);
    out
}

/// A blob reference names no path outside its chat: neither name holds a slash, and
/// the chat's name holds no dot.
pub proof fn a_blob_ref_names_one_part_of_one_chat(s: Seq<char>)
    requires
        is_blob_ref(s),
    ensures
        !before(s, '/').contains('/'),
        !before(s, '/').contains('.'),
        !after(s, '/').contains('/'),
        s == before(s, '/') + "/"@ + after(s, '/'),
{
    reveal_strlit("/");
    find_from_is_first(s, '/', 0);
    let chat = before(s, '/');
    let part = after(s, '/');
    assert forall|i: int| 0 <= i < chat.len() implies chat[i] != '/' && chat[i] != '.' by {
        assert(is_chat_char(chat[i]));
    }
    assert forall|i: int| 0 <= i < part.len() implies part[i] != '/' by {
        assert(is_part_char(part[i]));
    }
    assert(s =~= chat + "/"@ + part);
}

} // verus!
