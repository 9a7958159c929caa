//! Durable commands: what a user or an agent asks of a chat, kept in the chat's
//! document until its host has dealt with it.

use vstd::prelude::*;

use super::edge::EdgeConfig;
use super::handle::{ChatDocHandle, DocError};
use crate::json::{add_member, Json, JsonView};
use crate::mcp::McpServerConfig;
use crate::rows::{Chat, SandboxLevel};
use crate::text::{text_eq, texts, without_end_slashes};

verus! {

/// A checkout to run in, of a repository and a base.
#[derive(Debug, Clone)]
pub struct WorktreeSpec {
    pub repo_path: String,
    pub base: String,
}

/// What an agent is run with.
#[derive(Debug, Clone)]
pub struct RunRequest {
    pub prompt: String,
    pub harness: Option<String>,
    pub model: Option<String>,
    pub reasoning: Option<String>,
    pub model_options: Vec<(String, String)>,
    pub cwd: String,
    pub sandbox: SandboxLevel,
    pub auto_approve: bool,
    pub attachments: Vec<String>,
    pub mcp_servers: Vec<McpServerConfig>,
    pub resume: Option<String>,
    pub worktree: Option<WorktreeSpec>,
}

/// The answer to one question: the labels that were picked.
#[derive(Debug, Clone)]
pub struct UserInputAnswer {
    pub question_id: String,
    pub labels: Vec<String>,
}

#[derive(Debug, Clone)]
#[allow(inconsistent_fields)]
pub enum SessionCommandPayload {
    Run { request: RunRequest, message_id: String },
    Steer { prompt: String, message_id: Option<String> },
    Interrupt,
    RespondInput { request_id: String, answers: Vec<UserInputAnswer> },
}

#[derive(Debug, Clone, Copy, PartialEq, Eq, Structural)]
pub enum SessionCommandStatus {
    Pending,
    Applied,
    Rejected,
    Expired,
    Superseded,
}

/// Where a send of an agent came from, and how many sends of agents led to it.
#[derive(Debug, Clone)]
pub struct CommandOrigin {
    pub from_chat_id: String,
    pub hops: u32,
}

/// A command, as the document of a chat holds it.
#[derive(Debug, Clone)]
pub struct SessionCommandEntry {
    pub id: String,
    pub payload: SessionCommandPayload,
    pub issued_by: String,
    pub issued_at: i64,
    pub user_id: Option<String>,
    pub origin: Option<CommandOrigin>,
    /// The last message that the sender saw.
    pub based_on: Option<String>,
    pub expires_at: Option<i64>,
    pub status: SessionCommandStatus,
    pub resolution: Option<String>,
}

/// What a command comes to when it is looked at.
#[derive(Debug, Clone, Copy, PartialEq, Eq, Structural)]
pub enum CommandDisposition {
    Execute,
    Skip,
    Expired,
    Superseded,
}

impl SessionCommandPayload {
    /// The command carries a message of the user.
    pub open spec fn carries_message(self) -> bool {
        self is Run || self is Steer
    }

    /// The message that the command carries, by its id.
    pub open spec fn message(self) -> Option<Seq<char>> {
        match self {
            SessionCommandPayload::Run { request: _, message_id } => Some(message_id@),
            SessionCommandPayload::Steer { prompt: _, message_id } => match message_id {
                Some(id) => Some(id@),
                None => None,
            },
            _ => None,
        }
    }

    pub fn is_message(&self) -> (r: bool)
        ensures
            r == self.carries_message(),
    {
        match self {
            SessionCommandPayload::Run { request: _, message_id: _ } => true,
            SessionCommandPayload::Steer { prompt: _, message_id: _ } => true,
            _ => false,
        }
    }

    pub fn message_id(&self) -> (r: Option<&str>)
        ensures
            match r {
                Some(id) => self.message() == Some(id@),
                None => self.message() is None,
            },
    {
        match self {
            SessionCommandPayload::Run { request: _, message_id } => Some(message_id.as_str()),
            SessionCommandPayload::Steer { prompt: _, message_id } => match message_id {
                Some(id) => Some(id.as_str()),
                None => None,
            },
            _ => None,
        }
    }
}

// ---------------------------------------------------------------------------
// Queueing
// ---------------------------------------------------------------------------

/// The user that commands of this engine are attributed to: an empty name is none.
pub fn issuing_user(user_id: &str) -> (r: Option<String>)
    ensures
        match r {
            Some(u) => user_id@.len() > 0 && u@ == user_id@,
            None => user_id@.len() == 0,
        },
{
    if user_id.is_empty() {
        None
    } else {
        Some(user_id.to_owned())
    }
}

/// A new command is as it should be: pending, issued now by this device, and good for
/// its time to live.
pub open spec fn is_new_entry(
    entry: SessionCommandEntry,
    id: String,
    payload: SessionCommandPayload,
    user_id: Option<String>,
    origin: Option<CommandOrigin>,
    device_id: Seq<char>,
    last_message: Option<String>,
    now: i64,
    ttl: i64,
) -> bool {
    &&& entry.id == id
    &&& entry.payload == payload
    &&& entry.issued_by@ == device_id
    &&& entry.issued_at == now
    &&& entry.user_id == user_id
    &&& entry.origin == origin
    &&& entry.based_on == last_message
    &&& entry.expires_at == Some((now + ttl) as i64)
    &&& entry.status == SessionCommandStatus::Pending
    &&& entry.resolution is None
}

/// A new command.
pub fn new_entry(
    id: String,
    payload: SessionCommandPayload,
    user_id: Option<String>,
    origin: Option<CommandOrigin>,
    device_id: &str,
    last_message: Option<String>,
    now: i64,
    ttl: i64,
) -> (r: SessionCommandEntry)
    requires
        i64::MIN <= now + ttl <= i64::MAX,
    ensures
        is_new_entry(r, id, payload, user_id, origin, device_id@, last_message, now, ttl),
{
    SessionCommandEntry {
        id,
        payload,
        issued_by: device_id.to_owned(),
        issued_at: now,
        user_id,
        origin,
        based_on: last_message,
        expires_at: Some(now + ttl),
        status: SessionCommandStatus::Pending,
        resolution: None,
    }
}

/// The one queue path: a command for a chat, if its document can be written.
pub fn queue_command(
    handle: &ChatDocHandle,
    id: String,
    payload: SessionCommandPayload,
    user_id: Option<String>,
    origin: Option<CommandOrigin>,
    last_message: Option<String>,
    now: i64,
    ttl: i64,
) -> (r: Result<SessionCommandEntry, DocError>)
    requires
        i64::MIN <= now + ttl <= i64::MAX,
    ensures
        handle.closed() ==> r is Err && r->Err_0->Schema_0@ == "chat "@ + handle.chat_id@
            + " is frozen for room-generation cutover"@,
        !handle.closed() ==> r is Ok && is_new_entry(
            r->Ok_0,
            id,
            payload,
            user_id,
            origin,
            handle.device_id@,
            last_message,
            now,
            ttl,
        ),
{
    match handle.ensure_mutable() {
        Err(e) => Err(e),
        Ok(_) => Ok(
            new_entry(
                id,
                payload,
                user_id,
                origin,
                handle.device_id.as_str(),
                last_message,
                now,
                ttl,
            ),
        ),
    }
}

/// Sending a message revives an archived chat.
pub fn revives(payload: &SessionCommandPayload, chat: &Option<Chat>) -> (r: bool)
    ensures
        r == (payload.carries_message() && chat is Some && chat->0.archived),
{
    match chat {
        Some(c) => payload.is_message() && c.archived,
        None => false,
    }
}

/// The host device of a chat, when it is not this one. A chat without a row is nobody's
/// yet: whoever deals with its commands first claims it.
pub fn remote_host_for(chat: &Option<Chat>, device_id: &str) -> (r: Option<String>)
    ensures
        match r {
            Some(d) => chat is Some && d == chat->0.device_id && d@ != device_id@,
            None => chat is None || chat->0.device_id@ == device_id@,
        },
{
    match chat {
        Some(c) => {
            if text_eq(c.device_id.as_str(), device_id) {
                None
            } else {
                Some(c.device_id.clone())
            }
        },
        None => None,
    }
}

/// A nudge of a host device.
pub struct Nudge {
    pub url: String,
    pub body: Json,
}

/// Nudges the host of a chat when another device hosts it, so that a cold host opens
/// the document and deals with its commands. Without an edge there is none.
pub fn nudge_remote_host(
    edge: &Option<EdgeConfig>,
    chat: &Option<Chat>,
    device_id: &str,
    chat_id: &str,
) -> (r: Option<Nudge>)
    ensures
        match r {
            Some(n) => edge is Some && chat is Some && chat->0.device_id@ != device_id@ && n.url@
                == without_end_slashes(edge->0.url@) + "/device/"@ + chat->0.device_id@
                + "/nudge"@ && n.body@ == JsonView::Object(
                seq![("chatId"@, JsonView::Text(chat_id@))],
            ),
            None => edge is None || chat is None || chat->0.device_id@ == device_id@,
        },
{
    match edge {
        None => None,
        Some(edge) => match remote_host_for(chat, device_id) {
            None => None,
            Some(host) => {
                let mut members: Vec<(String, Json)> = Vec::new();
                add_member(&mut members, "chatId", Json::Text(chat_id.to_owned()));
                let body = Json::Object(members);
                assert(body@->Object_0 =~= seq![("chatId"@, JsonView::Text(chat_id@))]);
                Some(Nudge { url: edge.nudge_url(host.as_str()), body })
            },
        },
    }
}

// ---------------------------------------------------------------------------
// Attachments
// ---------------------------------------------------------------------------

/// The attachments of a command that are named by where they will be, not by where they
/// are: those of a run's attachments that are marked so, or those that were found in a
/// steer's prompt.
pub open spec fn pending_refs_of(
    payload: SessionCommandPayload,
    marked: Seq<bool>,
    in_prompt: Seq<String>,
) -> Seq<Seq<char>> {
    match payload {
        SessionCommandPayload::Run { request, message_id: _ } => marked_texts(
            texts(request.attachments@),
            marked,
        ),
        SessionCommandPayload::Steer { prompt: _, message_id: _ } => texts(in_prompt),
        _ => Seq::empty(),
    }
}

/// The texts that are marked, in their order.
pub open spec fn marked_texts(items: Seq<Seq<char>>, marked: Seq<bool>) -> Seq<Seq<char>>
    decreases items.len(),
{
    if items.len() == 0 {
        Seq::empty()
    } else {
        let rest = marked_texts(items.drop_last(), marked);
        if items.len() <= marked.len() && marked[items.len() - 1] {
            rest.push(items.last())
        } else {
            rest
        }
    }
}

fn pick_marked(items: &Vec<String>, marked: &Vec<bool>) -> (r: Vec<String>)
    ensures
        texts(r@) == marked_texts(texts(items@), marked@),
{
    let mut out: Vec<String> = Vec::new();
    let mut i: usize = 0;
    assert(texts(out@) =~= Seq::empty());
    while i < items.len()
        invariant
            i <= items@.len(),
            texts(out@) == marked_texts(texts(items@).take(i as int), marked@),
        decreases items@.len() - i,
    {
        let ghost before = out@;
        assert(texts(items@).take(i + 1).drop_last() =~= texts(items@).take(i as int));
        if i < marked.len() && marked[i] {
            out.push(items[i].clone());
            assert(texts(out@) =~= texts(before).push(items@[i as int]@));
        }
        i = i + 1;
    }
    assert(texts(items@).take(i as int) =~= texts(items@));
    out
}

/// The attachments of a command that have to be on the host before it can run.
/// `marked` says which of a run's attachments are such references, and `in_prompt`
/// holds the ones found in a steer's prompt.
pub fn pending_refs(
    payload: &SessionCommandPayload,
    marked: &Vec<bool>,
    in_prompt: Vec<String>,
) -> (r: Vec<String>)
    ensures
        texts(r@) == pending_refs_of(*payload, marked@, in_prompt@),
{
    match payload {
        SessionCommandPayload::Run { request, message_id: _ } => pick_marked(
            &request.attachments,
            marked,
        ),
        SessionCommandPayload::Steer { prompt: _, message_id: _ } => in_prompt,
        _ => {
            let out: Vec<String> = Vec::new();
            assert(texts(out@) =~= Seq::empty());
            out
        },
    }
}

/// The attachments that are not on this device's disk yet. `landed` says of each
/// whether it is. Without an uploads store none is missing: the absence of the
/// subsystem must never wedge a queue.
pub fn missing_attachments(refs: Vec<String>, uploads: bool, landed: &Vec<bool>) -> (r: Vec<String>)
    requires
        landed@.len() == refs@.len(),
    ensures
        uploads ==> texts(r@) == marked_texts(texts(refs@), landed@.map_values(|l: bool| !l)),
        !uploads ==> r@.len() == 0,
{
    if !uploads {
        return Vec::new();
    }
    let mut missing: Vec<bool> = Vec::new();
    let mut i: usize = 0;
    while i < landed.len()
        invariant
            i <= landed@.len(),
            missing@ == landed@.map_values(|l: bool| !l).take(i as int),
        decreases landed@.len() - i,
    {
        missing.push(!landed[i]);
        assert(missing@ =~= landed@.map_values(|l: bool| !l).take(i + 1));
        i = i + 1;
    }
    assert(missing@ =~= landed@.map_values(|l: bool| !l));
    pick_marked(&refs, &missing)
}

/// A file that a command's attachment names: pushed to the host of the chat.
#[derive(Debug, PartialEq, Eq)]
pub struct AttachmentTransfer {
    pub upload_id: String,
    pub file_name: String,
}

/// The files that references name; a reference that names none is passed over.
pub open spec fn named_files(names: Seq<Option<(String, String)>>) -> Seq<AttachmentTransfer>
    decreases names.len(),
{
    if names.len() == 0 {
        Seq::empty()
    } else {
        let rest = named_files(names.drop_last());
        match names.last() {
            Some((upload_id, file_name)) => rest.push(AttachmentTransfer { upload_id, file_name }),
            None => rest,
        }
    }
}

/// The transfers that a command's references imply, each read as an upload and a file
/// name, where it is one.
pub fn command_transfers(names: &Vec<Option<(String, String)>>) -> (r: Vec<AttachmentTransfer>)
    ensures
        r@ == named_files(names@),
{
    let mut out: Vec<AttachmentTransfer> = Vec::new();
    let mut i: usize = 0;
    while i < names.len()
        invariant
            i <= names@.len(),
            out@ == named_files(names@.take(i as int)),
        decreases names@.len() - i,
    {
        assert(names@.take(i + 1).drop_last() =~= names@.take(i as int));
        if let Some((upload_id, file_name)) = &names[i] {
            out.push(
                AttachmentTransfer { upload_id: upload_id.clone(), file_name: file_name.clone() },
            );
        }
        i = i + 1;
    }
    assert(names@.take(i as int) =~= names@);
    out
}

} // verus!
