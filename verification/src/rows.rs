//! Registry row shapes: the rows as a document holds them, with timestamps in
//! milliseconds since the epoch, and the entities that they are read as.

use vstd::prelude::*;

verus! {

/// How agents are kept from the rest of the machine.
#[derive(Debug, Clone, PartialEq, Eq)]
pub enum SandboxLevel {
    WorkspaceWrite,
    /// Another level, by its name.
    Named(String),
}

/// The agent settings of a chat.
#[derive(Debug, PartialEq, Eq)]
pub struct ChatConfig {
    pub harness: String,
    pub model: Option<String>,
    pub reasoning: Option<String>,
    pub model_options: Vec<(String, String)>,
    pub sandbox: SandboxLevel,
}

/// A point in time, in milliseconds since the epoch.
pub type Millis = i64;

#[derive(Debug, PartialEq, Eq)]
pub struct Device {
    pub id: String,
    pub name: String,
    pub platform: String,
    pub last_seen_at: Option<Millis>,
    pub created_at: Option<Millis>,
    pub version: Option<String>,
}

#[derive(Debug, PartialEq, Eq)]
pub struct Space {
    pub id: String,
    pub device_id: String,
    pub path: String,
    pub name: Option<String>,
    pub git_detected: bool,
    pub git_checked_at: Option<Millis>,
    pub checkout_id: Option<String>,
    pub created_at: Millis,
}

#[derive(Debug, PartialEq, Eq)]
pub struct Chat {
    pub id: String,
    pub device_id: String,
    pub title: Option<String>,
    pub archived: bool,
    pub cwd: Option<String>,
    pub branch: Option<String>,
    pub checkout_id: Option<String>,
    pub config: Option<ChatConfig>,
    pub last_message_preview: Option<String>,
    pub last_message_at: Option<Millis>,
    pub created_at: Millis,
    pub harness_session_id: Option<String>,
    pub harness_session_cwd: Option<String>,
    pub space_id: Option<String>,
    pub last_seen_at: Option<Millis>,
    pub room_gen: Option<u32>,
    pub user_id: Option<String>,
}

#[derive(Debug, PartialEq, Eq)]
pub struct Session {
    pub chat_id: String,
    pub device_id: String,
    pub status: String,
    pub started_at: Option<Millis>,
    pub updated_at: Millis,
}

/// Everything in the registry, materialized (`read_all`).
#[derive(Debug, PartialEq, Eq)]
pub struct RegistryRows {
    pub devices: Vec<Device>,
    pub spaces: Vec<Space>,
    pub chats: Vec<Chat>,
    pub sessions: Vec<Session>,
}

/// Result of a `delete_space` cascade — the chat ids removed alongside the
/// space so the engine can drop local run state / doc-host handles.
#[derive(Debug, PartialEq)]
pub struct DeletedSpace {
    pub existed: bool,
    pub chat_ids: Vec<String>,
}

/// Result of a `delete_device` cascade — same contract as [`DeletedSpace`].
#[derive(Debug, PartialEq)]
pub struct DeletedDevice {
    pub existed: bool,
    pub chat_ids: Vec<String>,
}

/// The first millisecond of the year 262144 BCE.
pub const MIN_MILLIS: i64 = -8_334_601_228_800_000;

/// The last millisecond of the year 262142 CE.
pub const MAX_MILLIS: i64 = 8_210_266_876_799_999;

/// Calls `chrono::DateTime::from_timestamp_millis` and reads the result back with
/// `timestamp_millis`: the same number, where it lies in the years that a
/// `chrono::DateTime` can hold, and nothing where it does not.
#[verifier::external_body]
fn timestamp_millis(ms: i64) -> (r: Option<i64>)
    ensures
        r == (if MIN_MILLIS <= ms <= MAX_MILLIS {
            Some(ms)
        } else {
            None
        }),
{
    chrono::DateTime::from_timestamp_millis(ms).map(|at| at.timestamp_millis())
}

/// A stored timestamp as a point in time: one that no calendar holds reads as the
/// epoch.
pub open spec fn point_in_time(ms: i64) -> Millis {
    if MIN_MILLIS <= ms <= MAX_MILLIS {
        ms
    } else {
        0
    }
}

pub open spec fn optional_point(ms: Option<i64>) -> Option<Millis> {
    match ms {
        Some(ms) => Some(point_in_time(ms)),
        None => None,
    }
}

fn dt(ms: i64) -> (r: Millis)
    ensures
        r == point_in_time(ms),
{
    match timestamp_millis(ms) {
        Some(at) => at,
        None => 0,
    }
}

fn optional_dt(ms: Option<i64>) -> (r: Option<Millis>)
    ensures
        r == optional_point(ms),
{
    match ms {
        Some(ms) => Some(dt(ms)),
        None => None,
    }
}

// ── doc-resident row shapes (epoch-millis timestamps) ───────────────────────

#[derive(Debug)]
pub struct RawDevice {
    pub id: String,
    pub name: String,
    pub platform: String,
    pub last_seen_at: Option<i64>,
    pub created_at: Option<i64>,
    pub version: Option<String>,
}

impl vstd::std_specs::convert::FromSpecImpl<RawDevice> for Device {
    open spec fn obeys_from_spec() -> bool {
        true
    }

    open spec fn from_spec(raw: RawDevice) -> Device {
        Device {
            id: raw.id,
            name: raw.name,
            platform: raw.platform,
            last_seen_at: optional_point(raw.last_seen_at),
            created_at: optional_point(raw.created_at),
            version: raw.version,
        }
    }
}

impl From<RawDevice> for Device {
    fn from(raw: RawDevice) -> (r: Self) {
        Device {
            id: raw.id,
            name: raw.name,
            platform: raw.platform,
            last_seen_at: optional_dt(raw.last_seen_at),
            created_at: optional_dt(raw.created_at),
            version: raw.version,
        }
    }
}

#[derive(Debug)]
pub struct RawSpace {
    pub id: String,
    pub device_id: String,
    pub path: String,
    pub name: Option<String>,
    pub git_detected: bool,
    pub git_checked_at: Option<i64>,
    pub checkout_id: Option<String>,
    pub created_at: i64,
}

impl vstd::std_specs::convert::FromSpecImpl<RawSpace> for Space {
    open spec fn obeys_from_spec() -> bool {
        true
    }

    open spec fn from_spec(raw: RawSpace) -> Space {
        Space {
            id: raw.id,
            device_id: raw.device_id,
            path: raw.path,
            name: raw.name,
            git_detected: raw.git_detected,
            git_checked_at: optional_point(raw.git_checked_at),
            checkout_id: raw.checkout_id,
            created_at: point_in_time(raw.created_at),
        }
    }
}

impl From<RawSpace> for Space {
    fn from(raw: RawSpace) -> (r: Self) {
        Space {
            id: raw.id,
            device_id: raw.device_id,
            path: raw.path,
            name: raw.name,
            git_detected: raw.git_detected,
            git_checked_at: optional_dt(raw.git_checked_at),
            checkout_id: raw.checkout_id,
            created_at: dt(raw.created_at),
        }
    }
}

#[derive(Debug)]
pub struct RawChat {
    pub id: String,
    pub device_id: String,
    pub title: Option<String>,
    pub archived: bool,
    pub cwd: Option<String>,
    pub branch: Option<String>,
    pub checkout_id: Option<String>,
    pub config: Option<ChatConfig>,
    pub last_message_preview: Option<String>,
    pub last_message_at: Option<i64>,
    pub created_at: i64,
    pub harness_session_id: Option<String>,
    pub harness_session_cwd: Option<String>,
    pub space_id: Option<String>,
    pub last_seen_at: Option<i64>,
    pub room_gen: Option<u32>,
    pub user_id: Option<String>,
}

impl vstd::std_specs::convert::FromSpecImpl<RawChat> for Chat {
    open spec fn obeys_from_spec() -> bool {
        true
    }

    open spec fn from_spec(raw: RawChat) -> Chat {
        Chat {
            id: raw.id,
            device_id: raw.device_id,
            title: raw.title,
            archived: raw.archived,
            cwd: raw.cwd,
            branch: raw.branch,
            checkout_id: raw.checkout_id,
            config: raw.config,
            last_message_preview: raw.last_message_preview,
            last_message_at: optional_point(raw.last_message_at),
            created_at: point_in_time(raw.created_at),
            harness_session_id: raw.harness_session_id,
            harness_session_cwd: raw.harness_session_cwd,
            space_id: raw.space_id,
            last_seen_at: optional_point(raw.last_seen_at),
            room_gen: raw.room_gen,
            user_id: raw.user_id,
        }
    }
}

impl From<RawChat> for Chat {
    fn from(raw: RawChat) -> (r: Self) {
        Chat {
            id: raw.id,
            device_id: raw.device_id,
            title: raw.title,
            archived: raw.archived,
            cwd: raw.cwd,
            branch: raw.branch,
            checkout_id: raw.checkout_id,
            config: raw.config,
            last_message_preview: raw.last_message_preview,
            last_message_at: optional_dt(raw.last_message_at),
            created_at: dt(raw.created_at),
            harness_session_id: raw.harness_session_id,
            harness_session_cwd: raw.harness_session_cwd,
            space_id: raw.space_id,
            last_seen_at: optional_dt(raw.last_seen_at),
            room_gen: raw.room_gen,
            user_id: raw.user_id,
        }
    }
}

#[derive(Debug)]
pub struct RawSession {
    pub chat_id: String,
    pub device_id: String,
    pub status: String,
    pub started_at: Option<i64>,
    pub updated_at: i64,
}

impl vstd::std_specs::convert::FromSpecImpl<RawSession> for Session {
    open spec fn obeys_from_spec() -> bool {
        true
    }

    open spec fn from_spec(raw: RawSession) -> Session {
        Session {
            chat_id: raw.chat_id,
            device_id: raw.device_id,
            status: raw.status,
            started_at: optional_point(raw.started_at),
            updated_at: point_in_time(raw.updated_at),
        }
    }
}

impl From<RawSession> for Session {
    fn from(raw: RawSession) -> (r: Self) {
        Session {
            chat_id: raw.chat_id,
            device_id: raw.device_id,
            status: raw.status,
            started_at: optional_dt(raw.started_at),
            updated_at: dt(raw.updated_at),
        }
    }
}

} // verus!
