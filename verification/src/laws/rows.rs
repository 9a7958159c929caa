//! Laws of registry rows.

use vstd::prelude::*;

use crate::rows::{
    Chat, Device, RawChat, RawDevice, RawSession, RawSpace, Session, Space,
};

verus! {

/// A stored time is read as itself where a calendar holds it, and as the epoch where
/// none does.
pub open spec fn is_read_as(stored: i64, read: i64) -> bool {
    if -8_334_601_228_800_000 <= stored <= 8_210_266_876_799_999 {
        read == stored
    } else {
        read == 0
    }
}

/// A stored time that may be missing is read as missing exactly where it is.
pub open spec fn may_be_read_as(stored: Option<i64>, read: Option<i64>) -> bool {
    match (stored, read) {
        (Some(stored), Some(read)) => is_read_as(stored, read),
        (None, None) => true,
        _ => false,
    }
}

/// A device is read as what its row holds, each field as itself.
pub proof fn a_device_is_read_as_it_is(raw: RawDevice, r: Device)
    requires
        call_ensures(<Device as From<RawDevice>>::from, (raw,), r),
    ensures
        r.id == raw.id && r.name == raw.name && r.platform == raw.platform && r.version
            == raw.version,
        may_be_read_as(raw.last_seen_at, r.last_seen_at),
        may_be_read_as(raw.created_at, r.created_at),
{
}

/// A space is read as what its row holds, each field as itself.
pub proof fn a_space_is_read_as_it_is(raw: RawSpace, r: Space)
    requires
        call_ensures(<Space as From<RawSpace>>::from, (raw,), r),
    ensures
        r.id == raw.id && r.device_id == raw.device_id && r.path == raw.path && r.name == raw.name,
        r.git_detected == raw.git_detected && r.checkout_id == raw.checkout_id,
        may_be_read_as(raw.git_checked_at, r.git_checked_at),
        is_read_as(raw.created_at, r.created_at),
{
}

/// A chat is read as what its row holds, each field as itself.
pub proof fn a_chat_is_read_as_it_is(raw: RawChat, r: Chat)
    requires
        call_ensures(<Chat as From<RawChat>>::from, (raw,), r),
    ensures
        r.id == raw.id && r.device_id == raw.device_id && r.title == raw.title && r.archived
            == raw.archived,
        r.cwd == raw.cwd && r.branch == raw.branch && r.checkout_id == raw.checkout_id && r.config
            == raw.config,
        r.last_message_preview == raw.last_message_preview,
        may_be_read_as(raw.last_message_at, r.last_message_at),
        is_read_as(raw.created_at, r.created_at),
        r.harness_session_id == raw.harness_session_id && r.harness_session_cwd
            == raw.harness_session_cwd,
        r.space_id == raw.space_id && r.room_gen == raw.room_gen && r.user_id == raw.user_id,
        may_be_read_as(raw.last_seen_at, r.last_seen_at),
{
}

/// A session is read as what its row holds, each field as itself.
pub proof fn a_session_is_read_as_it_is(raw: RawSession, r: Session)
    requires
        call_ensures(<Session as From<RawSession>>::from, (raw,), r),
    ensures
        r.chat_id == raw.chat_id && r.device_id == raw.device_id && r.status == raw.status,
        may_be_read_as(raw.started_at, r.started_at),
        is_read_as(raw.updated_at, r.updated_at),
{
}

} // verus!
