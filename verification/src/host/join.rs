//! Joining a chat's room: dials with a deadline, waits that double, and good news that
//! ends a wait at once. The supervisor lives as long as the document does, and stops
//! when the credentials are gone.

use vstd::prelude::*;

use super::backoff::{doubled, Backoff};
use super::edge::{host_query, room_address, room_path, EdgeConfig};
use crate::chat::transport::SyncError;

verus! {

/// The deadline of one dial.
pub const DIAL_TIMEOUT_MS: u64 = 60_000;

/// The supervisor of a room join.
#[derive(Debug, Clone, Copy, PartialEq, Eq, Structural)]
pub struct RoomJoin {
    /// The generation of the sinks that this supervisor feeds.
    pub client_generation: u64,
    pub backoff: Backoff,
}

/// How a dial ended.
#[derive(Debug, Clone, Copy, PartialEq, Eq, Structural)]
pub enum DialOutcome {
    Connected,
    Failed,
    TimedOut,
}

/// What follows a dial.
#[derive(Debug, Clone, Copy, PartialEq, Eq, Structural)]
pub enum AfterDial {
    /// The document is gone or the credentials are: drop the client and end.
    Stop,
    /// Install the client for this generation, and watch its events.
    Install { generation: u64 },
    /// Wait this long, plus some jitter, unless good news comes first.
    Wait(u64),
}

/// What ended a wait.
#[derive(Debug, Clone, Copy, PartialEq, Eq, Structural)]
pub enum WaitEnd {
    Elapsed,
    /// The system woke up.
    Wake,
    /// Another dial succeeded.
    Online,
    TokenChanged,
}

/// What a joined room tells its supervisor.
#[derive(Debug, Clone, Copy, PartialEq, Eq, Structural)]
pub enum RoomNews {
    /// The room was wiped.
    ServerReset,
    /// The room rejected a push for good.
    PushRejected,
    /// Rows or acknowledgements were applied.
    Applied,
    Other,
    /// Some news was missed.
    Lagged,
    /// The client is gone.
    Closed,
}

/// What a host does about news of its room.
#[derive(Debug, PartialEq, Eq)]
pub enum HostDuty {
    Nothing,
    /// Ask for a checkpoint, for this reason.
    Checkpoint(&'static str),
    Stop,
}

/// What the supervisor of a joined room does.
#[derive(Debug, Clone, Copy, PartialEq, Eq, Structural)]
pub enum JoinedStep {
    Nothing,
    /// Try to end a full replay.
    ClearReplay,
    /// Park the client, and end.
    Park,
    Stop,
}

impl RoomJoin {
    pub fn new(client_generation: u64, base_ms: u64, cap_ms: u64) -> (r: Self)
        ensures
            r.client_generation == client_generation,
            r.backoff == (Backoff { base: base_ms, cap: cap_ms, current: base_ms }),
    {
        RoomJoin { client_generation, backoff: Backoff::new(base_ms, cap_ms) }
    }

    /// The address to dial, for the token of the moment. A host claims the room's host
    /// slot with its dial.
    pub fn dial_url(&self, edge: &EdgeConfig, chat_id: &str, is_host: bool, token: Option<&str>) -> (
    r: Result<String, SyncError>)
        ensures
            match token {
                Some(t) => r is Ok && r->Ok_0@ == room_address(
                    *edge,
                    "/chat3/"@ + chat_id@ + "/ws"@,
                    t@,
                    if is_host {
                        "&role=host"@
                    } else {
                        ""@
                    },
                ),
                None => r is Err && r->Err_0 is Auth && r->Err_0->Auth_0@
                    == "no access token (signed out)"@,
            },
    {
        let path = room_path(chat_id);
        edge.room_url_with(path.as_str(), host_query(is_host), token)
    }

    /// What follows a dial: a client is installed only while there is still a token and
    /// a document for it.
    pub fn dialed(&self, outcome: DialOutcome, signed_in: bool, document_alive: bool) -> (r:
        AfterDial)
        ensures
            r == (if outcome == DialOutcome::Connected {
                if signed_in && document_alive {
                    AfterDial::Install { generation: self.client_generation }
                } else {
                    AfterDial::Stop
                }
            } else {
                AfterDial::Wait(self.backoff.current)
            }),
    {
        match outcome {
            DialOutcome::Connected => {
                if signed_in && document_alive {
                    AfterDial::Install { generation: self.client_generation }
                } else {
                    AfterDial::Stop
                }
            },
            _ => AfterDial::Wait(self.backoff.current),
        }
    }

    /// A wait ended: one that ran its course makes the next twice as long, and good
    /// news starts over.
    pub fn waited(&mut self, end: WaitEnd)
        ensures
            final(self).client_generation == old(self).client_generation,
            final(self).backoff == (Backoff {
                current: if end == WaitEnd::Elapsed {
                    doubled(old(self).backoff.current, old(self).backoff.cap)
                } else {
                    old(self).backoff.base
                },
                ..old(self).backoff
            }),
    {
        match end {
            WaitEnd::Elapsed => self.backoff.grow(),
            _ => self.backoff.reset(),
        }
    }

    /// What a joined room's news asks of the supervisor.
    pub fn joined_news(&self, news: RoomNews) -> (r: JoinedStep)
        ensures
            r == (match news {
                RoomNews::Applied => JoinedStep::ClearReplay,
                RoomNews::Closed => JoinedStep::Stop,
                _ => JoinedStep::Nothing,
            }),
    {
        match news {
            RoomNews::Applied => JoinedStep::ClearReplay,
            RoomNews::Closed => JoinedStep::Stop,
            _ => JoinedStep::Nothing,
        }
    }

    /// The token changed under a joined room: without one the room is left, and what is
    /// not acknowledged is kept.
    pub fn token_changed(&self, signed_in: bool) -> (r: JoinedStep)
        ensures
            r == (if signed_in {
                JoinedStep::Nothing
            } else {
                JoinedStep::Park
            }),
    {
        if signed_in {
            JoinedStep::Nothing
        } else {
            JoinedStep::Park
        }
    }
}

/// What news of its room asks of a host: a wiped room needs a seed, or fresh readers
/// see only what came after; and what was rejected reaches others only through a
/// checkpoint.
pub fn host_duty(news: RoomNews, document_alive: bool) -> (r: HostDuty)
    ensures
        match news {
            RoomNews::ServerReset => if document_alive {
                r is Checkpoint && r->Checkpoint_0@ == "server-reset"@
            } else {
                r is Stop
            },
            RoomNews::PushRejected => if document_alive {
                r is Checkpoint && r->Checkpoint_0@ == "push-rejected"@
            } else {
                r is Stop
            },
            RoomNews::Closed => r is Stop,
            _ => r is Nothing,
        },
{
    match news {
        RoomNews::ServerReset => {
            if document_alive {
                HostDuty::Checkpoint("server-reset")
            } else {
                HostDuty::Stop
            }
        },
        RoomNews::PushRejected => {
            if document_alive {
                HostDuty::Checkpoint("push-rejected")
            } else {
                HostDuty::Stop
            }
        },
        RoomNews::Closed => HostDuty::Stop,
        _ => HostDuty::Nothing,
    }
}

/// No client is installed without credentials, and a failed dial never ends the
/// supervisor.
pub proof fn a_join_needs_credentials_and_never_gives_up(
    join: RoomJoin,
    outcome: DialOutcome,
    signed_in: bool,
    document_alive: bool,
    next: AfterDial,
)
    requires
        call_ensures(RoomJoin::dialed, (&join, outcome, signed_in, document_alive), next),
    ensures
        next is Install ==> signed_in && document_alive && outcome == DialOutcome::Connected,
        outcome != DialOutcome::Connected ==> next == AfterDial::Wait(join.backoff.current),
{
}

} // verus!
