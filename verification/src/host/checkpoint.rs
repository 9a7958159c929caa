//! Checkpoints: full uploads of a document by its host, one at a time.
//!
//! A checkpoint covers the rows up to its number and every push that the room rejected
//! before it. Requests that come while an upload runs are merged into one more; none is
//! lost when the upload ends.

use vstd::prelude::*;

use super::backoff::Backoff;
use super::edge::EdgeConfig;
use super::handle::{ChatDocHandle, CheckpointState};
use super::snapshots::ClientStats;
use crate::encoding::{base64_encode, base64_text};
use crate::text::{decimal_digits, without_end_slashes};

verus! {

/// How long a busy client is left alone before it is looked at again.
pub const BUSY_RETRY_MS: u64 = 25;

pub const POST_RETRY_BASE_MS: u64 = 250;

pub const POST_RETRY_CAP_MS: u64 = 30_000;

/// A room whose rows take more bytes than this wants a checkpoint.
pub const CHECKPOINT_ROW_BYTES: u64 = 524_288;

/// A room with more rows than this wants a checkpoint.
pub const CHECKPOINT_ROWS: u64 = 200;

/// How often a freshly joined room is asked whether it has a checkpoint.
pub const BOOTSTRAP_POLL_MS: u64 = 3_000;

impl CheckpointState {
    /// A request is served by an upload that runs.
    pub open spec fn wf(self) -> bool {
        self.requested ==> self.running
    }

    /// After a request.
    pub open spec fn asked(self, reason: &'static str) -> Self {
        CheckpointState { running: true, requested: true, reason }
    }

    /// What a claim gets.
    pub open spec fn next(self) -> Option<&'static str> {
        if self.requested {
            Some(self.reason)
        } else {
            None
        }
    }

    /// After a claim: the upload runs on with a request, and ends without one.
    pub open spec fn claimed(self) -> Self {
        CheckpointState {
            running: self.requested && self.running,
            requested: false,
            reason: self.reason,
        }
    }

    pub fn new() -> (r: Self)
        ensures
            r.wf(),
            !r.running && !r.requested,
            r.reason@ == "unspecified"@,
    {
        CheckpointState { running: false, requested: false, reason: "unspecified" }
    }

    /// Asks for an upload: whether the caller has to start one, for none runs.
    pub fn request(&mut self, reason: &'static str) -> (start: bool)
        ensures
            start == !old(self).running,
            *final(self) == old(self).asked(reason),
    {
        self.requested = true;
        self.reason = reason;
        if self.running {
            false
        } else {
            self.running = true;
            true
        }
    }

    /// The upload takes the next request, or ends where there is none. Both are decided
    /// at once, so that a request is neither lost when the upload ends nor starts a
    /// second one.
    pub fn claim(&mut self) -> (r: Option<&'static str>)
        ensures
            r == old(self).next(),
            *final(self) == old(self).claimed(),
    {
        if !self.requested {
            self.running = false;
            return None;
        }
        self.requested = false;
        Some(self.reason)
    }

    /// The upload ends for good, with the document that it was for.
    pub fn stop(&mut self)
        ensures
            *final(self) == (CheckpointState { running: false, requested: false, ..*old(self) }),
    {
        self.requested = false;
        self.running = false;
    }
}

/// The state of the uploads after a number of requests.
pub open spec fn after_requests(state: CheckpointState, reasons: Seq<&'static str>) -> CheckpointState
    decreases reasons.len(),
{
    if reasons.len() == 0 {
        state
    } else {
        after_requests(state, reasons.drop_last()).asked(reasons.last())
    }
}

/// No request is lost and no second upload starts: requests that come while an upload
/// runs start none, its next claim gets them all as one, with the latest reason, and it
/// ends only when there is none.
pub proof fn no_request_is_lost(before: CheckpointState, reasons: Seq<&'static str>)
    requires
        before.wf(),
    ensures
        after_requests(before, reasons).wf(),
        after_requests(before, reasons).claimed().wf(),
        before.running ==> after_requests(before, reasons).running,
        reasons.len() > 0 ==> after_requests(before, reasons).next() == Some(reasons.last())
            && after_requests(before, reasons).claimed().running,
        before.running && !after_requests(before, reasons).claimed().running ==> reasons.len() == 0
            && !before.requested,
    decreases reasons.len(),
{
    if reasons.len() > 0 {
        no_request_is_lost(before, reasons.drop_last());
    }
}

/// Asks for a checkpoint of a document: whether the caller has to start an upload. A
/// closed document, or one without an edge, has none.
pub fn spawn_chat2_checkpoint(handle: &mut ChatDocHandle, edge: bool, reason: &'static str) -> (
start: bool)
    ensures
        ({
            let asked = edge && !old(handle).closed();
            &&& start == (asked && !old(handle).checkpoint.running)
            &&& asked ==> *final(handle) == (ChatDocHandle {
                checkpoint: old(handle).checkpoint.asked(reason),
                ..*old(handle)
            })
            &&& !asked ==> *final(handle) == *old(handle)
        }),
{
    if !edge || handle.is_closed() {
        return false;
    }
    handle.checkpoint.request(reason)
}

/// One upload, and the wait before its next attempt.
#[derive(Debug, Clone, Copy, PartialEq, Eq, Structural)]
pub struct CheckpointUpload {
    pub backoff: Backoff,
}

/// What an upload finds when it looks at its document.
#[derive(Debug, Clone, Copy, PartialEq, Eq, Structural)]
pub enum UploadLook {
    /// The document is gone or closed: end for good.
    Stop,
    /// The client cannot be read at the moment: look again after this wait.
    Busy(u64),
    /// Export the document, then call `may_post`. The checkpoint will cover the rows
    /// and the rejected pushes up to these numbers.
    Export { seq_covered: u64, rejected_covered: u64 },
}

/// What becomes of an upload after its answer.
#[derive(Debug, Clone, Copy, PartialEq, Eq, Structural)]
pub enum UploadOutcome {
    Posted,
    /// This device does not hold the room's host slot and will not be granted it.
    GiveUp,
    /// Try again after this wait.
    Retry(u64),
}

/// The request of an upload.
#[derive(Debug)]
pub struct CheckpointRequest {
    pub url: String,
    /// The `x-chat2-frontier` header: the version that the checkpoint reaches.
    pub frontier: String,
}

impl CheckpointUpload {
    pub fn new() -> (r: Self)
        ensures
            r.backoff == (Backoff {
                base: POST_RETRY_BASE_MS,
                cap: POST_RETRY_CAP_MS,
                current: POST_RETRY_BASE_MS,
            }),
    {
        CheckpointUpload { backoff: Backoff::new(POST_RETRY_BASE_MS, POST_RETRY_CAP_MS) }
    }

    /// Looks at the document before an attempt. A client that cannot be read, or a slot
    /// that is empty for the moment, is no reason to drop a request.
    pub fn look(
        &self,
        handle: Option<&ChatDocHandle>,
        current: bool,
        stats: Option<ClientStats>,
    ) -> (r: UploadLook)
        ensures
            r == (match handle {
                None => UploadLook::Stop,
                Some(h) => if !current || h.closed() {
                    UploadLook::Stop
                } else {
                    match stats {
                        None => UploadLook::Busy(BUSY_RETRY_MS),
                        Some(s) => UploadLook::Export {
                            seq_covered: s.cursor,
                            rejected_covered: s.rejected,
                        },
                    }
                },
            }),
    {
        match handle {
            None => UploadLook::Stop,
            Some(h) => {
                if !current || h.is_closed() {
                    return UploadLook::Stop;
                }
                match stats {
                    None => UploadLook::Busy(BUSY_RETRY_MS),
                    Some(s) => UploadLook::Export {
                        seq_covered: s.cursor,
                        rejected_covered: s.rejected,
                    },
                }
            },
        }
    }

    /// Something that may heal went wrong — no token, an export that failed: the wait
    /// before the next look.
    pub fn failed(&mut self) -> (wait: u64)
        ensures
            wait == old(self).backoff.current,
            final(self).backoff.current == super::backoff::doubled(
                old(self).backoff.current,
                old(self).backoff.cap,
            ),
            final(self).backoff.base == old(self).backoff.base,
            final(self).backoff.cap == old(self).backoff.cap,
    {
        self.backoff.next_wait()
    }

    /// Looks once more before the upload goes out: a device that no longer hosts the
    /// chat must not publish a stale checkpoint.
    pub fn may_post(&self, is_host: bool, handle: Option<&ChatDocHandle>, current: bool) -> (r:
        bool)
        ensures
            r == (is_host && handle is Some && !handle->0.closed() && current),
    {
        match handle {
            None => false,
            Some(h) => is_host && !h.is_closed() && current,
        }
    }

    /// The request of an upload.
    pub fn request(&self, edge: &EdgeConfig, chat_id: &str, seq_covered: u64, frontier: &[u8]) -> (
    r: CheckpointRequest)
        ensures
            r.url@ == without_end_slashes(edge.url@) + "/chat3/"@ + chat_id@
                + "/checkpoint?seqCovered="@ + decimal_digits(seq_covered as nat)
                + "&role=host"@,
            r.frontier@ == base64_text(frontier@, '+', '/', true),
    {
        CheckpointRequest {
            url: edge.checkpoint_url(chat_id, seq_covered),
            frontier: base64_encode(frontier),
        }
    }

    /// Judges the answer: the status, or none where the request failed. A refusal of
    /// the host slot is final; an expired token is not, for a refresh heals it.
    pub fn answered(&mut self, status: Option<u16>) -> (r: UploadOutcome)
        ensures
            r == (match status {
                Some(s) => if 200 <= s < 300 {
                    UploadOutcome::Posted
                } else if s == 403 {
                    UploadOutcome::GiveUp
                } else {
                    UploadOutcome::Retry(old(self).backoff.current)
                },
                None => UploadOutcome::Retry(old(self).backoff.current),
            }),
            *final(self) == (if r is Retry {
                CheckpointUpload {
                    backoff: Backoff {
                        current: super::backoff::doubled(
                            old(self).backoff.current,
                            old(self).backoff.cap,
                        ),
                        ..old(self).backoff
                    },
                }
            } else {
                *old(self)
            }),
    {
        if let Some(s) = status {
            if 200 <= s && s < 300 {
                return UploadOutcome::Posted;
            }
            if s == 403 {
                return UploadOutcome::GiveUp;
            }
        }
        UploadOutcome::Retry(self.backoff.next_wait())
    }
}

/// A checkpoint was taken: the pushes rejected before it are covered. A later, smaller
/// count takes nothing back.
pub fn checkpoint_posted(handle: &mut ChatDocHandle, rejected_covered: u64)
    ensures
        *final(handle) == (ChatDocHandle {
            checkpointed_rejections: if rejected_covered > old(handle).checkpointed_rejections {
                rejected_covered
            } else {
                old(handle).checkpointed_rejections
            },
            ..*old(handle)
        }),
        final(handle).checkpointed_rejections >= old(handle).checkpointed_rejections,
        final(handle).checkpointed_rejections >= rejected_covered,
{
    if rejected_covered > handle.checkpointed_rejections {
        handle.checkpointed_rejections = rejected_covered;
    }
}

/// What a host owes its room when the document comes to rest.
#[derive(Debug, Clone, Copy, PartialEq, Eq, Structural)]
pub struct Maintenance {
    /// Publish the tail of the transcript.
    pub tail: bool,
    /// Ask for a checkpoint.
    pub checkpoint: bool,
}

/// The duties of a host when the document comes to rest: the tail every time, and a
/// checkpoint once the room's rows have grown past either bound. Viewers of a document
/// that is hosted elsewhere have none.
pub fn chat2_maintenance(
    handle: &ChatDocHandle,
    is_host: bool,
    stats: Option<ClientStats>,
    edge: bool,
) -> (r: Maintenance)
    ensures
        ({
            let on_duty = !handle.retired && is_host && stats is Some && edge;
            &&& r.tail == on_duty
            &&& r.checkpoint == (on_duty && (stats->0.row_bytes > CHECKPOINT_ROW_BYTES
                || stats->0.row_count > CHECKPOINT_ROWS))
        }),
{
    if handle.retired || !is_host || !edge {
        return Maintenance { tail: false, checkpoint: false };
    }
    match stats {
        None => Maintenance { tail: false, checkpoint: false },
        Some(s) => Maintenance {
            tail: true,
            checkpoint: s.row_bytes > CHECKPOINT_ROW_BYTES || s.row_count > CHECKPOINT_ROWS,
        },
    }
}

/// What the watch over a freshly joined room finds.
#[derive(Debug, Clone, Copy, PartialEq, Eq, Structural)]
pub enum BootstrapLook {
    Stop,
    /// Ask again after this wait: the room has not answered yet.
    Wait(u64),
    /// The room answered; whether it has no checkpoint.
    Known { no_checkpoint: bool },
}

/// Looks whether a freshly joined room has a checkpoint. An answer that is not there
/// yet settles nothing: the watch stays until the room answers or the document ends.
pub fn bootstrap_look(handle: Option<&ChatDocHandle>, stats: Option<ClientStats>) -> (r:
    BootstrapLook)
    ensures
        r == (match handle {
            None => BootstrapLook::Stop,
            Some(h) => if h.closed() {
                BootstrapLook::Stop
            } else {
                match stats {
                    Some(s) => if s.server_known {
                        BootstrapLook::Known { no_checkpoint: s.checkpoint_size == 0 }
                    } else {
                        BootstrapLook::Wait(BOOTSTRAP_POLL_MS)
                    },
                    None => BootstrapLook::Wait(BOOTSTRAP_POLL_MS),
                }
            },
        }),
{
    match handle {
        None => BootstrapLook::Stop,
        Some(h) => {
            if h.is_closed() {
                return BootstrapLook::Stop;
            }
            if let Some(s) = stats {
                if s.server_known {
                    return BootstrapLook::Known { no_checkpoint: s.checkpoint_size == 0 };
                }
            }
            BootstrapLook::Wait(BOOTSTRAP_POLL_MS)
        },
    }
}

/// A room without a checkpoint gets one, if there is anything to put into it.
pub fn wants_bootstrap(no_checkpoint: bool, entries: usize) -> (r: bool)
    ensures
        r == (no_checkpoint && entries > 0),
{
    no_checkpoint && entries > 0
}

} // verus!
