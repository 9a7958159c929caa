//! The session on disk. A small manifest beside the session file says whether that
//! file counts: every change first writes the manifest that fences the file off, and
//! only a session that is wholly written is published by an active manifest.

use vstd::prelude::*;

use super::types::{EngineError, StoredSession};
use crate::text::join2;

verus! {

pub const SESSION_FILE: &'static str = "session.json";

/// Durable session manifest. `signedOut` fences any stale session file; `active`
/// publishes a newly written session. Missing means a session from before manifests.
pub const SESSION_STATE_FILE: &'static str = "session.state";

pub const ACTIVE_SESSION_MANIFEST: &'static str = "{\"state\":\"active\",\"version\":1}";

pub const SIGNED_OUT_SESSION_MANIFEST: &'static str = "{\"state\":\"signedOut\",\"version\":1}";

#[derive(Debug, Clone, Copy, PartialEq, Eq, Structural)]
pub enum PersistedSessionState {
    Active,
    SignedOut,
}

#[derive(Debug, Clone, Copy, PartialEq, Eq, Structural)]
pub struct SessionManifest {
    pub state: PersistedSessionState,
    pub version: u8,
}

/// What reading the manifest file gave: no file, no bytes for another reason, or
/// bytes, with the manifest that they spell where they spell one.
#[derive(Debug, Clone, Copy, PartialEq, Eq, Structural)]
pub enum ManifestRead {
    Missing,
    Unreadable,
    Read(Option<SessionManifest>),
}

/// The session file counts: there is no manifest, or an active one of version 1.
/// Anything else fails closed.
pub open spec fn allows_session(read: ManifestRead) -> bool {
    match read {
        ManifestRead::Missing => true,
        ManifestRead::Unreadable => false,
        ManifestRead::Read(m) => m == Some(
            SessionManifest { state: PersistedSessionState::Active, version: 1 },
        ),
    }
}

/// The manifest is a fence: a signed-out one of version 1.
pub open spec fn is_fence(read: ManifestRead) -> bool {
    read == ManifestRead::Read(
        Some(SessionManifest { state: PersistedSessionState::SignedOut, version: 1 }),
    )
}

pub fn session_allowed(read: &ManifestRead) -> (r: bool)
    ensures
        r == allows_session(*read),
{
    match read {
        ManifestRead::Missing => true,
        ManifestRead::Unreadable => false,
        ManifestRead::Read(None) => false,
        ManifestRead::Read(Some(m)) => m.state == PersistedSessionState::Active && m.version == 1,
    }
}

pub fn session_fenced(read: &ManifestRead) -> (r: bool)
    ensures
        r == is_fence(*read),
{
    match read {
        ManifestRead::Read(Some(m)) => m.state == PersistedSessionState::SignedOut && m.version == 1,
        _ => false,
    }
}

/// What the disk holds of a session.
pub struct Disk {
    pub manifest: ManifestRead,
    pub session: Option<StoredSession>,
}

/// The session that a start finds: the one in the file, where the manifest lets it
/// count.
pub open spec fn loadable(disk: Disk) -> Option<StoredSession> {
    if allows_session(disk.manifest) {
        disk.session
    } else {
        None
    }
}

/// How one durable write of a file ended.
#[derive(Debug, Clone, Copy, PartialEq, Eq, Structural)]
pub enum WriteEnd {
    /// The file holds the new record.
    Written,
    /// The write failed and the file is as it was.
    Untouched,
    /// The write failed after the new record had taken the file's place.
    Replaced,
}

/// The manifest after a write of it.
pub open spec fn manifest_after(disk: Disk, state: PersistedSessionState, end: WriteEnd) -> Disk {
    if end == WriteEnd::Untouched {
        disk
    } else {
        Disk {
            manifest: ManifestRead::Read(Some(SessionManifest { state, version: 1 })),
            session: disk.session,
        }
    }
}

/// The session file after a write of it.
pub open spec fn session_after(disk: Disk, session: StoredSession, end: WriteEnd) -> Disk {
    if end == WriteEnd::Untouched {
        disk
    } else {
        Disk { manifest: disk.manifest, session: Some(session) }
    }
}

// ---------------------------------------------------------------------------
// Publishing a session
// ---------------------------------------------------------------------------

/// Where the publication of a session stands: the write that comes next, or its end.
#[derive(Debug, PartialEq, Eq)]
pub enum PersistStep {
    /// Write the signed-out manifest.
    Fence,
    /// Write the session file.
    Credentials,
    /// Write the active manifest.
    Publish,
    Done,
    Failed(EngineError),
}

/// The first step of publishing a session, once it has been turned into bytes.
pub fn persist_active_session(serialized: Result<(), String>) -> (r: PersistStep)
    ensures
        match serialized {
            Ok(_) => r == PersistStep::Fence,
            Err(e) => r matches PersistStep::Failed(f) && f.text()
                == "could not serialize auth session: "@ + e@,
        },
{
    match serialized {
        Ok(_) => PersistStep::Fence,
        Err(e) => PersistStep::Failed(
            EngineError::Other(join2("could not serialize auth session: ", e.as_str())),
        ),
    }
}

/// What a failed write of a step is reported as.
pub open spec fn persist_failure(step: PersistStep) -> Seq<char> {
    match step {
        PersistStep::Fence => "could not durably fence auth session before update: "@,
        PersistStep::Credentials => "could not durably persist auth session: "@,
        _ => "auth session was written but could not be durably published: "@,
    }
}

/// The step that follows a write that succeeded.
pub open spec fn persist_following(step: PersistStep) -> PersistStep {
    match step {
        PersistStep::Fence => PersistStep::Credentials,
        PersistStep::Credentials => PersistStep::Publish,
        PersistStep::Publish => PersistStep::Done,
        other => other,
    }
}

/// The step that follows the outcome of the current write: the next write, or the
/// end. A failed write ends it. What has ended stays as it is.
pub fn persist_next(step: PersistStep, outcome: Result<(), String>) -> (r: PersistStep)
    ensures
        step is Done || step is Failed ==> r == step,
        !(step is Done || step is Failed) ==> match outcome {
            Ok(_) => r == persist_following(step),
            Err(e) => r matches PersistStep::Failed(f) && f.text() == persist_failure(step) + e@,
        },
{
    match step {
        PersistStep::Fence => match outcome {
            Ok(_) => PersistStep::Credentials,
            Err(e) => PersistStep::Failed(
                EngineError::Other(
                    join2("could not durably fence auth session before update: ", e.as_str()),
                ),
            ),
        },
        PersistStep::Credentials => match outcome {
            Ok(_) => PersistStep::Publish,
            Err(e) => PersistStep::Failed(
                EngineError::Other(join2("could not durably persist auth session: ", e.as_str())),
            ),
        },
        PersistStep::Publish => match outcome {
            Ok(_) => PersistStep::Done,
            Err(e) => PersistStep::Failed(
                EngineError::Other(
                    join2(
                        "auth session was written but could not be durably published: ",
                        e.as_str(),
                    ),
                ),
            ),
        },
        other => other,
    }
}

/// The text that the manifest write of a step writes; none where the step writes the
/// session file or nothing.
pub fn manifest_text(step: &PersistStep) -> (r: Option<&'static str>)
    ensures
        match *step {
            PersistStep::Fence => r is Some && r->0@ == SIGNED_OUT_SESSION_MANIFEST@,
            PersistStep::Publish => r is Some && r->0@ == ACTIVE_SESSION_MANIFEST@,
            _ => r is None,
        },
{
    match step {
        PersistStep::Fence => Some(SIGNED_OUT_SESSION_MANIFEST),
        PersistStep::Publish => Some(ACTIVE_SESSION_MANIFEST),
        _ => None,
    }
}

/// The disk after the write of a step.
pub open spec fn disk_after(
    disk: Disk,
    step: PersistStep,
    session: StoredSession,
    end: WriteEnd,
) -> Disk {
    match step {
        PersistStep::Fence => manifest_after(disk, PersistedSessionState::SignedOut, end),
        PersistStep::Credentials => session_after(disk, session, end),
        PersistStep::Publish => manifest_after(disk, PersistedSessionState::Active, end),
        _ => disk,
    }
}

/// The disk after publishing a session whose three writes end as given: the writes
/// after a failed one are not made.
pub open spec fn disk_after_publication(
    disk: Disk,
    session: StoredSession,
    fence: WriteEnd,
    credentials: WriteEnd,
    publish: WriteEnd,
) -> Disk {
    let d1 = disk_after(disk, PersistStep::Fence, session, fence);
    if fence != WriteEnd::Written {
        d1
    } else {
        let d2 = disk_after(d1, PersistStep::Credentials, session, credentials);
        if credentials != WriteEnd::Written {
            d2
        } else {
            disk_after(d2, PersistStep::Publish, session, publish)
        }
    }
}

/// A session whose publication fails is not found by the next start, nor is the one
/// it was to replace: whichever session file is left behind is fenced off. The one
/// publication that fails after its record took the manifest's place has published
/// the session in full; and a first write that fails without effect leaves the disk
/// as it was.
pub proof fn unpublished_session_is_fenced(
    disk: Disk,
    session: StoredSession,
    fence: WriteEnd,
    credentials: WriteEnd,
    publish: WriteEnd,
)
    ensures
        ({
            let after = disk_after_publication(disk, session, fence, credentials, publish);
            let published = fence == WriteEnd::Written && credentials == WriteEnd::Written
                && publish != WriteEnd::Untouched;
            &&& published ==> loadable(after) == Some(session)
            &&& fence == WriteEnd::Untouched ==> after == disk
            &&& fence != WriteEnd::Untouched && !published ==> loadable(after) is None
        }),
{
}

/// Publishing succeeds exactly when all three writes do, and they come in the order
/// fence, credentials, publish.
pub proof fn publication_runs_in_order(a: Result<(), String>, b: Result<(), String>, c: Result<(), String>, s1: PersistStep, s2: PersistStep, s3: PersistStep)
    requires
        call_ensures(persist_next, (PersistStep::Fence, a), s1),
        call_ensures(persist_next, (s1, b), s2),
        call_ensures(persist_next, (s2, c), s3),
    ensures
        s3 == PersistStep::Done <==> a is Ok && b is Ok && c is Ok,
        s3 is Done || s3 is Failed,
{
}

// ---------------------------------------------------------------------------
// Invalidating a session
// ---------------------------------------------------------------------------

/// What follows the fence write of an invalidation: the stale session file is then
/// unlinked, and how that ends does not matter, for the fence already keeps the file
/// from loading.
pub fn persist_invalidation(fence: Result<(), String>) -> (r: Result<(), EngineError>)
    ensures
        match fence {
            Ok(_) => r is Ok,
            Err(e) => r matches Err(f) && f.text() == "could not durably invalidate auth session: "@
                + e@,
        },
{
    match fence {
        Ok(_) => Ok(()),
        Err(e) => Err(
            EngineError::Other(join2("could not durably invalidate auth session: ", e.as_str())),
        ),
    }
}

/// After a fence write that took effect no start finds a session, whether or not the
/// session file could be removed.
pub proof fn an_invalidated_session_never_loads(disk: Disk, fence: WriteEnd, removed: bool)
    requires
        fence != WriteEnd::Untouched,
    ensures
        ({
            let fenced = manifest_after(disk, PersistedSessionState::SignedOut, fence);
            let left = if removed {
                Disk { manifest: fenced.manifest, session: None }
            } else {
                fenced
            };
            loadable(left) is None && is_fence(left.manifest)
        }),
{
}

/// A manifest that is unreadable, malformed, of another version or signed out never
/// lets a session load.
pub proof fn an_unknown_manifest_fails_closed(read: ManifestRead, session: Option<StoredSession>)
    requires
        read != ManifestRead::Missing,
        read != ManifestRead::Read(
            Some(SessionManifest { state: PersistedSessionState::Active, version: 1 }),
        ),
    ensures
        loadable(Disk { manifest: read, session }) is None,
{
}

/// The session that a start loads: none in dev mode, none where the manifest does not
/// allow one, and otherwise what the session file holds.
pub fn startup_session(
    workos: bool,
    manifest: &ManifestRead,
    session: Option<StoredSession>,
) -> (r: Option<StoredSession>)
    ensures
        r == (if workos {
            loadable(Disk { manifest: *manifest, session })
        } else {
            None
        }),
{
    if workos && session_allowed(manifest) {
        session
    } else {
        None
    }
}

} // verus!
