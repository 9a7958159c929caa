//! The auth service: what a device knows of its account, and every change of it that
//! does not wait for the network. Disk writes are made by the caller between two
//! calls, with no other change in between; their outcomes come back as arguments.

use vstd::prelude::*;

use super::access::{
    background_wait, claimed_org, claimed_ttl, refresh_wait, AccessEntry, Clock, JwtClaims,
};
use super::session::{loadable, startup_session, Disk, ManifestRead};
use super::sign_in::{bumped, has_state, live, without_state, Pending, SignInLifecycle};
use super::types::{
    error, failed_with, holds_session, session_is, session_state, state_for, AuthConfig,
    AuthState, AuthUser, EngineError, SignInResult, StoredSession,
};
use crate::encoding::{percent_encoded, url_encode};
use crate::ids::{is_random_id, random_uuid, uuid_chars, uuid_text};
use crate::text::{
    after, before, before_first, blank, clone_option, decimal, decimal_digits, is_blank, join2,
    join3, join5, split_once, trim, trim_end_slashes, trimmed, without_end_slashes,
};

verus! {

/// What a device knows of its account.
#[derive(Debug)]
pub struct Auth {
    pub config: AuthConfig,
    /// `Some(client_id)` = WorkOS mode; `None` = dev mode.
    pub workos: Option<String>,
    /// Whether construction loaded a parseable WorkOS session. This is an
    /// immutable startup fact: refresh or sign-out must not rewrite it.
    pub loaded_workos_session: bool,
    /// The published account state.
    pub state: AuthState,
    /// Counts the changes of the bearer, for those who hold connections open with it.
    pub token_epoch: u64,
    pub stored: Option<StoredSession>,
    pub access: Option<AccessEntry>,
    pub sign_in: SignInLifecycle,
}

/// The client id that selects WorkOS mode: the configured one, unless it is blank.
pub open spec fn workos_client(config: AuthConfig) -> Option<String> {
    match config.workos_client_id {
        Some(id) => if blank(id@) {
            None
        } else {
            Some(id)
        },
        None => None,
    }
}

/// The account state at startup.
pub open spec fn initial_state(
    config: AuthConfig,
    stored: Option<StoredSession>,
) -> AuthState {
    match (workos_client(config), stored) {
        (None, _) => AuthState::SignedIn {
            user: AuthUser { id: config.dev_user_id, email: config.dev_user_id, name: None },
            org_id: None,
        },
        (Some(_), Some(session)) => session_state(session.user, session.org_id),
        (Some(_), None) => AuthState::SignedOut,
    }
}

/// How the bearer of a request is got.
#[derive(Debug, PartialEq, Eq)]
pub enum TokenSourcing {
    /// This bearer is good as it is.
    Bearer(String),
    /// A refresh has to be made for one.
    Refresh,
}

/// What the background refresh does next.
#[derive(Debug, Clone, Copy, PartialEq, Eq, Structural)]
pub enum RefreshLoopAction {
    /// There is nothing to refresh, ever.
    Stop,
    /// Wait until the account state changes.
    AwaitState,
    /// Wait this many nanoseconds, or until the account state changes, and look again;
    /// on a wake from sleep, refresh at once.
    Sleep(u128),
    /// Refresh now.
    Refresh,
}

/// The seconds that the background refresh waits after a refresh that failed.
pub const REFRESH_RETRY_SECONDS: u64 = 30;

/// The page that a sign-in is sent to.
pub open spec fn authorize_url(
    auth: Auth,
    redirect_uri: Seq<char>,
    state: Seq<char>,
) -> Seq<char> {
    let client = match auth.workos {
        Some(id) => id@,
        None => Seq::empty(),
    };
    without_end_slashes(auth.config.workos_api_base@)
        + "/user_management/authorize?response_type=code&client_id="@ + percent_encoded(
        vstd::utf8::encode_utf8(client),
    ) + "&redirect_uri="@ + percent_encoded(vstd::utf8::encode_utf8(redirect_uri))
        + "&provider=authkit&state="@ + state
}

/// Where the edge shows the code that a headless sign-in pastes back.
pub open spec fn headless_redirect(auth: Auth) -> Seq<char> {
    without_end_slashes(auth.config.edge_url@) + "/auth/cli/callback"@
}

/// Where the loopback server takes the callback of a headed sign-in.
pub open spec fn loopback_redirect(port: u16) -> Seq<char> {
    "http://127.0.0.1:"@ + decimal_digits(port as nat) + "/callback"@
}

/// The message for a pasted code that names no pending sign-in.
pub open spec fn bad_code_message() -> Seq<char> {
    "invalid or expired sign-in code — start sign-in again and paste the full code"@
}

/// The two halves of a pasted code, where both are there.
pub open spec fn pasted_halves(pasted: Seq<char>) -> Option<(Seq<char>, Seq<char>)> {
    let text = trimmed(pasted);
    if text.contains('.') && before(text, '.').len() > 0 && after(text, '.').len() > 0 {
        Some((before(text, '.'), after(text, '.')))
    } else {
        None
    }
}

/// Splits a pasted `state.code` at its first dot.
pub fn split_pasted(pasted: &str) -> (r: Option<(String, String)>)
    ensures
        match r {
            Some((state, code)) => pasted_halves(pasted@) == Some((state@, code@)),
            None => pasted_halves(pasted@) is None,
        },
{
    let text = trim(pasted);
    match split_once(text.as_str(), '.') {
        Some((state, code)) => {
            if state.as_str().is_empty() || code.as_str().is_empty() {
                None
            } else {
                Some((state, code))
            }
        },
        None => None,
    }
}

/// A sign-in that may be written to disk and then committed.
#[derive(Debug)]
pub struct SignInCommit {
    pub session: StoredSession,
    pub access: AccessEntry,
}

impl Auth {
    /// Builds the service from its configuration and what the disk holds: dev mode
    /// unless a WorkOS client id is configured.
    pub fn new(
        config: AuthConfig,
        manifest: &ManifestRead,
        session: Option<StoredSession>,
    ) -> (r: Self)
        ensures
            r.config == config,
            r.workos == workos_client(config),
            r.stored == (if workos_client(config) is Some {
                loadable(Disk { manifest: *manifest, session })
            } else {
                None
            }),
            r.loaded_workos_session == (r.stored is Some),
            r.state == initial_state(config, r.stored),
            r.access is None,
            r.token_epoch == 0,
            r.sign_in.generation == 0,
            r.sign_in.pending@ == Seq::<Pending>::empty(),
            !r.sign_in.profile_transition_active,
    {
        let workos = match &config.workos_client_id {
            Some(id) => if is_blank(id.as_str()) {
                None
            } else {
                Some(id.clone())
            },
            None => None,
        };
        let stored = startup_session(workos.is_some(), manifest, session);
        let state = match (&workos, &stored) {
            (None, _) => AuthState::SignedIn {
                user: AuthUser {
                    id: config.dev_user_id.clone(),
                    email: config.dev_user_id.clone(),
                    name: None,
                },
                org_id: None,
            },
            (Some(_), Some(session)) => state_for(
                session.user.clone(),
                clone_option(&session.org_id),
            ),
            (Some(_), None) => AuthState::SignedOut,
        };
        let loaded = stored.is_some();
        Auth {
            config,
            workos,
            loaded_workos_session: loaded,
            state,
            token_epoch: 0,
            stored,
            access: None,
            sign_in: SignInLifecycle::new(),
        }
    }

    pub fn workos_enabled(&self) -> (r: bool)
        ensures
            r == (self.workos is Some),
    {
        self.workos.is_some()
    }

    /// True when construction loaded a parseable persisted WorkOS session.
    /// The value stays true even if a later refresh revokes that session.
    pub fn loaded_workos_session(&self) -> (r: bool)
        ensures
            r == self.loaded_workos_session,
    {
        self.loaded_workos_session
    }

    pub fn state(&self) -> (r: AuthState)
        ensures
            r == self.state,
    {
        self.state.clone()
    }

    /// The signed-in user id — the identity that scopes workspace rooms and local
    /// storage. Dev mode mirrors the edge's dev-bearer parsing (`user@org` → `user`,
    /// a bare token IS the user id). `None` = signed out (WorkOS only).
    pub fn user_id(&self) -> (r: Option<String>)
        ensures
            self.workos is None ==> r is Some && r->0@ == before(self.config.dev_user_id@, '@'),
            self.workos is Some ==> match self.state.account_user() {
                Some(user) => r == Some(user.id),
                None => r is None,
            },
    {
        if self.workos.is_none() {
            return Some(before_first(self.config.dev_user_id.as_str(), '@'));
        }
        match self.state.user() {
            Some(user) => Some(user.id.clone()),
            None => None,
        }
    }

    /// Where the bearer for edge rooms and the device relay comes from: the configured
    /// user id in dev mode, the cached token while it has more than the slack left,
    /// and a refresh otherwise.
    pub fn access_token(&self, now: &Clock) -> (r: TokenSourcing)
        ensures
            self.workos is None ==> r == TokenSourcing::Bearer(self.config.dev_user_id),
            self.workos is Some ==> match self.access {
                Some(entry) => if entry.usable(*now) {
                    r == TokenSourcing::Bearer(entry.token)
                } else {
                    r == TokenSourcing::Refresh
                },
                None => r == TokenSourcing::Refresh,
            },
    {
        if self.workos.is_none() {
            return TokenSourcing::Bearer(self.config.dev_user_id.clone());
        }
        match &self.access {
            Some(entry) => if entry.is_usable(now) {
                TokenSourcing::Bearer(entry.token.clone())
            } else {
                TokenSourcing::Refresh
            },
            None => TokenSourcing::Refresh,
        }
    }

    /// Whether connections may be dialed with a bearer at all: always in dev mode, and
    /// only while signed in otherwise.
    pub fn may_present_token(&self) -> (r: bool)
        ensures
            r == (self.workos is None || self.state is SignedIn),
    {
        self.workos.is_none() || self.state.is_signed_in()
    }

    /// What the background refresh does next, so that long-lived dials always have a
    /// live token to present on reconnect.
    pub fn next_refresh(&self, now: &Clock) -> (r: RefreshLoopAction)
        ensures
            r == ({
                let wait = refresh_wait(
                    match self.access {
                        Some(entry) => entry.left(*now),
                        None => 0,
                    },
                );
                if self.workos is None {
                    RefreshLoopAction::Stop
                } else if !(self.state is SignedIn) {
                    RefreshLoopAction::AwaitState
                } else if wait > 0 {
                    RefreshLoopAction::Sleep(wait as u128)
                } else {
                    RefreshLoopAction::Refresh
                }
            }),
    {
        if self.workos.is_none() {
            return RefreshLoopAction::Stop;
        }
        if !self.state.is_signed_in() {
            return RefreshLoopAction::AwaitState;
        }
        let wait = background_wait(&self.access, now);
        if wait > 0 {
            RefreshLoopAction::Sleep(wait)
        } else {
            RefreshLoopAction::Refresh
        }
    }

    // -- sign-in flows ------------------------------------------------------

    /// Begins a sign-in under a given state: the state is pending from now on, and the
    /// page to open carries it.
    pub fn begin_sign_in(&mut self, redirect_uri: &str, state: String, now: u128) -> (r: String)
        ensures
            r@ == authorize_url(*old(self), redirect_uri@, state@),
            *final(self) == (Auth { sign_in: final(self).sign_in, ..*old(self) }),
            final(self).sign_in.generation == old(self).sign_in.generation,
            final(self).sign_in.profile_transition_active
                == old(self).sign_in.profile_transition_active,
            final(self).sign_in.pending@ == without_state(
                live(old(self).sign_in.pending@, now),
                state@,
            ).push((state, now)),
    {
        let base = trim_end_slashes(self.config.workos_api_base.as_str());
        let client = match &self.workos {
            Some(id) => url_encode(id.as_str()),
            None => url_encode(""),
        };
        proof {
            if self.workos is None {
                reveal_strlit("");
                assert(""@ =~= Seq::<char>::empty());
            }
        }
        let redirect = url_encode(redirect_uri);
        let head = join5(
            base.as_str(),
            "/user_management/authorize?response_type=code&client_id=",
            client.as_str(),
            "&redirect_uri=",
            redirect.as_str(),
        );
        let url = join3(head.as_str(), "&provider=authkit&state=", state.as_str());
        self.sign_in.begin(state, now);
        url
    }

    /// Begins a headed sign-in: the page redirects to our loopback callback server. In
    /// dev mode there is nothing to do, and no page.
    pub fn start_sign_in(&mut self, port: u16, now: u128) -> (r: String)
        ensures
            old(self).workos is None ==> r@ == Seq::<char>::empty() && *final(self) == *old(self),
            old(self).workos is Some ==> exists|id: u128|
                #![trigger uuid_chars(id)]
                {
                    &&& id != 0
                    &&& is_random_id(id)
                    &&& r@ == authorize_url(*old(self), loopback_redirect(port), uuid_chars(id))
                    &&& final(self).sign_in.pending@.len() > 0
                    &&& final(self).sign_in.pending@.last().0@ == uuid_chars(id)
                    &&& final(self).sign_in.pending@.last().1 == now
                    &&& final(self).sign_in.pending@.drop_last() == without_state(
                        live(old(self).sign_in.pending@, now),
                        uuid_chars(id),
                    )
                },
            *final(self) == (Auth { sign_in: final(self).sign_in, ..*old(self) }),
            final(self).sign_in.generation == old(self).sign_in.generation,
            final(self).sign_in.profile_transition_active
                == old(self).sign_in.profile_transition_active,
    {
        if self.workos.is_none() {
            return String::new();
        }
        let port_text = decimal(port as u64);
        let redirect = join3("http://127.0.0.1:", port_text.as_str(), "/callback");
        let id = random_uuid();
        let state = uuid_text(id);
        let url = self.begin_sign_in(redirect.as_str(), state, now);
        assert(self.sign_in.pending@.drop_last() =~= without_state(
            live(old(self).sign_in.pending@, now),
            uuid_chars(id),
        ));
        url
    }

    /// Begins a headless sign-in: the redirect is the edge's hosted paste-code page —
    /// nothing ever redirects to this machine, so the browser can be anywhere.
    pub fn start_headless_sign_in(&mut self, now: u128) -> (r: String)
        ensures
            old(self).workos is None ==> r@ == Seq::<char>::empty() && *final(self) == *old(self),
            old(self).workos is Some ==> exists|id: u128|
                #![trigger uuid_chars(id)]
                {
                    &&& id != 0
                    &&& is_random_id(id)
                    &&& r@ == authorize_url(
                        *old(self),
                        headless_redirect(*old(self)),
                        uuid_chars(id),
                    )
                    &&& final(self).sign_in.pending@.len() > 0
                    &&& final(self).sign_in.pending@.last().0@ == uuid_chars(id)
                    &&& final(self).sign_in.pending@.last().1 == now
                    &&& final(self).sign_in.pending@.drop_last() == without_state(
                        live(old(self).sign_in.pending@, now),
                        uuid_chars(id),
                    )
                },
            *final(self) == (Auth { sign_in: final(self).sign_in, ..*old(self) }),
            final(self).sign_in.generation == old(self).sign_in.generation,
            final(self).sign_in.profile_transition_active
                == old(self).sign_in.profile_transition_active,
    {
        if self.workos.is_none() {
            return String::new();
        }
        let edge = trim_end_slashes(self.config.edge_url.as_str());
        let redirect = join2(edge.as_str(), "/auth/cli/callback");
        let id = random_uuid();
        let state = uuid_text(id);
        let url = self.begin_sign_in(redirect.as_str(), state, now);
        assert(self.sign_in.pending@.drop_last() =~= without_state(
            live(old(self).sign_in.pending@, now),
            uuid_chars(id),
        ));
        url
    }

    /// Takes a pending sign-in, and gives the generation it may finish in. `None` means
    /// unknown or expired.
    pub fn take_pending(&mut self, state: &str, now: u128) -> (r: Option<u64>)
        ensures
            *final(self) == (Auth { sign_in: final(self).sign_in, ..*old(self) }),
            final(self).sign_in.generation == old(self).sign_in.generation,
            final(self).sign_in.profile_transition_active
                == old(self).sign_in.profile_transition_active,
            final(self).sign_in.pending@ == without_state(
                live(old(self).sign_in.pending@, now),
                state@,
            ),
            r == (if has_state(live(old(self).sign_in.pending@, now), state@) {
                Some(old(self).sign_in.generation)
            } else {
                None
            }),
    {
        self.sign_in.take_pending(state, now)
    }

    /// Accepts a pasted `state.code`: the code to exchange and the generation it may
    /// finish in, where the state half names a sign-in started here. In dev mode there
    /// is nothing to exchange.
    pub fn complete_sign_in(&mut self, pasted: &str, now: u128) -> (r: Result<
        Option<(String, u64)>,
        EngineError,
    >)
        ensures
            *final(self) == (Auth { sign_in: final(self).sign_in, ..*old(self) }),
            final(self).sign_in.generation == old(self).sign_in.generation,
            final(self).sign_in.profile_transition_active
                == old(self).sign_in.profile_transition_active,
            old(self).workos is None ==> r is Ok && r->Ok_0 is None && *final(self) == *old(self),
            old(self).workos is Some ==> match pasted_halves(pasted@) {
                None => failed_with(r, bad_code_message()) && *final(self) == *old(self),
                Some((state, code)) => {
                    &&& final(self).sign_in.pending@ == without_state(
                        live(old(self).sign_in.pending@, now),
                        state,
                    )
                    &&& has_state(live(old(self).sign_in.pending@, now), state) ==> r is Ok
                        && r->Ok_0 is Some && (r->Ok_0->0).0@ == code && (r->Ok_0->0).1 == old(
                        self,
                    ).sign_in.generation
                    &&& !has_state(live(old(self).sign_in.pending@, now), state) ==> failed_with(
                        r,
                        bad_code_message(),
                    )
                },
            },
    {
        if self.workos.is_none() {
            return Ok(None);
        }
        match split_pasted(pasted) {
            None => Err(
                error(
                    "invalid or expired sign-in code — start sign-in again and paste the full code",
                ),
            ),
            Some((state, code)) => match self.take_pending(state.as_str(), now) {
                Some(generation) => Ok(Some((code, generation))),
                None => Err(
                    error(
                        "invalid or expired sign-in code — start sign-in again and paste the full code",
                    ),
                ),
            },
        }
    }

    /// The session that a finished exchange gives.
    pub open spec fn exchanged_session(
        result: SignInResult,
        claims: Option<JwtClaims>,
    ) -> StoredSession {
        StoredSession {
            refresh_token: result.refresh_token,
            user: result.user,
            org_id: claimed_org(claims),
        }
    }

    /// Whether an exchanged code may still be committed: a cancellation since its state
    /// was taken, or a profile transition under way, refuses it. Sign-out during the
    /// exchange must never be undone by it.
    pub fn prepare_sign_in(
        &self,
        result: SignInResult,
        claims: Option<JwtClaims>,
        generation: u64,
        now: Clock,
    ) -> (r: Result<SignInCommit, EngineError>)
        ensures
            self.sign_in.admits(generation) ==> r is Ok && r->Ok_0.session
                == Self::exchanged_session(result, claims) && r->Ok_0.access.token
                == result.access_token && r->Ok_0.access.ttl == claimed_ttl(claims)
                && r->Ok_0.access.got == now,
            !self.sign_in.admits(generation) ==> failed_with(
                r,
                "sign-in was canceled — start again from Zeron"@,
            ),
    {
        if !self.sign_in.admits_generation(generation) {
            return Err(error("sign-in was canceled — start again from Zeron"));
        }
        let org_id = match &claims {
            Some(c) => clone_option(&c.org_id),
            None => None,
        };
        let access = AccessEntry::fresh(result.access_token, &claims, now);
        Ok(
            SignInCommit {
                session: StoredSession {
                    refresh_token: result.refresh_token,
                    user: result.user,
                    org_id,
                },
                access,
            },
        )
    }

    /// `after` is `before` signed out: no session, no token, every sign-in canceled.
    pub open spec fn signed_out(before: Self, after: Self) -> bool {
        &&& after.config == before.config
        &&& after.workos == before.workos
        &&& after.loaded_workos_session == before.loaded_workos_session
        &&& after.state == AuthState::SignedOut
        &&& after.token_epoch == bumped(before.token_epoch)
        &&& after.stored is None
        &&& after.access is None
        &&& SignInLifecycle::canceled(before.sign_in, after.sign_in)
    }

    /// `after` is `before` with a session and token in place.
    pub open spec fn session_committed(
        before: Self,
        after: Self,
        session: StoredSession,
        access: AccessEntry,
    ) -> bool {
        after == (Auth {
            state: session_state(session.user, session.org_id),
            token_epoch: bumped(before.token_epoch),
            stored: Some(session),
            access: Some(access),
            ..before
        })
    }

    /// Ends a prepared sign-in once its session was published, or could not be. Only a
    /// published session becomes the account; the fence that a failed publication
    /// leaves on disk signs the account out.
    pub fn finish_sign_in(
        &mut self,
        commit: SignInCommit,
        published: Result<(), EngineError>,
    ) -> (r: Result<(), EngineError>)
        ensures
            r == published,
            published is Ok ==> Self::session_committed(
                *old(self),
                *final(self),
                commit.session,
                commit.access,
            ),
            published is Err ==> Self::signed_out(*old(self), *final(self)),
    {
        match published {
            Ok(done) => {
                let state = state_for(
                    commit.session.user.clone(),
                    clone_option(&commit.session.org_id),
                );
                self.stored = Some(commit.session);
                self.access = Some(commit.access);
                self.state = state;
                self.token_epoch = self.token_epoch.wrapping_add(1);
                Ok(done)
            },
            Err(e) => {
                self.finish_signed_out();
                Err(e)
            },
        }
    }

    /// Signs the account out in memory.
    pub fn finish_signed_out(&mut self)
        ensures
            Self::signed_out(*old(self), *final(self)),
    {
        self.sign_in.cancel();
        self.stored = None;
        self.access = None;
        self.state = AuthState::SignedOut;
        self.token_epoch = self.token_epoch.wrapping_add(1);
    }

    /// Signs out once the session on disk is fenced; where it could not be, nothing
    /// changes.
    pub fn sign_out(&mut self, invalidated: Result<(), EngineError>) -> (r: Result<
        (),
        EngineError,
    >)
        ensures
            r == invalidated,
            invalidated is Ok ==> Self::signed_out(*old(self), *final(self)),
            invalidated is Err ==> *final(self) == *old(self),
    {
        match invalidated {
            Ok(done) => {
                self.finish_signed_out();
                Ok(done)
            },
            Err(e) => Err(e),
        }
    }

    /// Signs out if the given session is still the stored one. A concurrent sign-in is
    /// never erased.
    pub fn finish_invalidated_prior(&mut self, prior: &StoredSession)
        ensures
            holds_session(old(self).stored, *prior) ==> Self::signed_out(*old(self), *final(self)),
            !holds_session(old(self).stored, *prior) ==> *final(self) == *old(self),
    {
        if session_is(&self.stored, prior) {
            self.finish_signed_out();
        }
    }

    /// Whether the given session is still the stored one.
    pub fn holds(&self, prior: &StoredSession) -> (r: bool)
        ensures
            r == holds_session(self.stored, *prior),
    {
        session_is(&self.stored, prior)
    }

    /// Cancel OAuth callbacks already in flight and prevent any callback from
    /// committing while a profile-changing operation is using a pinned session.
    pub fn begin_profile_transition(&mut self)
        ensures
            *final(self) == (Auth { sign_in: final(self).sign_in, ..*old(self) }),
            final(self).sign_in.profile_transition_active,
            final(self).sign_in.generation == bumped(old(self).sign_in.generation),
            final(self).sign_in.pending@ == Seq::<Pending>::empty(),
    {
        self.sign_in.begin_profile_transition();
    }

    pub fn end_profile_transition(&mut self)
        ensures
            *final(self) == (Auth { sign_in: final(self).sign_in, ..*old(self) }),
            !final(self).sign_in.profile_transition_active,
            final(self).sign_in.generation == bumped(old(self).sign_in.generation),
            final(self).sign_in.pending@ == Seq::<Pending>::empty(),
    {
        self.sign_in.end_profile_transition();
    }
}

/// No sign-in can be committed while a profile transition is under way, and none that
/// was taken before the transition can be committed after it.
pub proof fn a_transition_refuses_sign_ins(
    before: SignInLifecycle,
    during: SignInLifecycle,
    after: SignInLifecycle,
    generation: u64,
)
    requires
        during.profile_transition_active,
        during.generation == bumped(before.generation),
        after.generation == bumped(during.generation),
        generation == before.generation || generation == during.generation,
    ensures
        !during.admits(generation),
        !after.admits(generation),
{
}

/// A code pasted as it was shown, state, dot, code, is split into the state that was
/// handed out and the code: the text of a state holds no dot.
pub proof fn a_shown_code_splits_back(id: u128, code: Seq<char>)
    requires
        code.len() > 0,
        trimmed(uuid_chars(id) + seq!['.'] + code) == uuid_chars(id) + seq!['.'] + code,
    ensures
        pasted_halves(uuid_chars(id) + seq!['.'] + code) == Some((uuid_chars(id), code)),
{
    let shown = uuid_chars(id) + seq!['.'] + code;
    crate::ids::uuid_alphabet(id);
    assert(shown[36] == '.');
    crate::text::find_from_is_first(shown, '.', 0);
    let at = crate::text::find_from(shown, '.', 0);
    assert(at == 36) by {
        if at < 36 {
            assert(shown[at] == uuid_chars(id)[at]);
        }
    }
    assert(before(shown, '.') =~= uuid_chars(id));
    assert(after(shown, '.') =~= code);
}

} // verus!
