//! Refreshing the session. Refresh tokens are good for one exchange, so a refresh is a
//! conversation of several steps: perhaps a fence on disk, a request, and then the
//! commit or the withdrawal that its reply calls for. Each step here names what the
//! caller does next; a method of the step takes the outcome and gives the next step.
//! Steps that touch the disk run with the session locked, and the request does not.

use vstd::prelude::*;

use super::access::{claimed_org, claimed_ttl, AccessEntry, Clock, JwtClaims};
use super::service::Auth;
use super::session::{is_fence, session_fenced, ManifestRead};
use super::sign_in::bumped;
use super::types::{
    error, error_then, failed_with, holds_session, session_state, state_for, EngineError,
    StoredSession,
};
use crate::edge_errors::{
    edge_response_error_message, edge_response_outcome_unknown, error_line, says_outcome_unknown,
};
use crate::encoding::utf8_lossy;
use crate::json::parsed_json;
use crate::text::{
    clone_option, decimal, decimal_digits, join2, join4, join5, option_text, option_text_eq,
    same_option_text, text_eq, trim_end_slashes, without_end_slashes,
};

verus! {

#[derive(Debug, Clone, Copy, PartialEq, Eq, Structural)]
pub enum RefreshFailurePolicy {
    /// Preserve the established offline retry behavior for ordinary background
    /// refreshes, which do not attempt an organization transition.
    Routine,
    /// A complete edge rejection proves the refresh token was not rotated, so
    /// the pre-request session may be republished.
    RestoreOnDefiniteRejection,
    /// The caller already completed an irreversible operation (workspace delete),
    /// so the old profile must remain fenced even after a definite rejection.
    KeepInvalidated,
}

/// A refresh under way: the organization it asks for, how it treats failure, and the
/// session it spends.
#[derive(Debug)]
pub struct Refresh {
    pub organization_id: Option<String>,
    pub policy: RefreshFailurePolicy,
    pub prior: StoredSession,
}

/// A refresh that still has to find the fence of a deletion in place.
#[derive(Debug)]
pub struct FenceCheck {
    pub organization_id: Option<String>,
}

/// A refresh whose session the edge revoked: it is to be fenced on disk.
#[derive(Debug)]
pub struct RevokedRefresh {
    pub prior: StoredSession,
    pub rejection: EngineError,
}

/// A refresh that was rejected: its session is to be published again.
#[derive(Debug)]
pub struct RejectedRefresh {
    pub prior: StoredSession,
    pub rejection: EngineError,
}

/// A refresh whose new session is to be published.
#[derive(Debug)]
pub struct RefreshCommit {
    pub prior: StoredSession,
    pub candidate: StoredSession,
    pub access: AccessEntry,
}

/// What the caller does next.
#[derive(Debug)]
pub enum RefreshStep {
    /// The refresh is over: the new access token, nothing when signed out, or a
    /// failure.
    Done(Result<Option<String>, EngineError>),
    /// Fence the session on disk, then call `Refresh::fenced`.
    Fence(Refresh),
    /// Read the manifest, then call `FenceCheck::manifest_read`.
    ReadManifest(FenceCheck),
    /// Send the request of `Refresh::request`, then call `Refresh::replied`.
    Send(Refresh),
    /// Fence the revoked session on disk, then call `RevokedRefresh::fenced`.
    SignOut(RevokedRefresh),
    /// Publish the prior session, then call `RejectedRefresh::restored`.
    Restore(RejectedRefresh),
    /// Fence the session on disk, then call `RefreshCommit::fenced`.
    CommitFence(RefreshCommit),
    /// Publish the candidate, then call `RefreshCommit::published`.
    Publish(RefreshCommit),
}

/// The request of a refresh.
#[derive(Debug, PartialEq, Eq)]
pub struct RefreshRequest {
    pub url: String,
    pub refresh_token: String,
    pub organization_id: Option<String>,
}

/// The tokens of an accepted refresh, with the claims inside the access token.
#[derive(Debug)]
pub struct RefreshTokens {
    pub access_token: String,
    pub refresh_token: String,
    pub claims: Option<JwtClaims>,
}

/// What came back for the request of a refresh.
#[derive(Debug)]
pub enum RefreshResponse {
    /// The request could not be sent, for the given cause.
    Unreachable(String),
    /// The response had this status, and its body could not be read.
    BodyUnread { status: u16, cause: String },
    /// A whole response, and what its body gives when it is read as tokens.
    Complete { status: u16, body: Vec<u8>, tokens: Result<RefreshTokens, String> },
}

/// What the response of a refresh means.
#[derive(Debug)]
pub enum RefreshReply {
    /// Whether the token was spent is not known.
    Uncertain(EngineError),
    /// The edge itself does not know whether the token was spent.
    OutcomeUnknown(EngineError),
    /// Rejected with a client error: for a refresh that asks for no organization, the
    /// session is dead.
    ClientRejected(EngineError),
    /// Rejected otherwise.
    Rejected(EngineError),
    Accepted(RefreshTokens),
}

/// A status of success.
pub open spec fn is_success(status: u16) -> bool {
    200 <= status < 300
}

/// A status of client error.
pub open spec fn is_client_error(status: u16) -> bool {
    400 <= status < 500
}

/// Reads the meaning out of a response.
pub fn read_reply(response: RefreshResponse) -> (r: RefreshReply)
    ensures
        match response {
            RefreshResponse::Unreachable(cause) => r is Uncertain && r->Uncertain_0.text()
                == "could not reach the edge during refresh: "@ + cause@,
            RefreshResponse::BodyUnread { status, cause } => r is Uncertain
                && r->Uncertain_0.text() == "refresh failed ("@ + decimal_digits(status as nat)
                + "): could not read the response: "@ + cause@,
            RefreshResponse::Complete { status, body, tokens } => {
                let message = error_line(
                    "refresh failed"@,
                    status,
                    parsed_json(body@),
                    utf8_lossy(body@),
                );
                if is_success(status) {
                    match tokens {
                        Ok(tokens) => r == RefreshReply::Accepted(tokens),
                        Err(cause) => r is Uncertain && r->Uncertain_0.text()
                            == "malformed refresh response: "@ + cause@,
                    }
                } else if says_outcome_unknown(parsed_json(body@)) {
                    r is OutcomeUnknown && r->OutcomeUnknown_0.text() == message
                } else if is_client_error(status) {
                    r is ClientRejected && r->ClientRejected_0.text() == message
                } else {
                    r is Rejected && r->Rejected_0.text() == message
                }
            },
        },
{
    match response {
        RefreshResponse::Unreachable(cause) => RefreshReply::Uncertain(
            EngineError::Other(join2("could not reach the edge during refresh: ", cause.as_str())),
        ),
        RefreshResponse::BodyUnread { status, cause } => {
            let code = decimal(status as u64);
            RefreshReply::Uncertain(
                EngineError::Other(
                    join4(
                        "refresh failed (",
                        code.as_str(),
                        "): could not read the response: ",
                        cause.as_str(),
                    ),
                ),
            )
        },
        RefreshResponse::Complete { status, body, tokens } => {
            if 200 <= status && status < 300 {
                return match tokens {
                    Ok(tokens) => RefreshReply::Accepted(tokens),
                    Err(cause) => RefreshReply::Uncertain(
                        EngineError::Other(
                            join2("malformed refresh response: ", cause.as_str()),
                        ),
                    ),
                };
            }
            let message = EngineError::Other(
                edge_response_error_message("refresh failed", status, &body),
            );
            if edge_response_outcome_unknown(&body) {
                RefreshReply::OutcomeUnknown(message)
            } else if 400 <= status && status < 500 {
                RefreshReply::ClientRejected(message)
            } else {
                RefreshReply::Rejected(message)
            }
        },
    }
}

/// The refresh ends in a failure with the given message.
pub open spec fn ends_in(step: RefreshStep, message: Seq<char>) -> bool {
    step is Done && failed_with(step->Done_0, message)
}

/// The refresh ends without a token and without a failure.
pub open spec fn ends_signed_out(step: RefreshStep) -> bool {
    step is Done && step->Done_0 is Ok && step->Done_0->Ok_0 is None
}

/// `after` is `before` signed out if it still held the session, and `before` if not.
pub open spec fn withdrawn(before: Auth, after: Auth, prior: StoredSession) -> bool {
    if holds_session(before.stored, prior) {
        Auth::signed_out(before, after)
    } else {
        after == before
    }
}

/// The name of a scope in a message.
pub open spec fn scope_name(org: Option<String>) -> Seq<char> {
    match org {
        Some(org) => org@,
        None => "no workspace"@,
    }
}

fn scope_text(org: &Option<String>) -> (r: String)
    ensures
        r@ == scope_name(*org),
{
    match org {
        Some(org) => org.clone(),
        None => "no workspace".to_owned(),
    }
}

pub open spec fn uncertain_suffix() -> Seq<char> {
    "; refresh outcome is uncertain, so the previous session was safely signed out"@
}

pub open spec fn unknown_suffix() -> Seq<char> {
    "; WorkOS reported that the refresh outcome is unknown, so the previous session was safely signed out"@
}

pub open spec fn wrong_scope_message(expected: Seq<char>, got: Option<String>) -> Seq<char> {
    "could not switch to workspace "@ + expected + ": the refreshed token was scoped to "@
        + scope_name(got)
        + "; the refresh token may have rotated, so the previous session was safely signed out"@
}

pub open spec fn overtaken_message(expected: Seq<char>, got: Option<String>) -> Seq<char> {
    "could not switch to workspace "@ + expected + ": another sign-in selected "@ + scope_name(got)
        + " while the switch was in flight"@
}

/// The token asks for the organization it was given for, or for none.
pub open spec fn scoped_as_asked(asked: Option<String>, got: Option<String>) -> bool {
    asked is None || same_option_text(asked, got)
}

/// Begins a refresh, with the refresh gate held. A refresh that asks for no
/// organization and finds a usable token has nothing to do.
pub fn begin_refresh(
    auth: &Auth,
    organization_id: Option<String>,
    policy: RefreshFailurePolicy,
    now: &Clock,
) -> (r: RefreshStep)
    ensures
        ({
            let cached = organization_id is None && auth.access is Some && auth.access->0.usable(
                *now,
            );
            if cached {
                r == RefreshStep::Done(Ok(Some(auth.access->0.token)))
            } else {
                match policy {
                    RefreshFailurePolicy::KeepInvalidated => r == RefreshStep::ReadManifest(
                        FenceCheck { organization_id },
                    ),
                    RefreshFailurePolicy::Routine => match auth.stored {
                        Some(prior) => r == RefreshStep::Send(
                            Refresh { organization_id, policy, prior },
                        ),
                        None => ends_signed_out(r),
                    },
                    RefreshFailurePolicy::RestoreOnDefiniteRejection => match auth.stored {
                        Some(prior) => r == RefreshStep::Fence(
                            Refresh { organization_id, policy, prior },
                        ),
                        None => ends_signed_out(r),
                    },
                }
            }
        }),
{
    if organization_id.is_none() {
        if let Some(entry) = &auth.access {
            if entry.is_usable(now) {
                return RefreshStep::Done(Ok(Some(entry.token.clone())));
            }
        }
    }
    match policy {
        RefreshFailurePolicy::KeepInvalidated => {
            RefreshStep::ReadManifest(FenceCheck { organization_id })
        },
        RefreshFailurePolicy::Routine => match &auth.stored {
            Some(prior) => RefreshStep::Send(
                Refresh { organization_id, policy, prior: prior.clone() },
            ),
            None => RefreshStep::Done(Ok(None)),
        },
        RefreshFailurePolicy::RestoreOnDefiniteRejection => match &auth.stored {
            Some(prior) => RefreshStep::Fence(
                Refresh { organization_id, policy, prior: prior.clone() },
            ),
            None => RefreshStep::Done(Ok(None)),
        },
    }
}

impl FenceCheck {
    /// After a deletion a refresh goes on only while the fence of the deletion stands.
    pub fn manifest_read(self, auth: &Auth, read: &ManifestRead) -> (r: RefreshStep)
        ensures
            !is_fence(*read) ==> ends_in(
                r,
                "auth session changed while completing workspace deletion"@,
            ),
            is_fence(*read) ==> match auth.stored {
                Some(prior) => r == RefreshStep::Send(
                    Refresh {
                        organization_id: self.organization_id,
                        policy: RefreshFailurePolicy::KeepInvalidated,
                        prior,
                    },
                ),
                None => ends_signed_out(r),
            },
    {
        if !session_fenced(read) {
            return RefreshStep::Done(
                Err(error("auth session changed while completing workspace deletion")),
            );
        }
        match &auth.stored {
            Some(prior) => RefreshStep::Send(
                Refresh {
                    organization_id: self.organization_id,
                    policy: RefreshFailurePolicy::KeepInvalidated,
                    prior: prior.clone(),
                },
            ),
            None => RefreshStep::Done(Ok(None)),
        }
    }
}

impl Refresh {
    /// Once the session is fenced the request may go out; where it could not be, the
    /// refresh is over and nothing has changed.
    pub fn fenced(self, outcome: Result<(), EngineError>) -> (r: RefreshStep)
        ensures
            match outcome {
                Ok(_) => r == RefreshStep::Send(self),
                Err(e) => r == RefreshStep::Done(Err(e)),
            },
    {
        match outcome {
            Ok(_) => RefreshStep::Send(self),
            Err(e) => RefreshStep::Done(Err(e)),
        }
    }

    /// The request to send.
    pub fn request(&self, auth: &Auth) -> (r: RefreshRequest)
        ensures
            r.url@ == without_end_slashes(auth.config.edge_url@) + "/auth/refresh"@,
            r.refresh_token == self.prior.refresh_token,
            r.organization_id == self.organization_id,
    {
        let edge = trim_end_slashes(auth.config.edge_url.as_str());
        RefreshRequest {
            url: join2(edge.as_str(), "/auth/refresh"),
            refresh_token: self.prior.refresh_token.clone(),
            organization_id: clone_option(&self.organization_id),
        }
    }

    /// What follows a reply that leaves open whether the token was spent: a routine
    /// refresh keeps its session and may try again, any other signs out.
    fn uncertain(self, auth: &mut Auth, failure: EngineError, suffix: &str) -> (r: RefreshStep)
        ensures
            self.policy == RefreshFailurePolicy::Routine ==> *final(auth) == *old(auth) && r
                == RefreshStep::Done(Err(failure)),
            self.policy != RefreshFailurePolicy::Routine ==> withdrawn(
                *old(auth),
                *final(auth),
                self.prior,
            ) && ends_in(r, failure.text() + suffix@),
    {
        if let RefreshFailurePolicy::Routine = self.policy {
            return RefreshStep::Done(Err(failure));
        }
        auth.finish_invalidated_prior(&self.prior);
        RefreshStep::Done(Err(error_then(&failure, suffix)))
    }

    /// What follows tokens that were accepted: they are committed if the session they
    /// were got with is still the stored one, and dropped otherwise.
    fn accepted(self, auth: &mut Auth, tokens: RefreshTokens, now: Clock) -> (r: RefreshStep)
        ensures
            ({
                let got = claimed_org(tokens.claims);
                if !scoped_as_asked(self.organization_id, got) {
                    withdrawn(*old(auth), *final(auth), self.prior) && ends_in(
                        r,
                        wrong_scope_message(self.organization_id->0@, got),
                    )
                } else {
                    *final(auth) == *old(auth) && self.commit_spec(*old(auth), tokens, now, r)
                }
            }),
    {
        let got = match &tokens.claims {
            Some(c) => clone_option(&c.org_id),
            None => None,
        };
        if self.organization_id.is_some() && !option_text_eq(&self.organization_id, &got) {
            let expected = match &self.organization_id {
                Some(o) => o.clone(),
                None => String::new(),
            };
            let scope = scope_text(&got);
            let message = join5(
                "could not switch to workspace ",
                expected.as_str(),
                ": the refreshed token was scoped to ",
                scope.as_str(),
                "; the refresh token may have rotated, so the previous session was safely signed out",
            );
            auth.finish_invalidated_prior(&self.prior);
            return RefreshStep::Done(Err(EngineError::Other(message)));
        }
        match &auth.stored {
            None => RefreshStep::Done(Ok(None)),
            Some(current) => {
                if !text_eq(
                    current.refresh_token.as_str(),
                    self.prior.refresh_token.as_str(),
                ) {
                    if self.organization_id.is_some() && !option_text_eq(
                        &self.organization_id,
                        &current.org_id,
                    ) {
                        let expected = match &self.organization_id {
                            Some(o) => o.clone(),
                            None => String::new(),
                        };
                        let scope = scope_text(&current.org_id);
                        return RefreshStep::Done(
                            Err(
                                EngineError::Other(
                                    join5(
                                        "could not switch to workspace ",
                                        expected.as_str(),
                                        ": another sign-in selected ",
                                        scope.as_str(),
                                        " while the switch was in flight",
                                    ),
                                ),
                            ),
                        );
                    }
                    let token = match &auth.access {
                        Some(entry) => Some(entry.token.clone()),
                        None => None,
                    };
                    return RefreshStep::Done(Ok(token));
                }
                let candidate = StoredSession {
                    refresh_token: tokens.refresh_token,
                    user: current.user.clone(),
                    org_id: got,
                };
                let access = AccessEntry::fresh(tokens.access_token, &tokens.claims, now);
                let commit = RefreshCommit { prior: self.prior, candidate, access };
                match self.policy {
                    RefreshFailurePolicy::Routine => RefreshStep::CommitFence(commit),
                    _ => RefreshStep::Publish(commit),
                }
            },
        }
    }

    /// What follows the reply to the request.
    pub fn replied(self, auth: &mut Auth, reply: RefreshReply, now: Clock) -> (r: RefreshStep)
        ensures
            match reply {
                RefreshReply::Uncertain(e) => if self.policy == RefreshFailurePolicy::Routine {
                    *final(auth) == *old(auth) && r == RefreshStep::Done(Err(e))
                } else {
                    withdrawn(*old(auth), *final(auth), self.prior) && ends_in(
                        r,
                        e.text() + uncertain_suffix(),
                    )
                },
                RefreshReply::OutcomeUnknown(e) => if self.policy == RefreshFailurePolicy::Routine {
                    *final(auth) == *old(auth) && r == RefreshStep::Done(Err(e))
                } else {
                    withdrawn(*old(auth), *final(auth), self.prior) && ends_in(
                        r,
                        e.text() + unknown_suffix(),
                    )
                },
                RefreshReply::ClientRejected(e) => if self.organization_id is None {
                    &&& *final(auth) == *old(auth)
                    &&& if holds_session(old(auth).stored, self.prior) {
                        r == RefreshStep::SignOut(
                            RevokedRefresh { prior: self.prior, rejection: e },
                        )
                    } else {
                        ends_signed_out(r)
                    }
                } else {
                    self.rejected_spec(*old(auth), *final(auth), e, r)
                },
                RefreshReply::Rejected(e) => self.rejected_spec(*old(auth), *final(auth), e, r),
                RefreshReply::Accepted(tokens) => {
                    let got = claimed_org(tokens.claims);
                    if !scoped_as_asked(self.organization_id, got) {
                        withdrawn(*old(auth), *final(auth), self.prior) && ends_in(
                            r,
                            wrong_scope_message(self.organization_id->0@, got),
                        )
                    } else {
                        &&& *final(auth) == *old(auth)
                        &&& self.commit_spec(*old(auth), tokens, now, r)
                    }
                },
            },
    {
        match reply {
            RefreshReply::Uncertain(e) => self.uncertain(
                auth,
                e,
                "; refresh outcome is uncertain, so the previous session was safely signed out",
            ),
            RefreshReply::OutcomeUnknown(e) => self.uncertain(
                auth,
                e,
                "; WorkOS reported that the refresh outcome is unknown, so the previous session was safely signed out",
            ),
            RefreshReply::ClientRejected(e) => {
                if self.organization_id.is_none() {
                    if auth.holds(&self.prior) {
                        RefreshStep::SignOut(RevokedRefresh { prior: self.prior, rejection: e })
                    } else {
                        RefreshStep::Done(Ok(None))
                    }
                } else {
                    self.rejected(auth, e)
                }
            },
            RefreshReply::Rejected(e) => self.rejected(auth, e),
            RefreshReply::Accepted(tokens) => self.accepted(auth, tokens, now),
        }
    }

    /// What follows a definite rejection: a routine refresh reports it; one that may
    /// restore its session does so, unless another took its place; and one after a
    /// deletion signs out.
    pub open spec fn rejected_spec(
        self,
        before: Auth,
        after: Auth,
        e: EngineError,
        r: RefreshStep,
    ) -> bool {
        match self.policy {
            RefreshFailurePolicy::Routine => after == before && r == RefreshStep::Done(Err(e)),
            RefreshFailurePolicy::RestoreOnDefiniteRejection => after == before
                && if holds_session(before.stored, self.prior) {
                r == RefreshStep::Restore(RejectedRefresh { prior: self.prior, rejection: e })
            } else {
                r == RefreshStep::Done(Err(e))
            },
            RefreshFailurePolicy::KeepInvalidated => withdrawn(before, after, self.prior) && r
                == RefreshStep::Done(Err(e)),
        }
    }

    fn rejected(self, auth: &mut Auth, e: EngineError) -> (r: RefreshStep)
        ensures
            self.rejected_spec(*old(auth), *final(auth), e, r),
    {
        match self.policy {
            RefreshFailurePolicy::Routine => RefreshStep::Done(Err(e)),
            RefreshFailurePolicy::RestoreOnDefiniteRejection => {
                if auth.holds(&self.prior) {
                    RefreshStep::Restore(RejectedRefresh { prior: self.prior, rejection: e })
                } else {
                    RefreshStep::Done(Err(e))
                }
            },
            RefreshFailurePolicy::KeepInvalidated => {
                auth.finish_invalidated_prior(&self.prior);
                RefreshStep::Done(Err(e))
            },
        }
    }

    /// What follows tokens of the right scope: nothing once signed out; nothing new if
    /// a sign-in replaced the session meanwhile; else the commit of a session for the
    /// same user with the new token and scope, a routine one behind a fence.
    pub open spec fn commit_spec(
        self,
        auth: Auth,
        tokens: RefreshTokens,
        now: Clock,
        r: RefreshStep,
    ) -> bool {
        match auth.stored {
            None => ends_signed_out(r),
            Some(current) => if current.refresh_token@ != self.prior.refresh_token@ {
                if scoped_as_asked(self.organization_id, current.org_id) {
                    &&& r is Done
                    &&& r->Done_0 == Ok::<Option<String>, EngineError>(
                        (match auth.access {
                            Some(entry) => Some(entry.token),
                            None => None,
                        }),
                    )
                } else {
                    ends_in(r, overtaken_message(self.organization_id->0@, current.org_id))
                }
            } else {
                let commit = if self.policy == RefreshFailurePolicy::Routine {
                    r->CommitFence_0
                } else {
                    r->Publish_0
                };
                &&& self.policy == RefreshFailurePolicy::Routine ==> r is CommitFence
                &&& self.policy != RefreshFailurePolicy::Routine ==> r is Publish
                &&& commit.prior == self.prior
                &&& commit.candidate == (StoredSession {
                    refresh_token: tokens.refresh_token,
                    user: current.user,
                    org_id: claimed_org(tokens.claims),
                })
                &&& commit.access.token == tokens.access_token
                &&& commit.access.ttl == claimed_ttl(tokens.claims)
                &&& commit.access.got == now
            },
        }
    }
}

impl RevokedRefresh {
    /// A revoked session is gone once its fence is on disk; where the fence failed it
    /// stays, and the failure is reported.
    pub fn fenced(self, auth: &mut Auth, outcome: Result<(), EngineError>) -> (r: RefreshStep)
        ensures
            match outcome {
                Ok(_) => Auth::signed_out(*old(auth), *final(auth)) && ends_signed_out(r),
                Err(e) => *final(auth) == *old(auth) && ends_in(
                    r,
                    self.rejection.text() + "; could not durably sign out: "@ + e.text(),
                ),
            },
    {
        match outcome {
            Ok(_) => {
                auth.finish_signed_out();
                RefreshStep::Done(Ok(None))
            },
            Err(e) => {
                let first = error_then(&self.rejection, "; could not durably sign out: ");
                RefreshStep::Done(Err(error_then(&first, e.message())))
            },
        }
    }
}

impl RejectedRefresh {
    /// A restored session is as it was before the refresh; one that could not be
    /// restored stays fenced on disk, so it is signed out in memory too.
    pub fn restored(self, auth: &mut Auth, outcome: Result<(), EngineError>) -> (r: RefreshStep)
        ensures
            match outcome {
                Ok(_) => *final(auth) == *old(auth) && r == RefreshStep::Done(Err(self.rejection)),
                Err(e) => withdrawn(*old(auth), *final(auth), self.prior) && ends_in(
                    r,
                    restore_failure(self.rejection.text(), e.text()),
                ),
            },
    {
        match outcome {
            Ok(_) => RefreshStep::Done(Err(self.rejection)),
            Err(e) => {
                auth.finish_invalidated_prior(&self.prior);
                RefreshStep::Done(Err(restore_error(&self.rejection, &e)))
            },
        }
    }
}

/// The message for a session that could not be put back.
pub open spec fn restore_failure(operation: Seq<char>, persist: Seq<char>) -> Seq<char> {
    operation
        + "; the previous session could not be durably restored, so auth was signed out: "@
        + persist
}

pub(crate) fn restore_error(operation: &EngineError, persist: &EngineError) -> (r: EngineError)
    ensures
        r.text() == restore_failure(operation.text(), persist.text()),
{
    let first = error_then(
        operation,
        "; the previous session could not be durably restored, so auth was signed out: ",
    );
    error_then(&first, persist.message())
}

impl RefreshCommit {
    /// Once the old session is fenced the new one may be published; where the fence
    /// failed the old session stays in force and may be refreshed again.
    pub fn fenced(self, outcome: Result<(), EngineError>) -> (r: RefreshStep)
        ensures
            match outcome {
                Ok(_) => r == RefreshStep::Publish(self),
                Err(e) => r == RefreshStep::Done(Err(e)),
            },
    {
        match outcome {
            Ok(_) => RefreshStep::Publish(self),
            Err(e) => RefreshStep::Done(Err(e)),
        }
    }

    /// `after` is `before` with the new session and token in place. The account state
    /// is published anew only where the organization changed.
    pub open spec fn committed(self, before: Auth, after: Auth) -> bool {
        after == (Auth {
            state: if before.stored is Some && !same_option_text(
                before.stored->0.org_id,
                self.candidate.org_id,
            ) {
                session_state(self.candidate.user, self.candidate.org_id)
            } else {
                before.state
            },
            token_epoch: bumped(before.token_epoch),
            stored: Some(self.candidate),
            access: Some(self.access),
            ..before
        })
    }

    /// A published session becomes the account and its token is handed out. One that
    /// could not be published has spent the old token, so the account is signed out.
    pub fn published(self, auth: &mut Auth, outcome: Result<(), EngineError>) -> (r: RefreshStep)
        ensures
            match outcome {
                Ok(_) => self.committed(*old(auth), *final(auth)) && r == RefreshStep::Done(
                    Ok(Some(self.access.token)),
                ),
                Err(e) => withdrawn(*old(auth), *final(auth), self.prior) && ends_in(
                    r,
                    e.text()
                        + "; the refresh token rotated but could not be durably committed, so auth was safely signed out"@,
                ),
            },
    {
        match outcome {
            Ok(_) => {
                let org_changed = match &auth.stored {
                    Some(current) => !option_text_eq(&current.org_id, &self.candidate.org_id),
                    None => false,
                };
                let token = self.access.token.clone();
                if org_changed {
                    auth.state = state_for(
                        self.candidate.user.clone(),
                        clone_option(&self.candidate.org_id),
                    );
                }
                auth.stored = Some(self.candidate);
                auth.access = Some(self.access);
                auth.token_epoch = auth.token_epoch.wrapping_add(1);
                RefreshStep::Done(Ok(Some(token)))
            },
            Err(e) => {
                auth.finish_invalidated_prior(&self.prior);
                RefreshStep::Done(
                    Err(
                        error_then(
                            &e,
                            "; the refresh token rotated but could not be durably committed, so auth was safely signed out",
                        ),
                    ),
                )
            },
        }
    }
}

// ---------------------------------------------------------------------------
// Laws
// ---------------------------------------------------------------------------

/// A refresh that asks for a workspace and then commits leaves the account in that
/// workspace, with the user it had.
pub proof fn a_committed_switch_lands_in_the_asked_workspace(
    flow: Refresh,
    before: Auth,
    tokens: RefreshTokens,
    now: Clock,
    step: RefreshStep,
    after: Auth,
)
    requires
        flow.organization_id is Some,
        flow.policy != RefreshFailurePolicy::Routine,
        scoped_as_asked(flow.organization_id, claimed_org(tokens.claims)),
        flow.commit_spec(before, tokens, now, step),
        step is Publish,
        step->Publish_0.committed(before, after),
    ensures
        after.stored is Some,
        option_text(after.stored->0.org_id) == option_text(flow.organization_id),
        before.stored is Some && after.stored->0.user == before.stored->0.user,
{
}

/// Tokens got with a session that a sign-in has since replaced are never committed:
/// neither the stored session nor anything else changes, and nothing is to be
/// published.
pub proof fn a_replaced_session_is_never_overwritten(
    flow: Refresh,
    auth: Auth,
    tokens: RefreshTokens,
    now: Clock,
    step: RefreshStep,
)
    requires
        auth.stored is Some,
        auth.stored->0.refresh_token@ != flow.prior.refresh_token@,
        flow.commit_spec(auth, tokens, now, step),
    ensures
        step is Done,
{
}

/// Whatever gives a session up, an uncertain reply to a switch, a scope that was not
/// asked for, or a commit that could not be written, leaves the account without it.
pub proof fn a_withdrawn_session_is_not_held(
    before: Auth,
    after: Auth,
    prior: StoredSession,
)
    requires
        withdrawn(before, after, prior),
    ensures
        !holds_session(after.stored, prior),
{
}

} // verus!
