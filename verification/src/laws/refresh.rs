//! Laws of refreshing a session.

use vstd::prelude::*;

use crate::auth::access::{AccessEntry, Clock, JwtClaims};
use crate::auth::refresh::{
    begin_refresh, read_reply, FenceCheck, Refresh, RefreshCommit, RefreshFailurePolicy,
    RefreshReply, RefreshRequest, RefreshResponse, RefreshStep, RejectedRefresh, RevokedRefresh,
};
use crate::auth::service::Auth;
use crate::auth::session::{ManifestRead, PersistedSessionState};
use crate::auth::types::{EngineError, StoredSession};
use crate::edge_errors::{edge_response_error_message, edge_response_outcome_unknown};
use crate::laws::sign_in::{is_one, is_out, slashes_are_known};
use crate::laws::text::repeated;
use crate::text::decimal;

verus! {

/// The session is given up: an account that still held it is signed out, and any other
/// account is left alone.
pub open spec fn gives_up(before: Auth, after: Auth, prior: StoredSession) -> bool {
    if before.stored is Some && is_one(before.stored->0, prior) {
        is_out(before, after)
    } else {
        after == before
    }
}

/// The refresh is over with a failure that reads so.
pub open spec fn fails(step: RefreshStep, message: Seq<char>) -> bool {
    step matches RefreshStep::Done(Err(e)) && e.text() == message
}

/// The refresh is over, and nobody is signed in.
pub open spec fn finds_nobody(step: RefreshStep) -> bool {
    step matches RefreshStep::Done(Ok(None))
}

/// A response without success is a rejection, unless it says itself that it does not know;
/// from 400 to 499 it is one of the client's. A success whose body cannot be read, like
/// anything that never arrived whole, leaves the outcome open.
pub proof fn a_reply_is_read_by_its_status(
    response: RefreshResponse,
    r: RefreshReply,
    bytes: &[u8],
    line: String,
    unknown: bool,
    code: String,
)
    requires
        call_ensures(read_reply, (response,), r),
        response matches RefreshResponse::Complete { status, body, tokens } ==> bytes@ == body@ && call_ensures(
            edge_response_error_message,
            ("refresh failed", status, bytes),
            line,
        ) && call_ensures(edge_response_outcome_unknown, (bytes,), unknown),
        response matches RefreshResponse::BodyUnread { status, cause } ==> call_ensures(
            decimal,
            (status as u64,),
            code,
        ),
    ensures
        response matches RefreshResponse::Unreachable(cause) ==> r is Uncertain
            && r->Uncertain_0.text() == "could not reach the edge during refresh: "@ + cause@,
        response matches RefreshResponse::BodyUnread { status, cause } ==> r is Uncertain
            && r->Uncertain_0.text() == "refresh failed ("@ + code@
            + "): could not read the response: "@ + cause@,
        response matches RefreshResponse::Complete { status, body, tokens } ==> {
            &&& 200 <= status <= 299 && tokens is Ok ==> r == RefreshReply::Accepted(tokens->Ok_0)
            &&& 200 <= status <= 299 && tokens is Err ==> r is Uncertain && r->Uncertain_0.text()
                == "malformed refresh response: "@ + tokens->Err_0@
            &&& !(200 <= status <= 299) && unknown ==> r is OutcomeUnknown
                && r->OutcomeUnknown_0.text() == line@
            &&& 400 <= status <= 499 && !unknown ==> r is ClientRejected
                && r->ClientRejected_0.text() == line@
            &&& !(200 <= status <= 299) && !(400 <= status <= 499) && !unknown ==> r is Rejected
                && r->Rejected_0.text() == line@
        },
{
}

/// A refresh that asks for no workspace hands out the cached token while it may be
/// presented. Otherwise an ordinary one sends its request at once, a switch fences the
/// session first, and one after a deletion looks for the fence that must be there.
/// Without a session there is nothing to do.
pub proof fn a_refresh_begins_by_its_kind(
    auth: &Auth,
    organization_id: Option<String>,
    policy: RefreshFailurePolicy,
    now: Clock,
    r: RefreshStep,
    usable: bool,
)
    requires
        call_ensures(begin_refresh, (auth, organization_id, policy, &now), r),
        auth.access matches Some(entry) ==> call_ensures(
            AccessEntry::is_usable,
            (&entry, &now),
            usable,
        ),
    ensures
        organization_id is None && auth.access is Some && usable ==> r == RefreshStep::Done(
            Ok(Some(auth.access->0.token)),
        ),
        !(organization_id is None && auth.access is Some && usable) ==> match policy {
            RefreshFailurePolicy::Routine => if auth.stored is Some {
                r is Send && r->Send_0.organization_id == organization_id && r->Send_0.policy
                    == policy && r->Send_0.prior == auth.stored->0
            } else {
                finds_nobody(r)
            },
            RefreshFailurePolicy::RestoreOnDefiniteRejection => if auth.stored is Some {
                r is Fence && r->Fence_0.organization_id == organization_id && r->Fence_0.policy
                    == policy && r->Fence_0.prior == auth.stored->0
            } else {
                finds_nobody(r)
            },
            RefreshFailurePolicy::KeepInvalidated => r is ReadManifest
                && r->ReadManifest_0.organization_id == organization_id,
        },
{
}

/// After a deletion a refresh sends its request only behind a signed-out manifest of
/// version 1.
pub proof fn a_refresh_after_a_deletion_needs_its_fence(
    check: FenceCheck,
    auth: &Auth,
    read: ManifestRead,
    r: RefreshStep,
    fenced: bool,
)
    requires
        call_ensures(FenceCheck::manifest_read, (check, auth, &read), r),
        fenced == (read matches ManifestRead::Read(Some(m)) && m.state
            == PersistedSessionState::SignedOut && m.version == 1),
    ensures
        !fenced ==> fails(r, "auth session changed while completing workspace deletion"@),
        fenced && auth.stored is None ==> finds_nobody(r),
        fenced && auth.stored is Some ==> r is Send && r->Send_0.organization_id
            == check.organization_id && r->Send_0.policy == RefreshFailurePolicy::KeepInvalidated
            && r->Send_0.prior == auth.stored->0,
{
}

/// The request of a refresh spends the token of the session it began with, for the
/// workspace it was begun for, at the edge's own address.
pub proof fn a_refresh_spends_its_own_token(
    flow: &Refresh,
    auth: &Auth,
    r: RefreshRequest,
    edge: Seq<char>,
    slashes: nat,
)
    requires
        call_ensures(Refresh::request, (flow, auth), r),
        auth.config.edge_url@ == edge + repeated('/', slashes),
        edge.len() > 0 ==> edge.last() != '/',
    ensures
        r.url@ == edge + "/auth/refresh"@,
        r.refresh_token@ == flow.prior.refresh_token@,
        r.organization_id is Some == flow.organization_id is Some,
        r.organization_id is Some ==> r.organization_id->0@ == flow.organization_id->0@,
{
    slashes_are_known(auth.config.edge_url@, edge, slashes);
}

/// A fence that could not be written stops a refresh before its request.
pub proof fn no_request_without_its_fence(flow: Refresh, outcome: Result<(), EngineError>, r: RefreshStep)
    requires
        call_ensures(Refresh::fenced, (flow, outcome), r),
    ensures
        outcome is Ok ==> r == RefreshStep::Send(flow),
        outcome is Err ==> r == RefreshStep::Done(Err(outcome->Err_0)),
{
}

/// A reply that leaves open whether the token was spent: an ordinary refresh keeps its
/// session and reports the failure as it is, and any other gives the session up.
pub proof fn an_open_outcome_gives_the_session_up(
    flow: Refresh,
    auth: &mut Auth,
    reply: RefreshReply,
    now: Clock,
    r: RefreshStep,
)
    requires
        call_ensures(Refresh::replied, (flow, auth, reply, now), r),
        reply is Uncertain || reply is OutcomeUnknown,
    ensures
        flow.policy == RefreshFailurePolicy::Routine ==> *final(auth) == *old(auth),
        flow.policy == RefreshFailurePolicy::Routine && reply is Uncertain ==> r
            == RefreshStep::Done(Err(reply->Uncertain_0)),
        flow.policy == RefreshFailurePolicy::Routine && reply is OutcomeUnknown ==> r
            == RefreshStep::Done(Err(reply->OutcomeUnknown_0)),
        flow.policy != RefreshFailurePolicy::Routine ==> gives_up(
            *old(auth),
            *final(auth),
            flow.prior,
        ),
        flow.policy != RefreshFailurePolicy::Routine && reply is Uncertain ==> fails(
            r,
            reply->Uncertain_0.text()
                + "; refresh outcome is uncertain, so the previous session was safely signed out"@,
        ),
        flow.policy != RefreshFailurePolicy::Routine && reply is OutcomeUnknown ==> fails(
            r,
            reply->OutcomeUnknown_0.text()
                + "; WorkOS reported that the refresh outcome is unknown, so the previous session was safely signed out"@,
        ),
{
}

/// A client's rejection of a refresh that asked for no workspace ends the session, where
/// it is still the stored one. Every other rejection is reported by an ordinary refresh,
/// restores the session of a switch where it is still the stored one, and gives up that
/// of a deletion.
pub proof fn a_rejection_is_treated_by_kind(
    flow: Refresh,
    auth: &mut Auth,
    reply: RefreshReply,
    now: Clock,
    r: RefreshStep,
    e: EngineError,
)
    requires
        call_ensures(Refresh::replied, (flow, auth, reply, now), r),
        reply == RefreshReply::ClientRejected(e) || reply == RefreshReply::Rejected(e),
    ensures
        ({
            let held = old(auth).stored is Some && is_one(old(auth).stored->0, flow.prior);
            if reply is ClientRejected && flow.organization_id is None {
                &&& *final(auth) == *old(auth)
                &&& held ==> r is SignOut && r->SignOut_0.prior == flow.prior
                    && r->SignOut_0.rejection == e
                &&& !held ==> finds_nobody(r)
            } else {
                match flow.policy {
                    RefreshFailurePolicy::Routine => *final(auth) == *old(auth) && r
                        == RefreshStep::Done(Err(e)),
                    RefreshFailurePolicy::RestoreOnDefiniteRejection => {
                        &&& *final(auth) == *old(auth)
                        &&& held ==> r is Restore && r->Restore_0.prior == flow.prior
                            && r->Restore_0.rejection == e
                        &&& !held ==> r == RefreshStep::Done(Err(e))
                    },
                    RefreshFailurePolicy::KeepInvalidated => gives_up(
                        *old(auth),
                        *final(auth),
                        flow.prior,
                    ) && r == RefreshStep::Done(Err(e)),
                }
            }
        }),
{
}

/// The claims name the workspace.
pub open spec fn is_scoped_to(claims: Option<JwtClaims>, org: Option<Seq<char>>) -> bool {
    match org {
        Some(org) => claims is Some && claims->0.org_id is Some && claims->0.org_id->0@ == org,
        None => claims is None || claims->0.org_id is None,
    }
}

/// Tokens for another workspace than the one asked for are never used: the session is
/// given up, for its token is spent.
pub proof fn a_token_of_another_scope_is_never_used(
    flow: Refresh,
    auth: &mut Auth,
    reply: RefreshReply,
    now: Clock,
    r: RefreshStep,
)
    requires
        call_ensures(Refresh::replied, (flow, auth, reply, now), r),
        reply is Accepted,
        flow.organization_id is Some,
        !is_scoped_to(reply->Accepted_0.claims, Some(flow.organization_id->0@)),
    ensures
        gives_up(*old(auth), *final(auth), flow.prior),
        reply->Accepted_0.claims is Some && reply->Accepted_0.claims->0.org_id is Some ==> fails(
            r,
            "could not switch to workspace "@ + flow.organization_id->0@
                + ": the refreshed token was scoped to "@
                + reply->Accepted_0.claims->0.org_id->0@
                + "; the refresh token may have rotated, so the previous session was safely signed out"@,
        ),
        !(reply->Accepted_0.claims is Some && reply->Accepted_0.claims->0.org_id is Some) ==> fails(
            r,
            "could not switch to workspace "@ + flow.organization_id->0@
                + ": the refreshed token was scoped to "@ + "no workspace"@
                + "; the refresh token may have rotated, so the previous session was safely signed out"@,
        ),
{
}

/// Tokens of the right scope replace the session they were got with, and only that one:
/// the new session is the same user's, with the new refresh token and the scope that the
/// new access token claims. A session that came meanwhile is left alone, and its token
/// handed out, unless a switch asked for another workspace. An ordinary refresh fences
/// before it publishes.
pub proof fn fresh_tokens_replace_their_own_session(
    flow: Refresh,
    auth: &mut Auth,
    reply: RefreshReply,
    now: Clock,
    r: RefreshStep,
    entry: AccessEntry,
)
    requires
        call_ensures(Refresh::replied, (flow, auth, reply, now), r),
        reply is Accepted,
        call_ensures(
            AccessEntry::fresh,
            (reply->Accepted_0.access_token, &reply->Accepted_0.claims, now),
            entry,
        ),
        flow.organization_id is Some ==> is_scoped_to(
            reply->Accepted_0.claims,
            Some(flow.organization_id->0@),
        ),
    ensures
        *final(auth) == *old(auth),
        old(auth).stored is None ==> finds_nobody(r),
        old(auth).stored is Some && old(auth).stored->0.refresh_token@
            == flow.prior.refresh_token@ ==> {
            let commit = if flow.policy == RefreshFailurePolicy::Routine {
                r->CommitFence_0
            } else {
                r->Publish_0
            };
            &&& flow.policy == RefreshFailurePolicy::Routine <==> r is CommitFence
            &&& flow.policy != RefreshFailurePolicy::Routine <==> r is Publish
            &&& commit.prior == flow.prior
            &&& commit.candidate.refresh_token@ == reply->Accepted_0.refresh_token@
            &&& commit.candidate.user == old(auth).stored->0.user
            &&& commit.candidate.org_id is Some ==> is_scoped_to(
                reply->Accepted_0.claims,
                Some(commit.candidate.org_id->0@),
            )
            &&& commit.candidate.org_id is None ==> is_scoped_to(reply->Accepted_0.claims, None)
            &&& commit.access.token@ == reply->Accepted_0.access_token@
            &&& commit.access.ttl == entry.ttl
            &&& commit.access.got == now
        },
        old(auth).stored is Some && old(auth).stored->0.refresh_token@
            != flow.prior.refresh_token@ ==> {
            let current = old(auth).stored->0.org_id;
            let other = flow.organization_id is Some && (current is None || current->0@
                != flow.organization_id->0@);
            &&& !other && old(auth).access is Some ==> r == RefreshStep::Done(
                Ok(Some(old(auth).access->0.token)),
            )
            &&& !other && old(auth).access is None ==> finds_nobody(r)
            &&& other && current is Some ==> fails(
                r,
                "could not switch to workspace "@ + flow.organization_id->0@
                    + ": another sign-in selected "@ + current->0@
                    + " while the switch was in flight"@,
            )
            &&& other && current is None ==> fails(
                r,
                "could not switch to workspace "@ + flow.organization_id->0@
                    + ": another sign-in selected "@ + "no workspace"@
                    + " while the switch was in flight"@,
            )
        },
{
}

/// A revoked session is gone once its fence is written, and not before.
pub proof fn a_revoked_session_goes_with_its_fence(
    flow: RevokedRefresh,
    auth: &mut Auth,
    outcome: Result<(), EngineError>,
    r: RefreshStep,
)
    requires
        call_ensures(RevokedRefresh::fenced, (flow, auth, outcome), r),
    ensures
        outcome is Ok ==> is_out(*old(auth), *final(auth)) && finds_nobody(r),
        outcome is Err ==> *final(auth) == *old(auth) && fails(
            r,
            flow.rejection.text() + "; could not durably sign out: "@ + outcome->Err_0.text(),
        ),
{
}

/// A rejected switch leaves the account as it was, where its session could be restored.
pub proof fn a_restored_session_is_as_it_was(
    flow: RejectedRefresh,
    auth: &mut Auth,
    outcome: Result<(), EngineError>,
    r: RefreshStep,
)
    requires
        call_ensures(RejectedRefresh::restored, (flow, auth, outcome), r),
    ensures
        outcome is Ok ==> *final(auth) == *old(auth) && r == RefreshStep::Done(
            Err(flow.rejection),
        ),
        outcome is Err ==> gives_up(*old(auth), *final(auth), flow.prior) && fails(
            r,
            flow.rejection.text()
                + "; the previous session could not be durably restored, so auth was signed out: "@
                + outcome->Err_0.text(),
        ),
{
}

/// A new session is published only behind its fence.
pub proof fn no_commit_without_its_fence(
    flow: RefreshCommit,
    outcome: Result<(), EngineError>,
    r: RefreshStep,
)
    requires
        call_ensures(RefreshCommit::fenced, (flow, outcome), r),
    ensures
        outcome is Ok ==> r == RefreshStep::Publish(flow),
        outcome is Err ==> r == RefreshStep::Done(Err(outcome->Err_0)),
{
}

/// A published refresh is the account from then on: its session, its token, and another
/// bearer than before. The account state is that of the new session where the workspace
/// changed, and as it was where it did not. One that could not be published is given up.
pub proof fn a_published_refresh_is_the_account(
    flow: RefreshCommit,
    auth: &mut Auth,
    outcome: Result<(), EngineError>,
    r: RefreshStep,
)
    requires
        call_ensures(RefreshCommit::published, (flow, auth, outcome), r),
    ensures
        outcome is Ok ==> {
            let org = flow.candidate.org_id;
            let changed = old(auth).stored is Some && !(old(auth).stored->0.org_id is Some
                == org is Some && (org is Some ==> org->0@ == old(auth).stored->0.org_id->0@));
            &&& r == RefreshStep::Done(Ok(Some(flow.access.token)))
            &&& final(auth).stored == Some(flow.candidate)
            &&& final(auth).access == Some(flow.access)
            &&& final(auth).token_epoch != old(auth).token_epoch
            &&& !changed ==> final(auth).state == old(auth).state
            &&& changed && org is Some ==> (final(auth).state is SignedIn
                && final(auth).state->SignedIn_user == flow.candidate.user
                && final(auth).state->org_id == org)
            &&& changed && org is None ==> (final(auth).state is NeedsOrganization
                && final(auth).state->NeedsOrganization_user == flow.candidate.user)
            &&& final(auth).sign_in == old(auth).sign_in
            &&& final(auth).config == old(auth).config && final(auth).workos == old(auth).workos
        },
        outcome is Err ==> gives_up(*old(auth), *final(auth), flow.prior) && fails(
            r,
            outcome->Err_0.text()
                + "; the refresh token rotated but could not be durably committed, so auth was safely signed out"@,
        ),
{
}

} // verus!
