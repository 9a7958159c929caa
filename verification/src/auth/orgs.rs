//! Organizations: selecting, creating and deleting the workspace of an account. Each
//! operation is a conversation: a step names what the caller does next, and a method
//! of the step takes the outcome and gives the next step.

use vstd::prelude::*;

use super::refresh::{restore_error, restore_failure, withdrawn};
use super::requests::org_path;
use super::service::Auth;
use super::types::{
    error, error_then, failed_with, holds_session, AuthState, AuthedRequestError,
    DeleteOrgOutcome, EngineError, OrgMembership, StoredSession,
};
use crate::text::{
    before, before_first, blank, clone_option, is_blank, join2, join5, option_text, text_eq,
};

verus! {

/// The outcome of a workspace switch, from that of its refresh.
pub fn selected(refreshed: Result<Option<String>, EngineError>) -> (r: Result<(), EngineError>)
    ensures
        match refreshed {
            Ok(Some(_)) => r is Ok,
            Ok(None) => failed_with(r, "could not switch workspace because auth was signed out"@),
            Err(e) => r == Err::<(), EngineError>(e),
        },
{
    match refreshed {
        Ok(Some(_)) => Ok(()),
        Ok(None) => Err(error("could not switch workspace because auth was signed out")),
        Err(e) => Err(e),
    }
}

// ---------------------------------------------------------------------------
// Creating
// ---------------------------------------------------------------------------

/// A workspace that was created and has still to be selected.
#[derive(Debug)]
pub struct CreatedOrg {
    pub organization_id: String,
    pub token: String,
}

/// A created workspace that could not be selected, and has to be deleted again.
#[derive(Debug)]
pub struct UnselectedOrg {
    pub organization_id: String,
    pub token: String,
    pub select_error: EngineError,
}

/// What the caller does next to create a workspace.
#[derive(Debug)]
pub enum CreateOrgStep {
    Done(Result<String, EngineError>),
    /// Ask the edge to create it with this bearer, then call `org_created`.
    Create(String),
    /// Switch to it, then call `CreatedOrg::selected`.
    Select(CreatedOrg),
    /// Ask the edge to delete it with the same bearer, then call
    /// `UnselectedOrg::rolled_back`.
    RollBack(UnselectedOrg),
}

/// Begins to create a workspace, with the bearer that was got for it. In dev mode
/// there is nothing to create.
pub fn begin_create_org(auth: &Auth, token: Option<String>) -> (r: CreateOrgStep)
    ensures
        auth.workos is None ==> r is Done && r->Done_0 is Ok && r->Done_0->Ok_0@ == Seq::<
            char,
        >::empty(),
        auth.workos is Some ==> match token {
            Some(token) => r == CreateOrgStep::Create(token),
            None => r is Done && failed_with(r->Done_0, "not signed in"@),
        },
{
    if auth.workos.is_none() {
        return CreateOrgStep::Done(Ok(String::new()));
    }
    match token {
        Some(token) => CreateOrgStep::Create(token),
        None => CreateOrgStep::Done(Err(error("not signed in"))),
    }
}

/// What follows the edge's answer to the creation.
pub fn org_created(token: String, created: Result<String, EngineError>) -> (r: CreateOrgStep)
    ensures
        match created {
            Ok(organization_id) => r == CreateOrgStep::Select(CreatedOrg { organization_id, token }),
            Err(e) => r == CreateOrgStep::Done(Err(e)),
        },
{
    match created {
        Ok(organization_id) => CreateOrgStep::Select(CreatedOrg { organization_id, token }),
        Err(e) => CreateOrgStep::Done(Err(e)),
    }
}

impl CreatedOrg {
    /// A created workspace that was selected is the result; one that was not is rolled
    /// back.
    pub fn selected(self, outcome: Result<(), EngineError>) -> (r: CreateOrgStep)
        ensures
            match outcome {
                Ok(_) => r == CreateOrgStep::Done(Ok(self.organization_id)),
                Err(e) => r == CreateOrgStep::RollBack(
                    UnselectedOrg {
                        organization_id: self.organization_id,
                        token: self.token,
                        select_error: e,
                    },
                ),
            },
    {
        match outcome {
            Ok(_) => CreateOrgStep::Done(Ok(self.organization_id)),
            Err(e) => CreateOrgStep::RollBack(
                UnselectedOrg {
                    organization_id: self.organization_id,
                    token: self.token,
                    select_error: e,
                },
            ),
        }
    }
}

/// The message for a workspace that was created but not selected.
pub open spec fn unselected_message(
    org: Seq<char>,
    select: Seq<char>,
    rollback: Option<Seq<char>>,
) -> Seq<char> {
    let head = "workspace "@ + org + " was created but could not be selected: "@ + select;
    match rollback {
        None => head + "; the new workspace was rolled back and creation may be retried"@,
        Some(rollback) => head + "; rollback also failed: "@ + rollback
            + ". Refresh the workspace list and select organizationId="@ + org
            + " if it exists; do not retry creation blindly"@,
    }
}

impl UnselectedOrg {
    /// The failure to report, by whether the roll-back worked.
    pub fn rolled_back(self, outcome: Result<(), EngineError>) -> (r: CreateOrgStep)
        ensures
            r is Done,
            failed_with(
                r->Done_0,
                unselected_message(
                    self.organization_id@,
                    self.select_error.text(),
                    match outcome {
                        Ok(_) => None,
                        Err(e) => Some(e.text()),
                    },
                ),
            ),
    {
        let head = join5(
            "workspace ",
            self.organization_id.as_str(),
            " was created but could not be selected: ",
            self.select_error.message(),
            "",
        );
        proof {
            reveal_strlit("");
            assert(head@ =~= "workspace "@ + self.organization_id@
                + " was created but could not be selected: "@ + self.select_error.text());
        }
        match outcome {
            Ok(_) => CreateOrgStep::Done(
                Err(
                    EngineError::Other(
                        join2(
                            head.as_str(),
                            "; the new workspace was rolled back and creation may be retried",
                        ),
                    ),
                ),
            ),
            Err(e) => {
                let middle = join5(
                    head.as_str(),
                    "; rollback also failed: ",
                    e.message(),
                    ". Refresh the workspace list and select organizationId=",
                    self.organization_id.as_str(),
                );
                CreateOrgStep::Done(
                    Err(
                        EngineError::Other(
                            join2(
                                middle.as_str(),
                                " if it exists; do not retry creation blindly",
                            ),
                        ),
                    ),
                )
            },
        }
    }
}

/// Whether a first sign-in should look for a workspace to make: only in WorkOS mode,
/// and only while the account needs one.
pub fn wants_default_org(auth: &Auth) -> (r: bool)
    ensures
        r == (auth.workos is Some && auth.state is NeedsOrganization),
{
    auth.workos.is_some() && matches!(auth.state, AuthState::NeedsOrganization { .. })
}

/// The name of the workspace made for a user: after their name, or after the part of
/// their email before the at sign where the name is blank or missing.
pub open spec fn default_org_name_of(name: Option<String>, email: Seq<char>) -> Seq<char> {
    if name is Some && !blank(name->0@) {
        name->0@ + "'s Space"@
    } else {
        before(email, '@') + "'s Space"@
    }
}

/// The name of the default workspace to make, once the memberships are known: none
/// where there is one already, or where the account no longer needs one.
pub fn default_org_name(auth: &Auth, memberships: &Vec<OrgMembership>) -> (r: Option<String>)
    ensures
        match auth.state {
            AuthState::NeedsOrganization { user } => if memberships@.len() == 0 {
                r is Some && r->0@ == default_org_name_of(user.name, user.email@)
            } else {
                r is None
            },
            _ => r is None,
        },
{
    if !memberships.is_empty() {
        return None;
    }
    match &auth.state {
        AuthState::NeedsOrganization { user } => {
            if let Some(name) = &user.name {
                if !is_blank(name.as_str()) {
                    return Some(join2(name.as_str(), "'s Space"));
                }
            }
            let stem = before_first(user.email.as_str(), '@');
            Some(join2(stem.as_str(), "'s Space"))
        },
        _ => None,
    }
}

// ---------------------------------------------------------------------------
// Deleting
// ---------------------------------------------------------------------------

/// A workspace about to be deleted.
#[derive(Debug)]
pub struct OrgDeletion {
    pub org_id: String,
    pub token: String,
    pub prior: StoredSession,
}

/// A deletion that the edge rejected: the session is to be published again.
#[derive(Debug)]
pub struct RejectedDeletion {
    pub prior: StoredSession,
    pub rejection: EngineError,
}

/// A workspace that is deleted: its replacement has to be found.
#[derive(Debug)]
pub struct DeletedOrg {
    pub org_id: String,
    pub token: String,
    pub prior: StoredSession,
    pub current_org: Option<String>,
}

/// The workspace that takes the place of a deleted one.
#[derive(Debug)]
pub struct FallbackOrg {
    pub organization_id: String,
    pub prior: StoredSession,
}

/// What the caller does next to delete a workspace.
#[derive(Debug)]
pub enum DeleteOrgStep {
    Done(Result<DeleteOrgOutcome, EngineError>),
    /// Fence the session on disk, then call `OrgDeletion::fenced`.
    Fence(OrgDeletion),
    /// Ask the edge to delete it, then call `OrgDeletion::deleted`.
    Delete(OrgDeletion),
    /// Publish the prior session, then call `RejectedDeletion::restored`.
    Restore(RejectedDeletion),
    /// List the memberships with the same bearer, then call `DeletedOrg::listed`.
    List(DeletedOrg),
    /// Switch to the fallback, keeping the fence, then call `FallbackOrg::refreshed`.
    Switch(FallbackOrg),
}

/// Begins to delete a workspace, with the bearer that was got for it and the refresh
/// gate held.
pub fn begin_delete_org(auth: &Auth, org_id: String, token: Option<String>) -> (r: DeleteOrgStep)
    ensures
        match (token, auth.stored) {
            (Some(token), Some(prior)) => r == DeleteOrgStep::Fence(
                OrgDeletion { org_id, token, prior },
            ),
            _ => r is Done && failed_with(r->Done_0, "not signed in"@),
        },
{
    match (token, &auth.stored) {
        (Some(token), Some(prior)) => DeleteOrgStep::Fence(
            OrgDeletion { org_id, token, prior: prior.clone() },
        ),
        _ => DeleteOrgStep::Done(Err(error("not signed in"))),
    }
}

impl OrgDeletion {
    /// Once the session is fenced the deletion may be asked for.
    pub fn fenced(self, outcome: Result<(), EngineError>) -> (r: DeleteOrgStep)
        ensures
            match outcome {
                Ok(_) => r == DeleteOrgStep::Delete(self),
                Err(e) => r == DeleteOrgStep::Done(Err(e)),
            },
    {
        match outcome {
            Ok(_) => DeleteOrgStep::Delete(self),
            Err(e) => DeleteOrgStep::Done(Err(e)),
        }
    }

    /// The path to delete.
    pub fn path(&self) -> (r: String)
        ensures
            r@ == "/auth/orgs/"@ + self.org_id@,
    {
        org_path(self.org_id.as_str())
    }

    /// What follows the edge's answer. A definite rejection means that nothing was
    /// deleted, so the session may be restored; any other failure may hide a deletion,
    /// so the session is given up.
    pub fn deleted(self, auth: &mut Auth, outcome: Result<(), AuthedRequestError>) -> (r:
        DeleteOrgStep)
        ensures
            match outcome {
                Ok(_) => *final(auth) == *old(auth) && r == DeleteOrgStep::List(
                    DeletedOrg {
                        org_id: self.org_id,
                        token: self.token,
                        prior: self.prior,
                        current_org: old(auth).state.selected_org(),
                    },
                ),
                Err(AuthedRequestError::Definite(e)) => *final(auth) == *old(auth)
                    && if holds_session(old(auth).stored, self.prior) {
                    r == DeleteOrgStep::Restore(
                        RejectedDeletion { prior: self.prior, rejection: e },
                    )
                } else {
                    r == DeleteOrgStep::Done(Err(e))
                },
                Err(AuthedRequestError::Ambiguous(e)) => withdrawn(
                    *old(auth),
                    *final(auth),
                    self.prior,
                ) && r is Done && failed_with(
                    r->Done_0,
                    e.text()
                        + "; workspace deletion outcome is uncertain, so auth was safely signed out"@,
                ),
            },
    {
        match outcome {
            Ok(_) => {
                let current_org = match &auth.state {
                    AuthState::SignedIn { user: _, org_id } => clone_option(org_id),
                    _ => None,
                };
                DeleteOrgStep::List(
                    DeletedOrg {
                        org_id: self.org_id,
                        token: self.token,
                        prior: self.prior,
                        current_org,
                    },
                )
            },
            Err(AuthedRequestError::Definite(e)) => {
                if auth.holds(&self.prior) {
                    DeleteOrgStep::Restore(RejectedDeletion { prior: self.prior, rejection: e })
                } else {
                    DeleteOrgStep::Done(Err(e))
                }
            },
            Err(AuthedRequestError::Ambiguous(e)) => {
                auth.finish_invalidated_prior(&self.prior);
                DeleteOrgStep::Done(
                    Err(
                        error_then(
                            &e,
                            "; workspace deletion outcome is uncertain, so auth was safely signed out",
                        ),
                    ),
                )
            },
        }
    }
}

impl RejectedDeletion {
    /// A restored session is as it was before; one that could not be restored is
    /// signed out.
    pub fn restored(self, auth: &mut Auth, outcome: Result<(), EngineError>) -> (r: DeleteOrgStep)
        ensures
            match outcome {
                Ok(_) => *final(auth) == *old(auth) && r == DeleteOrgStep::Done(
                    Err(self.rejection),
                ),
                Err(e) => withdrawn(*old(auth), *final(auth), self.prior) && r is Done
                    && failed_with(r->Done_0, restore_failure(self.rejection.text(), e.text())),
            },
    {
        match outcome {
            Ok(_) => DeleteOrgStep::Done(Err(self.rejection)),
            Err(e) => {
                auth.finish_invalidated_prior(&self.prior);
                DeleteOrgStep::Done(Err(restore_error(&self.rejection, &e)))
            },
        }
    }
}

/// The memberships of other workspaces than the deleted one, as a list of their ids.
/// A deletion can be briefly invisible to the list, so the deleted one is never among
/// them.
pub open spec fn other_orgs(memberships: Seq<OrgMembership>, deleted: Seq<char>) -> Seq<String>
    decreases memberships.len(),
{
    if memberships.len() == 0 {
        Seq::empty()
    } else {
        let rest = other_orgs(memberships.drop_last(), deleted);
        let last = memberships.last().organization_id;
        if last@ == deleted {
            rest
        } else {
            rest.push(last)
        }
    }
}

/// A list of ids holds the given one.
pub open spec fn lists(orgs: Seq<String>, org: Seq<char>) -> bool {
    exists|i: int| 0 <= i < orgs.len() && (#[trigger] orgs[i])@ == org
}

/// The workspace that takes the place of a deleted one: the one selected now, where it
/// is another one that is still listed; else the first other one; else none.
pub open spec fn fallback_of(
    current: Option<String>,
    memberships: Seq<OrgMembership>,
    deleted: Seq<char>,
) -> Option<Seq<char>> {
    let others = other_orgs(memberships, deleted);
    if current is Some && current->0@ != deleted && lists(others, current->0@) {
        Some(current->0@)
    } else if others.len() > 0 {
        Some(others[0]@)
    } else {
        None
    }
}

/// Chooses the workspace that takes the place of a deleted one.
pub fn choose_fallback(
    current: &Option<String>,
    memberships: &Vec<OrgMembership>,
    deleted: &str,
) -> (r: Option<String>)
    ensures
        option_text(r) == fallback_of(*current, memberships@, deleted@),
{
    let mut others: Vec<String> = Vec::new();
    let mut i: usize = 0;
    while i < memberships.len()
        invariant
            i <= memberships@.len(),
            others@ == other_orgs(memberships@.take(i as int), deleted@),
        decreases memberships@.len() - i,
    {
        let ghost next = memberships@.take(i + 1);
        assert(next.drop_last() =~= memberships@.take(i as int));
        if !text_eq(memberships[i].organization_id.as_str(), deleted) {
            others.push(memberships[i].organization_id.clone());
        }
        i = i + 1;
    }
    assert(memberships@.take(i as int) =~= memberships@);
    if let Some(org) = current {
        if !text_eq(org.as_str(), deleted) {
            let mut j: usize = 0;
            while j < others.len()
                invariant
                    j <= others@.len(),
                    *current == Some(*org),
                    org@ != deleted@,
                    others@ == other_orgs(memberships@, deleted@),
                    forall|k: int| 0 <= k < j ==> (#[trigger] others@[k])@ != org@,
                decreases others@.len() - j,
            {
                if text_eq(others[j].as_str(), org.as_str()) {
                    assert(lists(others@, org@));
                    return Some(org.clone());
                }
                j = j + 1;
            }
            assert(!lists(others@, org@));
        }
    }
    if others.len() > 0 {
        Some(others[0].clone())
    } else {
        None
    }
}

impl DeletedOrg {
    /// What follows the list of memberships: a switch to the workspace that takes the
    /// place of the deleted one, or, where there is none or the list failed, the end
    /// of the session.
    pub fn listed(self, auth: &mut Auth, listed: Result<Vec<OrgMembership>, EngineError>) -> (r:
        DeleteOrgStep)
        ensures
            ({
                let fallback = match listed {
                    Ok(memberships) => fallback_of(
                        self.current_org,
                        memberships@,
                        self.org_id@,
                    ),
                    Err(_) => None,
                };
                match fallback {
                    Some(org) => *final(auth) == *old(auth) && r is Switch
                        && r->Switch_0.organization_id@ == org && r->Switch_0.prior == self.prior,
                    None => withdrawn(*old(auth), *final(auth), self.prior) && r
                        == DeleteOrgStep::Done(Ok(DeleteOrgOutcome::SignedOut)),
                }
            }),
            r is Done ==> !holds_session(final(auth).stored, self.prior),
    {
        let fallback = match listed {
            Ok(memberships) => choose_fallback(
                &self.current_org,
                &memberships,
                self.org_id.as_str(),
            ),
            Err(_) => None,
        };
        match fallback {
            Some(organization_id) => DeleteOrgStep::Switch(
                FallbackOrg { organization_id, prior: self.prior },
            ),
            None => {
                auth.finish_invalidated_prior(&self.prior);
                DeleteOrgStep::Done(Ok(DeleteOrgOutcome::SignedOut))
            },
        }
    }
}

impl FallbackOrg {
    /// The outcome of the deletion, from that of the switch: every failure after the
    /// deletion gives the session up.
    pub fn refreshed(self, auth: &mut Auth, refreshed: Result<Option<String>, EngineError>) -> (r:
        DeleteOrgStep)
        ensures
            match refreshed {
                Ok(Some(_)) => *final(auth) == *old(auth) && r == DeleteOrgStep::Done(
                    Ok(DeleteOrgOutcome::Switched { organization_id: self.organization_id }),
                ),
                _ => withdrawn(*old(auth), *final(auth), self.prior) && r == DeleteOrgStep::Done(
                    Ok(DeleteOrgOutcome::SignedOut),
                ),
            },
            r == DeleteOrgStep::Done(Ok(DeleteOrgOutcome::SignedOut)) ==> !holds_session(
                final(auth).stored,
                self.prior,
            ),
    {
        match refreshed {
            Ok(Some(_)) => DeleteOrgStep::Done(
                Ok(DeleteOrgOutcome::Switched { organization_id: self.organization_id }),
            ),
            _ => {
                auth.finish_invalidated_prior(&self.prior);
                DeleteOrgStep::Done(Ok(DeleteOrgOutcome::SignedOut))
            },
        }
    }
}

proof fn other_orgs_are_other(memberships: Seq<OrgMembership>, deleted: Seq<char>)
    ensures
        forall|i: int|
            0 <= i < other_orgs(memberships, deleted).len() ==> {
                let org = #[trigger] other_orgs(memberships, deleted)[i];
                org@ != deleted && exists|j: int|
                    0 <= j < memberships.len() && (#[trigger] memberships[j]).organization_id == org
            },
    decreases memberships.len(),
{
    if memberships.len() > 0 {
        let init = memberships.drop_last();
        other_orgs_are_other(init, deleted);
        let rest = other_orgs(init, deleted);
        let all = other_orgs(memberships, deleted);
        assert forall|i: int| 0 <= i < all.len() implies ({
            let org = #[trigger] all[i];
            org@ != deleted && exists|j: int|
                0 <= j < memberships.len() && (#[trigger] memberships[j]).organization_id == org
        }) by {
            if i < rest.len() {
                assert(all[i] == rest[i]);
                let j = choose|j: int|
                    0 <= j < init.len() && (#[trigger] init[j]).organization_id == rest[i];
                assert(memberships[j] == init[j]);
            } else {
                assert(memberships[memberships.len() - 1].organization_id == all[i]);
            }
        }
    }
}

/// The workspace that takes the place of a deleted one is never the deleted one, and is
/// always one of the listed memberships.
pub proof fn a_deleted_workspace_is_never_chosen(
    current: Option<String>,
    memberships: Seq<OrgMembership>,
    deleted: Seq<char>,
)
    ensures
        fallback_of(current, memberships, deleted) is Some ==> {
            let chosen = fallback_of(current, memberships, deleted)->0;
            chosen != deleted && exists|j: int|
                0 <= j < memberships.len() && (#[trigger] memberships[j]).organization_id@ == chosen
        },
        fallback_of(current, memberships, deleted) is None ==> forall|j: int|
            0 <= j < memberships.len() ==> (#[trigger] memberships[j]).organization_id@ == deleted,
{
    other_orgs_are_other(memberships, deleted);
    let others = other_orgs(memberships, deleted);
    if current is Some && current->0@ != deleted && lists(others, current->0@) {
        let i = choose|i: int| 0 <= i < others.len() && (#[trigger] others[i])@ == current->0@;
        let j = choose|j: int|
            0 <= j < memberships.len() && (#[trigger] memberships[j]).organization_id == others[i];
        assert(memberships[j].organization_id@ == current->0@);
    } else if others.len() > 0 {
        let first = others[0];
        let j = choose|j: int|
            0 <= j < memberships.len() && (#[trigger] memberships[j]).organization_id == first;
        assert(memberships[j].organization_id@ == first@);
    } else {
        none_other_means_all_deleted(memberships, deleted);
    }
}

proof fn none_other_means_all_deleted(memberships: Seq<OrgMembership>, deleted: Seq<char>)
    requires
        other_orgs(memberships, deleted).len() == 0,
    ensures
        forall|j: int|
            0 <= j < memberships.len() ==> (#[trigger] memberships[j]).organization_id@ == deleted,
    decreases memberships.len(),
{
    if memberships.len() > 0 {
        none_other_means_all_deleted(memberships.drop_last(), deleted);
        assert forall|j: int| 0 <= j < memberships.len() implies (
        #[trigger] memberships[j]).organization_id@ == deleted by {
            if j < memberships.len() - 1 {
                assert(memberships[j] == memberships.drop_last()[j]);
            }
        }
    }
}

} // verus!
