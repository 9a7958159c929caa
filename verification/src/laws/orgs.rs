//! Laws of selecting, creating and deleting a workspace.

use vstd::prelude::*;

use crate::auth::orgs::{
    begin_create_org, begin_delete_org, choose_fallback, default_org_name, org_created,
    other_orgs, selected, wants_default_org, CreateOrgStep, CreatedOrg, DeleteOrgStep, DeletedOrg,
    FallbackOrg, OrgDeletion, RejectedDeletion, UnselectedOrg,
};
use crate::auth::service::Auth;
use crate::auth::types::{AuthedRequestError, DeleteOrgOutcome, EngineError, OrgMembership};
use crate::laws::refresh::gives_up;
use crate::laws::sign_in::is_one;
use crate::text::{before_first, is_blank};

verus! {

/// A switch has worked exactly when its refresh gave a token.
pub proof fn a_switch_needs_a_token(
    refreshed: Result<Option<String>, EngineError>,
    r: Result<(), EngineError>,
)
    requires
        call_ensures(selected, (refreshed,), r),
    ensures
        r is Ok <==> refreshed is Ok && refreshed->Ok_0 is Some,
        refreshed is Ok && refreshed->Ok_0 is None ==> r is Err && r->Err_0.text()
            == "could not switch workspace because auth was signed out"@,
        refreshed is Err ==> r is Err && r->Err_0 == refreshed->Err_0,
{
}

/// A creation is a bearer, a creation, a switch, and where the switch failed the
/// deletion of what was created, with the same bearer. What was created is the result
/// exactly where it was selected.
pub proof fn a_creation_is_selected_or_undone(
    auth: &Auth,
    token: Option<String>,
    begun: CreateOrgStep,
    created: Result<String, EngineError>,
    made: CreateOrgStep,
    outcome: Result<(), EngineError>,
    ended: CreateOrgStep,
)
    requires
        call_ensures(begin_create_org, (auth, token), begun),
        auth.workos is Some && token is Some,
        call_ensures(org_created, (begun->Create_0, created), made),
        made is Select ==> call_ensures(CreatedOrg::selected, (made->Select_0, outcome), ended),
    ensures
        begun is Create && begun->Create_0 == token->0,
        created is Err ==> made == CreateOrgStep::Done(Err(created->Err_0)),
        created is Ok ==> made is Select && made->Select_0.organization_id == created->Ok_0
            && made->Select_0.token == token->0,
        created is Ok && outcome is Ok ==> ended == CreateOrgStep::Done(Ok(created->Ok_0)),
        created is Ok && outcome is Err ==> ended is RollBack
            && ended->RollBack_0.organization_id == created->Ok_0 && ended->RollBack_0.token
            == token->0 && ended->RollBack_0.select_error == outcome->Err_0,
{
}

/// Without a bearer nothing is created, and in dev mode there is nothing to create.
pub proof fn nothing_is_created_without_a_bearer(auth: &Auth, token: Option<String>, r: CreateOrgStep)
    requires
        call_ensures(begin_create_org, (auth, token), r),
    ensures
        auth.workos is None ==> r is Done && r->Done_0 is Ok && r->Done_0->Ok_0@.len() == 0,
        auth.workos is Some && token is None ==> r is Done && r->Done_0 is Err
            && r->Done_0->Err_0.text() == "not signed in"@,
{
}

/// A creation whose switch failed is reported with its workspace, and with what became
/// of it.
pub proof fn an_undone_creation_is_reported(
    flow: UnselectedOrg,
    outcome: Result<(), EngineError>,
    r: CreateOrgStep,
)
    requires
        call_ensures(UnselectedOrg::rolled_back, (flow, outcome), r),
    ensures
        r is Done && r->Done_0 is Err,
        outcome is Ok ==> r->Done_0->Err_0.text() == "workspace "@ + flow.organization_id@
            + " was created but could not be selected: "@ + flow.select_error.text()
            + "; the new workspace was rolled back and creation may be retried"@,
        outcome is Err ==> r->Done_0->Err_0.text() == "workspace "@ + flow.organization_id@
            + " was created but could not be selected: "@ + flow.select_error.text()
            + "; rollback also failed: "@ + outcome->Err_0.text()
            + ". Refresh the workspace list and select organizationId="@ + flow.organization_id@
            + " if it exists; do not retry creation blindly"@,
{
}

/// A workspace is made for an account that needs one and has none, and for no other. It
/// is named after the user, or after their email up to the first at sign where their
/// name is missing or blank.
pub proof fn a_first_workspace_is_named_after_its_user(
    auth: &Auth,
    memberships: &Vec<OrgMembership>,
    r: Option<String>,
    wants: bool,
    name: &str,
    nameless: bool,
    email: &str,
    stem: String,
)
    requires
        call_ensures(default_org_name, (auth, memberships), r),
        call_ensures(wants_default_org, (auth,), wants),
        auth.state is NeedsOrganization ==> {
            let user = auth.state->NeedsOrganization_user;
            &&& email@ == user.email@
            &&& user.name is Some ==> name@ == user.name->0@
        },
        call_ensures(is_blank, (name,), nameless),
        call_ensures(before_first, (email, '@'), stem),
    ensures
        wants <==> auth.workos is Some && auth.state is NeedsOrganization,
        r is Some <==> auth.state is NeedsOrganization && memberships@.len() == 0,
        r is Some && auth.state->NeedsOrganization_user.name is Some && !nameless ==> r->0@ == name@
            + "'s Space"@,
        r is Some && !(auth.state->NeedsOrganization_user.name is Some && !nameless) ==> r->0@
            == stem@ + "'s Space"@,
{
}

/// A deletion is asked for only with a bearer and behind the fence of its session.
pub proof fn a_deletion_is_asked_for_behind_a_fence(
    auth: &Auth,
    org_id: String,
    token: Option<String>,
    begun: DeleteOrgStep,
    outcome: Result<(), EngineError>,
    fenced: DeleteOrgStep,
    path: String,
)
    requires
        call_ensures(begin_delete_org, (auth, org_id, token), begun),
        begun is Fence ==> call_ensures(OrgDeletion::fenced, (begun->Fence_0, outcome), fenced)
            && call_ensures(OrgDeletion::path, (&begun->Fence_0,), path),
    ensures
        begun is Fence <==> token is Some && auth.stored is Some,
        begun is Fence ==> begun->Fence_0.org_id == org_id && begun->Fence_0.token == token->0
            && begun->Fence_0.prior == auth.stored->0 && path@ == "/auth/orgs/"@ + org_id@,
        !(begun is Fence) ==> begun is Done && begun->Done_0 is Err && begun->Done_0->Err_0.text()
            == "not signed in"@,
        begun is Fence && outcome is Ok ==> fenced == DeleteOrgStep::Delete(begun->Fence_0),
        begun is Fence && outcome is Err ==> fenced == DeleteOrgStep::Done(Err(outcome->Err_0)),
{
}

/// A definite rejection means that nothing was deleted, so the session comes back where
/// it is still the stored one; any other failure may hide a deletion, so the session is
/// given up. Only what succeeded goes on to look for another workspace.
pub proof fn a_deletion_is_undone_only_where_it_did_not_happen(
    flow: OrgDeletion,
    auth: &mut Auth,
    outcome: Result<(), AuthedRequestError>,
    r: DeleteOrgStep,
)
    requires
        call_ensures(OrgDeletion::deleted, (flow, auth, outcome), r),
    ensures
        ({
            let held = old(auth).stored is Some && is_one(old(auth).stored->0, flow.prior);
            match outcome {
                Ok(_) => {
                    &&& *final(auth) == *old(auth)
                    &&& r is List
                    &&& r->List_0.org_id == flow.org_id
                    &&& r->List_0.token == flow.token
                    &&& r->List_0.prior == flow.prior
                    &&& old(auth).state is SignedIn ==> r->List_0.current_org == old(auth).state->org_id
                    &&& !(old(auth).state is SignedIn) ==> r->List_0.current_org is None
                },
                Err(AuthedRequestError::Definite(e)) => {
                    &&& *final(auth) == *old(auth)
                    &&& held ==> r is Restore && r->Restore_0.prior == flow.prior
                        && r->Restore_0.rejection == e
                    &&& !held ==> r == DeleteOrgStep::Done(Err(e))
                },
                Err(AuthedRequestError::Ambiguous(e)) => {
                    &&& gives_up(*old(auth), *final(auth), flow.prior)
                    &&& r is Done && r->Done_0 is Err && r->Done_0->Err_0.text() == e.text()
                        + "; workspace deletion outcome is uncertain, so auth was safely signed out"@
                },
            }
        }),
{
}

/// A rejected deletion leaves the account as it was, where its session could be restored.
pub proof fn a_rejected_deletion_leaves_the_account(
    flow: RejectedDeletion,
    auth: &mut Auth,
    outcome: Result<(), EngineError>,
    r: DeleteOrgStep,
)
    requires
        call_ensures(RejectedDeletion::restored, (flow, auth, outcome), r),
    ensures
        outcome is Ok ==> *final(auth) == *old(auth) && r == DeleteOrgStep::Done(
            Err(flow.rejection),
        ),
        outcome is Err ==> gives_up(*old(auth), *final(auth), flow.prior) && r is Done
            && r->Done_0 is Err && r->Done_0->Err_0.text() == flow.rejection.text()
            + "; the previous session could not be durably restored, so auth was signed out: "@
            + outcome->Err_0.text(),
{
}

/// A membership of the workspace is in the list.
pub open spec fn is_member(memberships: Seq<OrgMembership>, org: Seq<char>) -> bool {
    exists|i: int| 0 <= i < memberships.len() && (#[trigger] memberships[i]).organization_id@ == org
}

/// The first membership that is not of the workspace.
pub open spec fn is_first_other(memberships: Seq<OrgMembership>, deleted: Seq<char>, i: int) -> bool {
    &&& 0 <= i < memberships.len()
    &&& memberships[i].organization_id@ != deleted
    &&& forall|j: int| 0 <= j < i ==> (#[trigger] memberships[j]).organization_id@ == deleted
}

proof fn others_are_the_other_memberships(memberships: Seq<OrgMembership>, deleted: Seq<char>)
    ensures
        ({
            let others = other_orgs(memberships, deleted);
            &&& forall|org: Seq<char>|
                org != deleted ==> #[trigger] crate::auth::orgs::lists(others, org) == is_member(
                    memberships,
                    org,
                )
            &&& others.len() > 0 ==> exists|i: int|
                #[trigger] is_first_other(memberships, deleted, i)
                    && memberships[i].organization_id == others[0]
            &&& others.len() == 0 ==> forall|i: int|
                0 <= i < memberships.len() ==> (#[trigger] memberships[i]).organization_id@
                    == deleted
        }),
    decreases memberships.len(),
{
    let others = other_orgs(memberships, deleted);
    if memberships.len() > 0 {
        let less = memberships.drop_last();
        others_are_the_other_memberships(less, deleted);
        let before = other_orgs(less, deleted);
        let n = memberships.len() - 1;
        let last = memberships[n];
        assert forall|org: Seq<char>| org != deleted implies #[trigger] crate::auth::orgs::lists(
            others,
            org,
        ) == is_member(memberships, org) by {
            if crate::auth::orgs::lists(others, org) {
                let i = choose|i: int| 0 <= i < others.len() && (#[trigger] others[i])@ == org;
                if i < before.len() {
                    assert(before[i] == others[i]);
                    assert(crate::auth::orgs::lists(before, org));
                    let j = choose|j: int|
                        0 <= j < less.len() && (#[trigger] less[j]).organization_id@ == org;
                    assert(memberships[j] == less[j]);
                } else {
                    assert(memberships[n].organization_id@ == org);
                }
            }
            if is_member(memberships, org) {
                let j = choose|j: int|
                    0 <= j < memberships.len() && (
                    #[trigger] memberships[j]).organization_id@ == org;
                if j < n {
                    assert(less[j] == memberships[j]);
                    assert(is_member(less, org));
                    assert(crate::auth::orgs::lists(before, org));
                    let i = choose|i: int| 0 <= i < before.len() && (#[trigger] before[i])@ == org;
                    assert(others[i] == before[i]);
                } else {
                    assert(others[before.len() as int] == last.organization_id);
                }
            }
        }
        if before.len() > 0 {
            let i = choose|i: int|
                #[trigger] is_first_other(less, deleted, i) && less[i].organization_id == before[0];
            assert forall|j: int| 0 <= j < i implies (#[trigger] memberships[j]).organization_id@
                == deleted by {
                assert(less[j] == memberships[j]);
            }
            assert(memberships[i] == less[i]);
            assert(is_first_other(memberships, deleted, i));
            assert(others[0] == before[0]);
        } else {
            assert forall|j: int| 0 <= j < n implies (#[trigger] memberships[j]).organization_id@
                == deleted by {
                assert(less[j] == memberships[j]);
            }
            if last.organization_id@ != deleted {
                assert(is_first_other(memberships, deleted, n));
            }
        }
    }
}

/// The workspace that takes the place of a deleted one is the one selected now, where it
/// is another that is still a membership; else that of the first membership of another
/// workspace; and there is none exactly where every membership is of the deleted one.
pub proof fn the_selected_workspace_is_kept(
    current: Option<String>,
    memberships: &Vec<OrgMembership>,
    deleted: &str,
    r: Option<String>,
)
    requires
        call_ensures(choose_fallback, (&current, memberships, deleted), r),
    ensures
        r is None <==> forall|i: int|
            0 <= i < memberships@.len() ==> (#[trigger] memberships@[i]).organization_id@
                == deleted@,
        current is Some && current->0@ != deleted@ && is_member(memberships@, current->0@) ==> r
            is Some && r->0@ == current->0@,
        !(current is Some && current->0@ != deleted@ && is_member(memberships@, current->0@)) && r
            is Some ==> exists|i: int|
            #[trigger] is_first_other(memberships@, deleted@, i)
                && memberships@[i].organization_id@ == r->0@,
{
    others_are_the_other_memberships(memberships@, deleted@);
    let others = other_orgs(memberships@, deleted@);
    if current is Some && current->0@ != deleted@ {
        assert(crate::auth::orgs::lists(others, current->0@) == is_member(
            memberships@,
            current->0@,
        ));
        if is_member(memberships@, current->0@) {
            let i = choose|i: int|
                0 <= i < memberships@.len() && (#[trigger] memberships@[i]).organization_id@
                    == current->0@;
            assert(memberships@[i].organization_id@ != deleted@);
        }
    }
}

/// A deletion goes on to the workspace that takes its place, and ends the session where
/// there is none or none is known.
pub proof fn a_deletion_moves_on_or_signs_out(
    flow: DeletedOrg,
    auth: &mut Auth,
    listed: Result<Vec<OrgMembership>, EngineError>,
    r: DeleteOrgStep,
    deleted: &str,
    next: Option<String>,
)
    requires
        call_ensures(DeletedOrg::listed, (flow, auth, listed), r),
        deleted@ == flow.org_id@,
        listed matches Ok(memberships) ==> call_ensures(
            choose_fallback,
            (&flow.current_org, &memberships, deleted),
            next,
        ),
    ensures
        listed is Ok && next is Some ==> *final(auth) == *old(auth) && r is Switch
            && r->Switch_0.organization_id@ == next->0@ && r->Switch_0.prior == flow.prior,
        !(listed is Ok && next is Some) ==> gives_up(*old(auth), *final(auth), flow.prior) && r
            == DeleteOrgStep::Done(Ok(DeleteOrgOutcome::SignedOut)),
{
}

/// A deletion ends in the workspace that it switched to, or signed out.
pub proof fn a_deletion_ends_where_it_switched(
    flow: FallbackOrg,
    auth: &mut Auth,
    refreshed: Result<Option<String>, EngineError>,
    r: DeleteOrgStep,
)
    requires
        call_ensures(FallbackOrg::refreshed, (flow, auth, refreshed), r),
    ensures
        refreshed is Ok && refreshed->Ok_0 is Some ==> *final(auth) == *old(auth) && r
            == DeleteOrgStep::Done(
            Ok(DeleteOrgOutcome::Switched { organization_id: flow.organization_id }),
        ),
        !(refreshed is Ok && refreshed->Ok_0 is Some) ==> gives_up(
            *old(auth),
            *final(auth),
            flow.prior,
        ) && r == DeleteOrgStep::Done(Ok(DeleteOrgOutcome::SignedOut)),
{
}

} // verus!
