//! Laws of profiles, and of what clients are told.

use vstd::prelude::*;

use crate::auth::types::{
    default_role, state_for, AuthConfig, AuthState, AuthUser, DeleteOrgOutcome, EngineError,
};
use crate::ids::{uuid_chars, is_random_id};
use crate::json::{Json, JsonView};
use crate::profile::{
    load_or_create_local_profile_id, local_profile_published, read_local_profile_id,
    sanitize_path_id, EngineProfile, LocalProfileStep, ProfilePublish, ProfileRead,
    ProfileReadError,
};
use crate::proto::account;
use crate::proto::profile::{EngineInfo, EngineInfoError, EngineInfoWire, ProfileScope};
use crate::proto::workspace;
use crate::text::texts;

verus! {

// ---------------------------------------------------------------------------
// Profiles
// ---------------------------------------------------------------------------

/// The name of a directory keeps letters, digits, hyphens and underscores, and has an
/// underscore for each other character.
pub proof fn a_directory_is_named_safely(id: &str, r: String, i: int)
    requires
        call_ensures(sanitize_path_id, (id,), r),
        0 <= i < id@.len(),
    ensures
        r@.len() == id@.len(),
        ({
            let c = id@[i];
            if 'a' <= c <= 'z' || 'A' <= c <= 'Z' || '0' <= c <= '9' || c == '-' || c == '_' {
                r@[i] == c
            } else {
                r@[i] == '_'
            }
        }),
{
}

/// The local profile lies under `profiles/local`, an account's under `orgs`, its
/// organization and its user. The uploads lie in the store, and each knows whose it is.
pub proof fn each_profile_has_its_place(
    data_dir: &str,
    profile_id: String,
    org: &str,
    user: &str,
    org_name: String,
    user_name: String,
    local: EngineProfile,
    synced: EngineProfile,
    development: EngineProfile,
)
    requires
        call_ensures(EngineProfile::local, (data_dir, profile_id), local),
        call_ensures(EngineProfile::synced, (data_dir, org, user), synced),
        call_ensures(EngineProfile::development, (data_dir, org, user), development),
        call_ensures(sanitize_path_id, (org,), org_name),
        call_ensures(sanitize_path_id, (user,), user_name),
    ensures
        local.store_dirs() == seq!["profiles"@, "local"@],
        local.uploads_dirs() == seq!["profiles"@, "local"@, "uploads"@],
        local.organization() == "local"@ && local.user() == profile_id@,
        local.spec_scope() == ProfileScope::Local,
        synced.store_dirs() == seq!["orgs"@, org_name@, user_name@],
        synced.uploads_dirs() == seq!["orgs"@, org_name@, user_name@, "uploads"@],
        synced.organization() == org@ && synced.user() == user@,
        synced.spec_scope() == ProfileScope::Synced,
        development.store_dirs() == synced.store_dirs(),
        development.uploads_dirs() == synced.uploads_dirs(),
        development.organization() == org@ && development.user() == user@,
        development.spec_scope() == ProfileScope::Development,
        local.device_dir() == data_dir@ && synced.device_dir() == data_dir@
            && development.device_dir() == data_dir@,
{
    assert(local.uploads_dirs() =~= seq!["profiles"@, "local"@, "uploads"@]);
    assert(synced.uploads_dirs() =~= seq!["orgs"@, org_name@, user_name@, "uploads"@]);
}

/// A profile says what it is.
pub proof fn a_profile_says_what_it_is(
    profile: &EngineProfile,
    scope: ProfileScope,
    device: &str,
    store: &Vec<String>,
    uploads: &Vec<String>,
    org: &str,
    user: &str,
)
    requires
        call_ensures(EngineProfile::scope, (profile,), scope),
        call_ensures(EngineProfile::device_root, (profile,), device),
        call_ensures(EngineProfile::store_root, (profile,), store),
        call_ensures(EngineProfile::uploads_root, (profile,), uploads),
        call_ensures(EngineProfile::organization_id, (profile,), org),
        call_ensures(EngineProfile::user_id, (profile,), user),
    ensures
        scope == profile.spec_scope() && device@ == profile.device_dir(),
        texts(store@) == profile.store_dirs() && texts(uploads@) == profile.uploads_dirs(),
        org@ == profile.organization() && user@ == profile.user(),
{
}

/// A good identity is kept; only a file that is missing has a new one made, a random one.
/// A file that cannot be read, or holds no good id, is reported and never replaced.
pub proof fn a_local_identity_is_never_replaced(
    path: &str,
    read: ProfileRead,
    r: LocalProfileStep,
    id: Result<String, ProfileReadError>,
)
    requires
        call_ensures(load_or_create_local_profile_id, (path, read), r),
        call_ensures(read_local_profile_id, (path, read), id),
    ensures
        r is Create <==> read is Missing,
        r is Create ==> r->Create_0 != 0 && is_random_id(r->Create_0),
        read is Missing ==> id is Err && id->Err_0 is Missing,
        read matches ProfileRead::Id(n) ==> {
            &&& n != 0 ==> r->Done_0 is Ok && r->Done_0->Ok_0@ == uuid_chars(n) && id is Ok
                && id->Ok_0@ == uuid_chars(n)
            &&& n == 0 ==> r->Done_0 is Err && r->Done_0->Err_0.text() == "invalid local profile "@
                + path@ + ": id must not be nil"@
        },
        read matches ProfileRead::Unreadable(cause) ==> r->Done_0 is Err && r->Done_0->Err_0.text()
            == cause@,
        read matches ProfileRead::Malformed(cause) ==> r->Done_0 is Err && r->Done_0->Err_0.text()
            == "invalid local profile "@ + path@ + ": "@ + cause@,
        id is Err && !(read is Missing) ==> id->Err_0 is Engine && r->Done_0 is Err
            && id->Err_0->Engine_0.text() == r->Done_0->Err_0.text(),
        id is Ok <==> read is Id && read->Id_0 != 0,
{
}

/// A profile that is not there any more is told as such, and any other failure as itself.
pub proof fn a_profile_that_went_is_told(failure: ProfileReadError, r: EngineError)
    requires
        call_ensures(ProfileReadError::into_engine, (failure,), r),
    ensures
        failure is Missing ==> r.text() == "local profile disappeared during creation"@,
        failure is Engine ==> r == failure->Engine_0,
{
}

/// A new identity is the one that was published, or the one that was there first.
pub proof fn the_first_identity_counts(
    path: &str,
    id: u128,
    outcome: ProfilePublish,
    r: Result<String, EngineError>,
)
    requires
        call_ensures(local_profile_published, (path, id, outcome), r),
    ensures
        outcome is Linked ==> r is Ok && r->Ok_0@ == uuid_chars(id),
        outcome is NotWritten ==> r is Err && r->Err_0 == outcome->NotWritten_0,
        outcome is NotLinked ==> r is Err && r->Err_0 == outcome->NotLinked_0,
        outcome matches ProfilePublish::AlreadyExists(ProfileRead::Missing) ==> r is Err
            && r->Err_0.text() == "local profile disappeared during creation"@,
        outcome matches ProfilePublish::AlreadyExists(ProfileRead::Id(other)) ==> {
            &&& other != 0 ==> r is Ok && r->Ok_0@ == uuid_chars(other)
            &&& other == 0 ==> r is Err && r->Err_0.text() == "invalid local profile "@ + path@
                + ": id must not be nil"@
        },
        outcome matches ProfilePublish::AlreadyExists(ProfileRead::Unreadable(cause)) ==> r is Err
            && r->Err_0.text() == cause@,
        outcome matches ProfilePublish::AlreadyExists(ProfileRead::Malformed(cause)) ==> r is Err
            && r->Err_0.text() == "invalid local profile "@ + path@ + ": "@ + cause@,
{
}

// ---------------------------------------------------------------------------
// What clients are told
// ---------------------------------------------------------------------------

/// A user as clients see them.
pub open spec fn is_user_message(message: JsonView, id: Seq<char>, email: Seq<char>, name: Option<String>) -> bool {
    &&& message is Object && message->Object_0.len() == 3
    &&& message->Object_0[0] == ("id"@, JsonView::Text(id))
    &&& message->Object_0[1] == ("email"@, JsonView::Text(email))
    &&& message->Object_0[2].0 == "name"@
    &&& name is Some ==> message->Object_0[2].1 == JsonView::Text(name->0@)
    &&& name is None ==> message->Object_0[2].1 == JsonView::Null
}

/// Clients are told the account's own state: who it is, and which organization it is in.
pub proof fn clients_are_told_the_account(
    state: &AuthState,
    wire: account::AuthState,
    r: Json,
)
    requires
        call_ensures(AuthState::to_proto, (state,), wire),
        call_ensures(account::AuthState::to_json, (&wire,), r),
    ensures
        r@ is Object,
        state is SignedOut ==> r@->Object_0 == seq![("state"@, JsonView::Text("signedOut"@))],
        state matches AuthState::NeedsOrganization { user } ==> {
            &&& r@->Object_0.len() == 2
            &&& r@->Object_0[0] == ("state"@, JsonView::Text("needsOrganization"@))
            &&& r@->Object_0[1].0 == "user"@ && is_user_message(
                r@->Object_0[1].1,
                user.id@,
                user.email@,
                user.name,
            )
        },
        state matches AuthState::SignedIn { user, org_id } ==> {
            &&& r@->Object_0.len() == 3
            &&& r@->Object_0[0] == ("state"@, JsonView::Text("signedIn"@))
            &&& r@->Object_0[1].0 == "user"@ && is_user_message(
                r@->Object_0[1].1,
                user.id@,
                user.email@,
                user.name,
            )
            &&& r@->Object_0[2].0 == "orgId"@
            &&& org_id is Some ==> r@->Object_0[2].1 == JsonView::Text(org_id->0@)
            &&& org_id is None ==> r@->Object_0[2].1 == JsonView::Null
        },
{
}

/// An account without an organization still needs one.
pub proof fn an_account_without_an_organization_needs_one(
    user: AuthUser,
    org_id: Option<String>,
    r: AuthState,
    signed_in: bool,
    org: Option<&str>,
    who: Option<&AuthUser>,
)
    requires
        call_ensures(state_for, (user, org_id), r),
        call_ensures(AuthState::is_signed_in, (&r,), signed_in),
        call_ensures(AuthState::org_id, (&r,), org),
        call_ensures(AuthState::user, (&r,), who),
    ensures
        signed_in <==> org_id is Some,
        r is NeedsOrganization <==> org_id is None,
        org is Some <==> org_id is Some,
        org is Some ==> org->0@ == org_id->0@,
        who is Some && *who->0 == user,
{
}

/// Clients are told how a deletion ended.
pub proof fn clients_are_told_how_a_deletion_ended(outcome: &DeleteOrgOutcome, r: Json)
    requires
        call_ensures(DeleteOrgOutcome::to_json, (outcome,), r),
    ensures
        outcome is SignedOut ==> r@ == JsonView::Object(
            seq![("action"@, JsonView::Text("signedOut"@))],
        ),
        outcome matches DeleteOrgOutcome::Switched { organization_id } ==> r@ == JsonView::Object(
            seq![
                ("action"@, JsonView::Text("switched"@)),
                ("organizationId"@, JsonView::Text(organization_id@)),
            ],
        ),
{
}

/// Clients are told the runtime that they reached: its device, its scope, and whose it is
/// where that is known. The two forms differ in the name of the scope alone.
pub proof fn clients_are_told_the_runtime(
    info: &EngineInfo,
    scope: &'static str,
    r: Json,
    older: &workspace::EngineInfo,
    older_scope: &'static str,
    older_r: Json,
)
    requires
        call_ensures(EngineInfo::to_json, (info,), r),
        call_ensures(ProfileScope::wire_name, (&info.profile_scope,), scope),
        call_ensures(workspace::EngineInfo::to_json, (older,), older_r),
        call_ensures(workspace::WorkspaceScope::wire_name, (&older.workspace_scope,), older_scope),
    ensures
        r@ is Object && r@->Object_0[0] == ("deviceId"@, JsonView::Text(info.device_id@)),
        r@->Object_0[1] == ("profileScope"@, JsonView::Text(scope@)),
        info.profile is None ==> r@->Object_0.len() == 2,
        info.profile matches Some(p) ==> r@->Object_0.len() == 3 && r@->Object_0[2] == (
            "profile"@,
            JsonView::Object(
                seq![
                    ("userId"@, JsonView::Text(p.user_id@)),
                    ("organizationId"@, JsonView::Text(p.organization_id@)),
                ],
            ),
        ),
        older_r@ is Object && older_r@->Object_0[0] == (
            "deviceId"@,
            JsonView::Text(older.device_id@),
        ),
        older_r@->Object_0[1] == ("workspaceScope"@, JsonView::Text(older_scope@)),
        older.profile is None ==> older_r@->Object_0.len() == 2,
        older.profile matches Some(p) ==> older_r@->Object_0.len() == 3 && older_r@->Object_0[2]
            == (
            "profile"@,
            JsonView::Object(
                seq![
                    ("userId"@, JsonView::Text(p.user_id@)),
                    ("organizationId"@, JsonView::Text(p.organization_id@)),
                ],
            ),
        ),
{
}

/// A scope is read back from its name, and each has its own.
pub proof fn a_scope_is_read_back_from_its_name(
    scope: ProfileScope,
    name: &'static str,
    r: Option<ProfileScope>,
    older: workspace::WorkspaceScope,
    older_name: &'static str,
    older_r: Option<workspace::WorkspaceScope>,
)
    requires
        call_ensures(ProfileScope::wire_name, (&scope,), name),
        call_ensures(ProfileScope::named, (name,), r),
        call_ensures(workspace::WorkspaceScope::wire_name, (&older,), older_name),
        call_ensures(workspace::WorkspaceScope::named, (older_name,), older_r),
    ensures
        r == Some(scope),
        older_r == Some(older),
        scope == ProfileScope::Local ==> name@ == "local"@,
        scope == ProfileScope::Synced ==> name@ == "synced"@,
        scope == ProfileScope::Development ==> name@ == "development"@,
        older == workspace::WorkspaceScope::Local ==> older_name@ == "local"@,
        older == workspace::WorkspaceScope::Synced ==> older_name@ == "synced"@,
        older == workspace::WorkspaceScope::Development ==> older_name@ == "development"@,
{
    reveal_strlit("local");
    reveal_strlit("synced");
    reveal_strlit("development");
    assert("local"@.len() == 5 && "synced"@.len() == 6 && "development"@.len() == 11);
}

/// Any other name is the name of no scope.
pub proof fn only_three_names_are_scopes(
    name: &str,
    r: Option<ProfileScope>,
    older: Option<workspace::WorkspaceScope>,
)
    requires
        call_ensures(ProfileScope::named, (name,), r),
        call_ensures(workspace::WorkspaceScope::named, (name,), older),
    ensures
        r is Some <==> name@ == "local"@ || name@ == "synced"@ || name@ == "development"@,
        older is Some <==> name@ == "local"@ || name@ == "synced"@ || name@ == "development"@,
{
}

/// A message is taken where it names one scope, and refused where it names none, or two.
pub proof fn a_runtime_has_one_scope(
    wire: EngineInfoWire,
    r: Result<EngineInfo, EngineInfoError>,
    message: &'static str,
)
    requires
        call_ensures(EngineInfo::from_wire, (wire,), r),
        r matches Err(e) ==> call_ensures(EngineInfoError::message, (&e,), message),
    ensures
        ({
            let none = wire.profile_scope is None && wire.workspace_scope is None;
            let two = wire.profile_scope is Some && wire.workspace_scope is Some
                && wire.profile_scope->0 != wire.workspace_scope->0;
            &&& r is Err <==> none || two
            &&& none ==> message@ == "missing field `profileScope`"@
            &&& two ==> message@ == "profileScope and workspaceScope disagree"@
            &&& r is Ok ==> r->Ok_0.device_id == wire.device_id && r->Ok_0.profile == wire.profile
            &&& r is Ok && wire.profile_scope is Some ==> r->Ok_0.profile_scope
                == wire.profile_scope->0
            &&& r is Ok && wire.profile_scope is None ==> r->Ok_0.profile_scope
                == wire.workspace_scope->0
        }),
{
}

/// A device starts in dev mode as the development user, until a client id is configured;
/// an edge in dev mode takes that back, and changes nothing else.
pub proof fn an_edge_in_dev_mode_means_dev_mode(
    edge_url: String,
    data_dir: String,
    new: AuthConfig,
    config: AuthConfig,
    mode: Option<&str>,
    r: AuthConfig,
    role: String,
)
    requires
        call_ensures(AuthConfig::new, (edge_url, data_dir), new),
        call_ensures(AuthConfig::detected, (config, mode), r),
        call_ensures(default_role, (), role),
    ensures
        new.edge_url == edge_url && new.data_dir == data_dir && new.workos_client_id is None,
        new.workos_api_base@ == "https://api.workos.com"@ && new.dev_user_id@ == "dev-user"@
            && new.callback_port is None,
        mode is Some && mode->0@ == "dev"@ ==> r.workos_client_id is None,
        !(mode is Some && mode->0@ == "dev"@) ==> r.workos_client_id == config.workos_client_id,
        r.edge_url == config.edge_url && r.data_dir == config.data_dir && r.workos_api_base
            == config.workos_api_base && r.dev_user_id == config.dev_user_id && r.callback_port
            == config.callback_port,
        role@ == "member"@,
{
}

} // verus!
