//! The values that authentication is about.

use vstd::prelude::*;

use crate::json::{add_member, member_views, Json, JsonView};
use crate::proto::account;
use crate::text::{clone_option, join2, option_text_eq, same_option_text, text_eq};

verus! {

/// An engine failure, as its message.
#[derive(Debug, PartialEq, Eq)]
pub enum EngineError {
    Other(String),
}

impl EngineError {
    /// The message of a failure.
    pub open spec fn text(self) -> Seq<char> {
        match self {
            EngineError::Other(m) => m@,
        }
    }

    pub fn message(&self) -> (r: &str)
        ensures
            r@ == self.text(),
    {
        match self {
            EngineError::Other(m) => m.as_str(),
        }
    }
}

/// A failure with the given message.
pub fn error(message: &str) -> (r: EngineError)
    ensures
        r.text() == message@,
{
    EngineError::Other(message.to_owned())
}

/// A failure whose message is that of another and more behind it.
pub fn error_then(first: &EngineError, more: &str) -> (r: EngineError)
    ensures
        r.text() == first.text() + more@,
{
    EngineError::Other(join2(first.message(), more))
}

/// The result is a failure with the given message.
pub open spec fn failed_with<T>(r: Result<T, EngineError>, message: Seq<char>) -> bool {
    r is Err && r->Err_0.text() == message
}

#[derive(Debug, PartialEq, Eq)]
pub struct AuthUser {
    pub id: String,
    pub email: String,
    pub name: Option<String>,
}

impl Clone for AuthUser {
    fn clone(&self) -> (r: Self)
        ensures
            r == *self,
    {
        AuthUser {
            id: self.id.clone(),
            email: self.email.clone(),
            name: clone_option(&self.name),
        }
    }
}

/// Two users with the same id, email and name.
pub open spec fn same_user(a: AuthUser, b: AuthUser) -> bool {
    a.id@ == b.id@ && a.email@ == b.email@ && same_option_text(a.name, b.name)
}

pub fn user_eq(a: &AuthUser, b: &AuthUser) -> (r: bool)
    ensures
        r == same_user(*a, *b),
{
    a.id == b.id && a.email == b.email && option_text_eq(&a.name, &b.name)
}

#[derive(Debug, PartialEq, Eq)]
pub struct OrgMembership {
    pub id: String,
    pub organization_id: String,
    pub name: String,
    /// The caller's role in this org ("admin" | "member"). Additive: absent
    /// from pre-role edges defaults to member.
    pub role: String,
}

/// The role of a membership that does not name one.
pub fn default_role() -> (r: String)
    ensures
        r@ == "member"@,
{
    "member".to_owned()
}

/// One member of an organization (the Team settings roster).
#[derive(Debug, PartialEq, Eq)]
pub struct OrgMember {
    pub membership_id: String,
    pub user_id: String,
    pub email: String,
    pub name: Option<String>,
    pub role: String,
}

/// The stable auth state after deleting a workspace. Callers must replace any
/// identity-scoped runtime after either outcome: it now belongs to the selected
/// fallback workspace, or the session has been cleared completely.
#[derive(Debug, PartialEq, Eq)]
pub enum DeleteOrgOutcome {
    Switched { organization_id: String },
    SignedOut,
}

/// The outcome of a deletion, as a message: what was done, and what goes with it.
pub open spec fn deletion_json(outcome: DeleteOrgOutcome) -> JsonView {
    JsonView::Object(
        match outcome {
            DeleteOrgOutcome::Switched { organization_id } => seq![
                ("action"@, JsonView::Text("switched"@)),
                ("organizationId"@, JsonView::Text(organization_id@)),
            ],
            DeleteOrgOutcome::SignedOut => seq![("action"@, JsonView::Text("signedOut"@))],
        },
    )
}

impl DeleteOrgOutcome {
    /// The message that tells clients how a deletion ended.
    pub fn to_json(&self) -> (r: Json)
        ensures
            r@ == deletion_json(*self),
    {
        let mut members: Vec<(String, Json)> = Vec::new();
        match self {
            DeleteOrgOutcome::Switched { organization_id } => {
                add_member(&mut members, "action", Json::Text("switched".to_owned()));
                add_member(&mut members, "organizationId", Json::Text(organization_id.clone()));
            },
            DeleteOrgOutcome::SignedOut => {
                add_member(&mut members, "action", Json::Text("signedOut".to_owned()));
            },
        }
        assert(member_views(members@) =~= deletion_json(*self)->Object_0);
        Json::Object(members)
    }
}

/// What the auth status stream carries.
#[derive(Debug, PartialEq)]
pub enum AuthState {
    SignedOut,
    NeedsOrganization { user: AuthUser },
    SignedIn { user: AuthUser, org_id: Option<String> },
}

impl Clone for AuthState {
    fn clone(&self) -> (r: Self)
        ensures
            r == *self,
    {
        match self {
            AuthState::SignedOut => AuthState::SignedOut,
            AuthState::NeedsOrganization { user } => {
                AuthState::NeedsOrganization { user: user.clone() }
            },
            AuthState::SignedIn { user, org_id } => {
                AuthState::SignedIn { user: user.clone(), org_id: clone_option(org_id) }
            },
        }
    }
}

/// The client-facing profile of a user.
pub open spec fn profile_of(user: AuthUser) -> account::UserProfile {
    account::UserProfile { id: user.id, email: user.email, name: user.name }
}

fn user_profile(user: &AuthUser) -> (r: account::UserProfile)
    ensures
        r == profile_of(*user),
{
    account::UserProfile {
        id: user.id.clone(),
        email: user.email.clone(),
        name: clone_option(&user.name),
    }
}

impl AuthState {
    pub fn is_signed_in(&self) -> (r: bool)
        ensures
            r == (self is SignedIn),
    {
        matches!(self, AuthState::SignedIn { .. })
    }

    /// The organization of a signed-in account, where it has one.
    pub open spec fn selected_org(self) -> Option<String> {
        match self {
            AuthState::SignedIn { user: _, org_id } => org_id,
            _ => None,
        }
    }

    pub fn org_id(&self) -> (r: Option<&str>)
        ensures
            match r {
                Some(org) => self.selected_org() is Some && org@ == self.selected_org()->0@,
                None => self.selected_org() is None,
            },
    {
        match self {
            AuthState::SignedIn { user: _, org_id } => match org_id {
                Some(org) => Some(org.as_str()),
                None => None,
            },
            _ => None,
        }
    }

    /// The user of an account that is signed in, with an organization or without.
    pub open spec fn account_user(self) -> Option<AuthUser> {
        match self {
            AuthState::SignedIn { user, org_id: _ } => Some(user),
            AuthState::NeedsOrganization { user } => Some(user),
            AuthState::SignedOut => None,
        }
    }

    pub fn user(&self) -> (r: Option<&AuthUser>)
        ensures
            match r {
                Some(user) => self.account_user() == Some(*user),
                None => self.account_user() is None,
            },
    {
        match self {
            AuthState::SignedIn { user, org_id: _ } => Some(user),
            AuthState::NeedsOrganization { user } => Some(user),
            AuthState::SignedOut => None,
        }
    }

    /// The wire twin: the one shape the engine sends to clients.
    pub fn to_proto(&self) -> (r: account::AuthState)
        ensures
            r == (match *self {
                AuthState::SignedOut => account::AuthState::SignedOut,
                AuthState::NeedsOrganization { user } => account::AuthState::NeedsOrganization {
                    user: profile_of(user),
                },
                AuthState::SignedIn { user, org_id } => account::AuthState::SignedIn {
                    user: profile_of(user),
                    org_id,
                },
            }),
    {
        match self {
            AuthState::SignedOut => account::AuthState::SignedOut,
            AuthState::NeedsOrganization { user } => {
                account::AuthState::NeedsOrganization { user: user_profile(user) }
            },
            AuthState::SignedIn { user, org_id } => {
                account::AuthState::SignedIn {
                    user: user_profile(user),
                    org_id: clone_option(org_id),
                }
            },
        }
    }
}

/// The account state of a session: one without an organization still needs one.
pub open spec fn session_state(user: AuthUser, org_id: Option<String>) -> AuthState {
    match org_id {
        Some(org) => AuthState::SignedIn { user, org_id: Some(org) },
        None => AuthState::NeedsOrganization { user },
    }
}

/// Every user must belong to an organization before the product opens up; an org-less
/// session is `NeedsOrganization`, which the UI gates on.
pub fn state_for(user: AuthUser, org_id: Option<String>) -> (r: AuthState)
    ensures
        r == session_state(user, org_id),
{
    match org_id {
        Some(org_id) => AuthState::SignedIn { user, org_id: Some(org_id) },
        None => AuthState::NeedsOrganization { user },
    }
}

#[derive(Debug)]
pub struct AuthConfig {
    /// Edge base URL (`/auth/*` routes).
    pub edge_url: String,
    /// Data dir for the persisted session.
    pub data_dir: String,
    /// WorkOS client id; `None` = dev mode.
    pub workos_client_id: Option<String>,
    /// WorkOS API base (authorize URL host).
    pub workos_api_base: String,
    /// Dev-mode bearer and user id.
    pub dev_user_id: String,
    /// Loopback callback port; `None` = ephemeral.
    pub callback_port: Option<u16>,
}

impl Clone for AuthConfig {
    fn clone(&self) -> (r: Self)
        ensures
            r == *self,
    {
        AuthConfig {
            edge_url: self.edge_url.clone(),
            data_dir: self.data_dir.clone(),
            workos_client_id: clone_option(&self.workos_client_id),
            workos_api_base: self.workos_api_base.clone(),
            dev_user_id: self.dev_user_id.clone(),
            callback_port: self.callback_port,
        }
    }
}

impl AuthConfig {
    /// Dev mode against the given edge, with the session under the given directory.
    pub fn new(edge_url: String, data_dir: String) -> (r: Self)
        ensures
            r.edge_url == edge_url,
            r.data_dir == data_dir,
            r.workos_client_id is None,
            r.workos_api_base@ == "https://api.workos.com"@,
            r.dev_user_id@ == "dev-user"@,
            r.callback_port is None,
    {
        AuthConfig {
            edge_url,
            data_dir,
            workos_client_id: None,
            workos_api_base: "https://api.workos.com".to_owned(),
            dev_user_id: "dev-user".to_owned(),
            callback_port: None,
        }
    }

    /// The configuration to use once the edge has been asked how it verifies bearers:
    /// an edge in dev mode forces dev mode whatever client id is configured.
    pub fn detected(self, edge_auth: Option<&str>) -> (r: Self)
        ensures
            (edge_auth is Some && edge_auth->0@ == "dev"@) ==> r == (AuthConfig {
                workos_client_id: None,
                ..self
            }),
            !(edge_auth is Some && edge_auth->0@ == "dev"@) ==> r == self,
    {
        let mut config = self;
        if let Some(mode) = edge_auth {
            if text_eq(mode, "dev") {
                config.workos_client_id = None;
            }
        }
        config
    }
}

/// The persisted session (refresh token + user + last org scope).
#[derive(Debug, PartialEq, Eq)]
pub struct StoredSession {
    pub refresh_token: String,
    pub user: AuthUser,
    pub org_id: Option<String>,
}

impl Clone for StoredSession {
    fn clone(&self) -> (r: Self)
        ensures
            r == *self,
    {
        StoredSession {
            refresh_token: self.refresh_token.clone(),
            user: self.user.clone(),
            org_id: clone_option(&self.org_id),
        }
    }
}

/// Two sessions with the same refresh token, user and organization.
pub open spec fn same_session(a: StoredSession, b: StoredSession) -> bool {
    a.refresh_token@ == b.refresh_token@ && same_user(a.user, b.user) && same_option_text(
        a.org_id,
        b.org_id,
    )
}

/// The stored session is the given one.
pub open spec fn holds_session(stored: Option<StoredSession>, prior: StoredSession) -> bool {
    stored is Some && same_session(stored->0, prior)
}

pub fn session_is(stored: &Option<StoredSession>, prior: &StoredSession) -> (r: bool)
    ensures
        r == holds_session(*stored, *prior),
{
    match stored {
        Some(current) => current.refresh_token == prior.refresh_token && user_eq(
            &current.user,
            &prior.user,
        ) && option_text_eq(&current.org_id, &prior.org_id),
        None => false,
    }
}

/// What a completed code exchange yields.
#[derive(Debug, PartialEq, Eq)]
pub struct SignInResult {
    pub user: AuthUser,
    pub access_token: String,
    pub refresh_token: String,
}

/// Whether an authenticated edge request has a definitive server outcome.
/// A complete non-success response proves the operation was rejected; transport,
/// body-read, and success-decoding failures leave a mutating request's outcome
/// unknown to the caller.
#[derive(Debug, PartialEq, Eq)]
pub enum AuthedRequestError {
    Definite(EngineError),
    Ambiguous(EngineError),
}

impl AuthedRequestError {
    pub fn into_engine_error(self) -> (r: EngineError)
        ensures
            r == (match self {
                AuthedRequestError::Definite(e) => e,
                AuthedRequestError::Ambiguous(e) => e,
            }),
    {
        match self {
            AuthedRequestError::Definite(error) => error,
            AuthedRequestError::Ambiguous(error) => error,
        }
    }
}

} // verus!
