//! The account state that clients see.

use vstd::prelude::*;

use crate::json::{add_member, member_views, Json, JsonView};

verus! {

/// The profile of a user.
#[derive(Debug, PartialEq, Eq)]
pub struct UserProfile {
    pub id: String,
    pub email: String,
    pub name: Option<String>,
}

/// The auth status as it is sent to clients.
#[derive(Debug, PartialEq, Eq)]
pub enum AuthState {
    SignedOut,
    NeedsOrganization { user: UserProfile },
    SignedIn { user: UserProfile, org_id: Option<String> },
}

/// A text that may be absent, as a message: an absent one is null.
pub open spec fn optional_json(text: Option<String>) -> JsonView {
    match text {
        Some(t) => JsonView::Text(t@),
        None => JsonView::Null,
    }
}

fn write_optional(text: &Option<String>) -> (r: Json)
    ensures
        r@ == optional_json(*text),
{
    match text {
        Some(t) => Json::Text(t.clone()),
        None => Json::Null,
    }
}

/// The profile of a user, as a message.
pub open spec fn user_json(user: UserProfile) -> JsonView {
    JsonView::Object(
        seq![
            ("id"@, JsonView::Text(user.id@)),
            ("email"@, JsonView::Text(user.email@)),
            ("name"@, optional_json(user.name)),
        ],
    )
}

fn write_user(user: &UserProfile) -> (r: Json)
    ensures
        r@ == user_json(*user),
{
    let mut members: Vec<(String, Json)> = Vec::new();
    add_member(&mut members, "id", Json::Text(user.id.clone()));
    add_member(&mut members, "email", Json::Text(user.email.clone()));
    add_member(&mut members, "name", write_optional(&user.name));
    let r = Json::Object(members);
    assert(r@->Object_0 =~= user_json(*user)->Object_0);
    r
}

/// The auth status, as a message: its state, and what goes with it.
pub open spec fn state_json(state: AuthState) -> JsonView {
    JsonView::Object(
        match state {
            AuthState::SignedOut => seq![("state"@, JsonView::Text("signedOut"@))],
            AuthState::NeedsOrganization { user } => seq![
                ("state"@, JsonView::Text("needsOrganization"@)),
                ("user"@, user_json(user)),
            ],
            AuthState::SignedIn { user, org_id } => seq![
                ("state"@, JsonView::Text("signedIn"@)),
                ("user"@, user_json(user)),
                ("orgId"@, optional_json(org_id)),
            ],
        },
    )
}

impl AuthState {
    /// The message that tells clients about the account.
    pub fn to_json(&self) -> (r: Json)
        ensures
            r@ == state_json(*self),
    {
        let mut members: Vec<(String, Json)> = Vec::new();
        match self {
            AuthState::SignedOut => {
                add_member(&mut members, "state", Json::Text("signedOut".to_owned()));
            },
            AuthState::NeedsOrganization { user } => {
                add_member(&mut members, "state", Json::Text("needsOrganization".to_owned()));
                add_member(&mut members, "user", write_user(user));
            },
            AuthState::SignedIn { user, org_id } => {
                add_member(&mut members, "state", Json::Text("signedIn".to_owned()));
                add_member(&mut members, "user", write_user(user));
                add_member(&mut members, "orgId", write_optional(org_id));
            },
        }
        assert(member_views(members@) =~= state_json(*self)->Object_0);
        Json::Object(members)
    }
}

} // verus!
