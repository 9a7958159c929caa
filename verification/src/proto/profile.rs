//! Profile lifecycle types shared by the engine and its clients.

use vstd::prelude::*;

use crate::json::{add_member, member_views, Json, JsonView};
use crate::text::text_eq;

verus! {

/// The fixed data boundary selected when an engine runtime is assembled.
///
/// Authentication can change while a runtime is alive, but its profile scope
/// cannot. Switching scopes requires assembling a new runtime.
#[derive(Debug, Clone, Copy, PartialEq, Eq, Structural)]
pub enum ProfileScope {
    Local,
    Synced,
    Development,
}

/// The immutable account boundary captured when an engine runtime opens its
/// stores. This deliberately differs from the latest authentication state:
/// selecting another Organization may update auth before the old runtime has stopped.
#[derive(Debug, PartialEq, Eq)]
pub struct ProfileIdentity {
    pub user_id: String,
    pub organization_id: String,
}

/// Stable information about the engine runtime reached by a client.
#[derive(Debug, PartialEq, Eq)]
pub struct EngineInfo {
    pub device_id: String,
    pub profile_scope: ProfileScope,
    /// Absent for legacy daemons and a synced runtime that is still waiting for
    /// its first organization. Consumers must fail closed instead of deriving
    /// this identity from mutable auth in either case.
    pub profile: Option<ProfileIdentity>,
}

/// The members of an engine-info message, before its scope is settled. Older daemons
/// send `workspaceScope` in place of `profileScope`.
#[derive(Debug, PartialEq, Eq)]
pub struct EngineInfoWire {
    pub device_id: String,
    pub profile_scope: Option<ProfileScope>,
    pub workspace_scope: Option<ProfileScope>,
    pub profile: Option<ProfileIdentity>,
}

/// Why an engine-info message is refused.
#[derive(Debug, Clone, Copy, PartialEq, Eq, Structural)]
pub enum EngineInfoError {
    /// Both scopes are there, and they differ.
    ScopesDisagree,
    /// Neither scope is there.
    MissingProfileScope,
}

impl EngineInfoError {
    /// The message of the refusal.
    pub fn message(&self) -> (r: &'static str)
        ensures
            r@ == (match *self {
                EngineInfoError::ScopesDisagree => "profileScope and workspaceScope disagree"@,
                EngineInfoError::MissingProfileScope => "missing field `profileScope`"@,
            }),
    {
        match self {
            EngineInfoError::ScopesDisagree => "profileScope and workspaceScope disagree",
            EngineInfoError::MissingProfileScope => "missing field `profileScope`",
        }
    }
}

impl Clone for ProfileIdentity {
    fn clone(&self) -> (r: Self)
        ensures
            r == *self,
    {
        ProfileIdentity {
            user_id: self.user_id.clone(),
            organization_id: self.organization_id.clone(),
        }
    }
}

impl EngineInfo {
    /// Settles the scope of a received message: the one scope it names, by whichever
    /// name, and a refusal where it names none or two different ones.
    pub fn from_wire(wire: EngineInfoWire) -> (r: Result<EngineInfo, EngineInfoError>)
        ensures
            match (wire.profile_scope, wire.workspace_scope) {
                (None, None) => r == Err::<EngineInfo, _>(EngineInfoError::MissingProfileScope),
                (Some(a), Some(b)) if a != b => r == Err::<EngineInfo, _>(
                    EngineInfoError::ScopesDisagree,
                ),
                (a, b) => r == Ok::<_, EngineInfoError>(
                    (EngineInfo {
                        device_id: wire.device_id,
                        profile_scope: if a is Some {
                            a->0
                        } else {
                            b->0
                        },
                        profile: wire.profile,
                    }),
                ),
            },
    {
        let profile_scope = match (wire.profile_scope, wire.workspace_scope) {
            (Some(current), Some(previous)) => {
                if current != previous {
                    return Err(EngineInfoError::ScopesDisagree);
                }
                current
            },
            (Some(scope), None) => scope,
            (None, Some(scope)) => scope,
            (None, None) => return Err(EngineInfoError::MissingProfileScope),
        };
        Ok(EngineInfo { device_id: wire.device_id, profile_scope, profile: wire.profile })
    }
}

impl ProfileScope {
    /// The name of a scope in messages.
    pub open spec fn name(self) -> Seq<char> {
        match self {
            ProfileScope::Local => "local"@,
            ProfileScope::Synced => "synced"@,
            ProfileScope::Development => "development"@,
        }
    }

    /// The name of a scope in messages.
    pub fn wire_name(&self) -> (r: &'static str)
        ensures
            r@ == self.name(),
    {
        match self {
            ProfileScope::Local => "local",
            ProfileScope::Synced => "synced",
            ProfileScope::Development => "development",
        }
    }

    /// The scope with a name.
    pub fn named(name: &str) -> (r: Option<ProfileScope>)
        ensures
            match r {
                Some(scope) => scope.name() == name@,
                None => name@ != ProfileScope::Local.name() && name@ != ProfileScope::Synced.name()
                    && name@ != ProfileScope::Development.name(),
            },
    {
        if text_eq(name, "local") {
            Some(ProfileScope::Local)
        } else if text_eq(name, "synced") {
            Some(ProfileScope::Synced)
        } else if text_eq(name, "development") {
            Some(ProfileScope::Development)
        } else {
            None
        }
    }
}

/// An account boundary as a message.
pub open spec fn identity_json(user_id: Seq<char>, organization_id: Seq<char>) -> JsonView {
    JsonView::Object(
        seq![
            ("userId"@, JsonView::Text(user_id)),
            ("organizationId"@, JsonView::Text(organization_id)),
        ],
    )
}

/// Runtime information as a message: an absent profile has no member.
pub open spec fn info_json(
    device_id: Seq<char>,
    scope_key: Seq<char>,
    scope: Seq<char>,
    profile: Option<(Seq<char>, Seq<char>)>,
) -> JsonView {
    let start = seq![
        ("deviceId"@, JsonView::Text(device_id)),
        (scope_key, JsonView::Text(scope)),
    ];
    JsonView::Object(
        match profile {
            Some((user, organization)) => start.push(
                ("profile"@, identity_json(user, organization)),
            ),
            None => start,
        },
    )
}

/// Writes runtime information as a message.
pub(crate) fn write_info(
    device_id: &str,
    scope_key: &str,
    scope: &str,
    profile: Option<(&str, &str)>,
) -> (r: Json)
    ensures
        r@ == info_json(
            device_id@,
            scope_key@,
            scope@,
            match profile {
                Some((user, organization)) => Some((user@, organization@)),
                None => None,
            },
        ),
{
    let mut members: Vec<(String, Json)> = Vec::new();
    add_member(&mut members, "deviceId", Json::Text(device_id.to_owned()));
    add_member(&mut members, scope_key, Json::Text(scope.to_owned()));
    let ghost start = seq![
        ("deviceId"@, JsonView::Text(device_id@)),
        (scope_key@, JsonView::Text(scope@)),
    ];
    assert(member_views(members@) =~= start);
    if let Some((user, organization)) = profile {
        let mut inner: Vec<(String, Json)> = Vec::new();
        add_member(&mut inner, "userId", Json::Text(user.to_owned()));
        add_member(&mut inner, "organizationId", Json::Text(organization.to_owned()));
        let identity = Json::Object(inner);
        assert(identity@->Object_0 =~= identity_json(user@, organization@)->Object_0);
        add_member(&mut members, "profile", identity);
    }
    Json::Object(members)
}

impl EngineInfo {
    /// The message that tells clients about a runtime.
    pub fn to_json(&self) -> (r: Json)
        ensures
            r@ == info_json(
                self.device_id@,
                "profileScope"@,
                self.profile_scope.name(),
                match self.profile {
                    Some(p) => Some((p.user_id@, p.organization_id@)),
                    None => None,
                },
            ),
    {
        let profile = match &self.profile {
            Some(p) => Some((p.user_id.as_str(), p.organization_id.as_str())),
            None => None,
        };
        write_info(
            self.device_id.as_str(),
            "profileScope",
            self.profile_scope.wire_name(),
            profile,
        )
    }
}

/// A message gives one scope whichever of the two names carries it: adding the other
/// name with the same scope changes nothing.
pub proof fn either_scope_name_will_do(scope: ProfileScope, a: EngineInfoWire, b: EngineInfoWire, ra: Result<EngineInfo, EngineInfoError>, rb: Result<EngineInfo, EngineInfoError>)
    requires
        a.profile_scope == Some(scope) && (a.workspace_scope is None || a.workspace_scope == Some(
            scope,
        )),
        b == (EngineInfoWire { profile_scope: None, workspace_scope: Some(scope), ..a }),
        call_ensures(EngineInfo::from_wire, (a,), ra),
        call_ensures(EngineInfo::from_wire, (b,), rb),
    ensures
        ra == rb,
        ra is Ok,
{
}

} // verus!
