//! Workspace lifecycle types shared by the engine and its clients.

use vstd::prelude::*;

use super::profile::{info_json, write_info};
use crate::json::Json;
use crate::text::text_eq;

verus! {

/// The fixed data boundary selected when an engine runtime is assembled.
///
/// Authentication can change while a runtime is alive, but its workspace scope
/// cannot. Switching scopes requires assembling a new runtime.
#[derive(Debug, Clone, Copy, PartialEq, Eq, Structural)]
pub enum WorkspaceScope {
    Local,
    Synced,
    Development,
}

/// The immutable account boundary captured when an engine runtime opens its
/// stores. This deliberately differs from the latest authentication state:
/// selecting another Team may update auth before the old runtime has stopped.
#[derive(Debug, PartialEq, Eq)]
pub struct EngineProfileIdentity {
    pub user_id: String,
    pub organization_id: String,
}

/// Stable information about the engine runtime reached by a client.
#[derive(Debug, PartialEq, Eq)]
pub struct EngineInfo {
    pub device_id: String,
    pub workspace_scope: WorkspaceScope,
    /// Absent for legacy daemons and a synced runtime that is still waiting for
    /// its first organization. Consumers must fail closed instead of deriving
    /// this identity from mutable auth in either case.
    pub profile: Option<EngineProfileIdentity>,
}

impl WorkspaceScope {
    /// The name of a scope in messages.
    pub open spec fn name(self) -> Seq<char> {
        match self {
            WorkspaceScope::Local => "local"@,
            WorkspaceScope::Synced => "synced"@,
            WorkspaceScope::Development => "development"@,
        }
    }

    /// The name of a scope in messages.
    pub fn wire_name(&self) -> (r: &'static str)
        ensures
            r@ == self.name(),
    {
        match self {
            WorkspaceScope::Local => "local",
            WorkspaceScope::Synced => "synced",
            WorkspaceScope::Development => "development",
        }
    }

    /// The scope with a name.
    pub fn named(name: &str) -> (r: Option<WorkspaceScope>)
        ensures
            match r {
                Some(scope) => scope.name() == name@,
                None => name@ != WorkspaceScope::Local.name() && name@
                    != WorkspaceScope::Synced.name() && name@
                    != WorkspaceScope::Development.name(),
            },
    {
        if text_eq(name, "local") {
            Some(WorkspaceScope::Local)
        } else if text_eq(name, "synced") {
            Some(WorkspaceScope::Synced)
        } else if text_eq(name, "development") {
            Some(WorkspaceScope::Development)
        } else {
            None
        }
    }
}

impl EngineInfo {
    /// The message that tells clients about a runtime.
    pub fn to_json(&self) -> (r: Json)
        ensures
            r@ == info_json(
                self.device_id@,
                "workspaceScope"@,
                self.workspace_scope.name(),
                match self.profile {
                    Some(p) => Some((p.user_id@, p.organization_id@)),
                    None => None,
                },
            ),
    {
        let profile = match &self.profile {
            Some(p) => Some((p.user_id.as_str(), p.organization_id.as_str())),
            None => None,
        };
        write_info(
            self.device_id.as_str(),
            "workspaceScope",
            self.workspace_scope.wire_name(),
            profile,
        )
    }
}

} // verus!
