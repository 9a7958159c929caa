//! `zeron login`, `zeron logout` and `zeron status`: what they decide and what they say.

use vstd::prelude::*;

use crate::auth::types::{failed_with, AuthState, EngineError};
use crate::proto::profile::ProfileScope;
use crate::text::{decimal, decimal_digits, join2, join3, join4, join5, texts};

verus! {

/// The account as `zeron status` reports it.
#[derive(Debug, PartialEq, Eq)]
pub struct AccountStatus {
    pub mode: &'static str,
    pub auth: String,
    pub healthy: bool,
}

/// The organization of an account, in brackets behind its email.
pub open spec fn org_suffix(org_id: Option<String>) -> Seq<char> {
    match org_id {
        Some(org) => " (organization "@ + org@ + ")"@,
        None => Seq::empty(),
    }
}

fn org_text(org_id: &Option<String>) -> (r: String)
    ensures
        r@ == org_suffix(*org_id),
{
    match org_id {
        Some(org) => join3(" (organization ", org.as_str(), ")"),
        None => String::new(),
    }
}

/// The mode that a scope is called.
pub open spec fn mode_name(scope: ProfileScope) -> Seq<char> {
    match scope {
        ProfileScope::Local => "local only"@,
        ProfileScope::Synced => "synced"@,
        ProfileScope::Development => "development"@,
    }
}

/// What is said of the account in a scope.
pub open spec fn account_line(scope: ProfileScope, auth: AuthState) -> Seq<char> {
    match (scope, auth) {
        (ProfileScope::Local, AuthState::SignedOut) => "signed out (optional in local-only mode)"@,
        (ProfileScope::Local, AuthState::NeedsOrganization { user }) => "signed in as "@
            + user.email@ + "; finish organization setup to enable sync"@,
        (ProfileScope::Local, AuthState::SignedIn { user, org_id: _ }) => "signed in as "@
            + user.email@ + "; sync is ready after restart"@,
        (ProfileScope::Development, _) => "dev mode (bearer = user id)"@,
        (ProfileScope::Synced, AuthState::SignedIn { user, org_id }) => "signed in as "@
            + user.email@ + org_suffix(org_id),
        (ProfileScope::Synced, AuthState::NeedsOrganization { user }) => "signed in as "@
            + user.email@ + " but no organization selected — run `zeron login`"@,
        (ProfileScope::Synced, AuthState::SignedOut) =>
            "saved session is no longer valid — run `zeron login`"@,
    }
}

/// The account in a scope. Only a synced profile needs a complete account.
pub fn account_status(scope: ProfileScope, auth: &AuthState) -> (r: AccountStatus)
    ensures
        r.mode@ == mode_name(scope),
        r.auth@ == account_line(scope, *auth),
        r.healthy == (scope != ProfileScope::Synced || auth is SignedIn),
{
    match scope {
        ProfileScope::Local => match auth {
            AuthState::SignedOut => AccountStatus {
                mode: "local only",
                auth: "signed out (optional in local-only mode)".to_owned(),
                healthy: true,
            },
            AuthState::NeedsOrganization { user } => AccountStatus {
                mode: "local only",
                auth: join3(
                    "signed in as ",
                    user.email.as_str(),
                    "; finish organization setup to enable sync",
                ),
                healthy: true,
            },
            AuthState::SignedIn { user, org_id: _ } => AccountStatus {
                mode: "local only",
                auth: join3(
                    "signed in as ",
                    user.email.as_str(),
                    "; sync is ready after restart",
                ),
                healthy: true,
            },
        },
        ProfileScope::Development => AccountStatus {
            mode: "development",
            auth: "dev mode (bearer = user id)".to_owned(),
            healthy: true,
        },
        ProfileScope::Synced => match auth {
            AuthState::SignedIn { user, org_id } => {
                let org = org_text(org_id);
                AccountStatus {
                    mode: "synced",
                    auth: join3("signed in as ", user.email.as_str(), org.as_str()),
                    healthy: true,
                }
            },
            AuthState::NeedsOrganization { user } => AccountStatus {
                mode: "synced",
                auth: join3(
                    "signed in as ",
                    user.email.as_str(),
                    " but no organization selected — run `zeron login`",
                ),
                healthy: false,
            },
            AuthState::SignedOut => AccountStatus {
                mode: "synced",
                auth: "saved session is no longer valid — run `zeron login`".to_owned(),
                healthy: false,
            },
        },
    }
}

/// The lines of one text.
fn one_line(line: &str) -> (r: Vec<String>)
    ensures
        texts(r@) == seq![line@],
{
    let mut out: Vec<String> = Vec::new();
    out.push(line.to_owned());
    assert(texts(out@) =~= seq![line@]);
    out
}

fn add_line(lines: &mut Vec<String>, line: String)
    ensures
        texts(final(lines)@) == texts(old(lines)@).push(line@),
{
    let ghost before = lines@;
    lines.push(line);
    assert(texts(lines@) =~= texts(before).push(line@));
}

/// How `zeron login` begins.
#[derive(Debug, PartialEq, Eq)]
pub enum LoginStart {
    /// Say this and be done.
    Say(Vec<String>),
    /// There is no terminal to sign in from.
    NeedsTerminal,
    /// Run the sign-in.
    SignIn,
}

/// Decides whether there is anything to sign in to, or anyone to sign in.
pub fn login_start(workos_enabled: bool, state: &AuthState, terminal: bool) -> (r: LoginStart)
    ensures
        if !workos_enabled {
            r is Say && texts(r->Say_0@) == seq![
                "Auth is in dev mode (no WorkOS client id) — there is nothing to sign in to."@,
            ]
        } else {
            match *state {
                AuthState::SignedIn { user, org_id } => r is Say && texts(r->Say_0@) == seq![
                    "Already signed in as "@ + user.email@ + org_suffix(org_id) + "."@,
                    "Run `zeron logout` first to switch accounts."@,
                    "The next engine start will use the synced profile."@,
                ],
                _ => r == if terminal {
                    LoginStart::SignIn
                } else {
                    LoginStart::NeedsTerminal
                },
            }
        },
{
    if !workos_enabled {
        return LoginStart::Say(
            one_line("Auth is in dev mode (no WorkOS client id) — there is nothing to sign in to."),
        );
    }
    if let AuthState::SignedIn { user, org_id } = state {
        let org = org_text(org_id);
        let first = join4("Already signed in as ", user.email.as_str(), org.as_str(), ".");
        let mut lines = one_line(first.as_str());
        add_line(&mut lines, "Run `zeron logout` first to switch accounts.".to_owned());
        add_line(&mut lines, "The next engine start will use the synced profile.".to_owned());
        assert(texts(lines@) =~= seq![
            "Already signed in as "@ + user.email@ + org_suffix(*org_id) + "."@,
            "Run `zeron logout` first to switch accounts."@,
            "The next engine start will use the synced profile."@,
        ]);
        return LoginStart::Say(lines);
    }
    if terminal {
        LoginStart::SignIn
    } else {
        LoginStart::NeedsTerminal
    }
}

/// What `zeron login` says once the sign-in has run.
pub fn login_report(state: &AuthState) -> (r: Vec<String>)
    ensures
        texts(r@) == (match *state {
            AuthState::SignedIn { user, org_id } => seq![
                "\nSigned in as "@ + user.email@ + org_suffix(org_id) + "."@,
                "Sync is ready. Start or restart Zeron to open the organization's synced data; existing local sessions will stay local."@,
            ],
            _ => seq!["Sign-in did not complete."@],
        }),
{
    match state {
        AuthState::SignedIn { user, org_id } => {
            let org = org_text(org_id);
            let first = join4("\nSigned in as ", user.email.as_str(), org.as_str(), ".");
            let mut lines = one_line(first.as_str());
            add_line(&mut lines, 
                "Sync is ready. Start or restart Zeron to open the organization's synced data; existing local sessions will stay local.".to_owned(),
            );
            assert(texts(lines@) =~= seq![
                "\nSigned in as "@ + user.email@ + org_suffix(*org_id) + "."@,
                "Sync is ready. Start or restart Zeron to open the organization's synced data; existing local sessions will stay local."@,
            ]);
            lines
        },
        _ => one_line("Sign-in did not complete."),
    }
}

/// What the failure to sign out is reported as.
pub open spec fn logout_failure(workos_enabled: bool, state: AuthState) -> Seq<char> {
    if !workos_enabled {
        "could not durably clear the saved auth session: "@
    } else {
        match state.account_user() {
            None => "could not durably clear the stale auth session: "@,
            Some(user) => "could not durably sign out "@ + user.email@ + ": "@,
        }
    }
}

/// What `zeron logout` says once the session is gone.
pub open spec fn logout_lines(
    workos_enabled: bool,
    state: AuthState,
    session_file: Seq<char>,
) -> Seq<Seq<char>> {
    if !workos_enabled {
        seq![
            "Auth is in dev mode — cleared any stale saved session."@,
            "The next engine start will remain in development mode."@,
        ]
    } else {
        match state.account_user() {
            None => seq![
                "No valid saved session; cleared any stale session file."@,
                "The next engine start will use the local-only profile."@,
            ],
            Some(user) => seq![
                "Signed out "@ + user.email@ + " — removed "@ + session_file + "."@,
                "The next engine start will use the local-only profile."@,
            ],
        }
    }
}

/// What `zeron logout` reports, from the account before the sign-out and how the
/// sign-out ended. The sign-out itself is made in every case: it also clears files
/// that could not be loaded.
pub fn logout_report(
    workos_enabled: bool,
    state: &AuthState,
    session_file: &str,
    signed_out: Result<(), EngineError>,
) -> (r: Result<Vec<String>, EngineError>)
    ensures
        match signed_out {
            Ok(_) => r is Ok && texts(r->Ok_0@) == logout_lines(
                workos_enabled,
                *state,
                session_file@,
            ),
            Err(e) => failed_with(r, logout_failure(workos_enabled, *state) + e.text()),
        },
{
    if !workos_enabled {
        return match signed_out {
            Ok(_) => {
                let mut lines = one_line("Auth is in dev mode — cleared any stale saved session.");
                add_line(&mut lines, "The next engine start will remain in development mode.".to_owned());
                assert(texts(lines@) =~= logout_lines(false, *state, session_file@));
                Ok(lines)
            },
            Err(e) => Err(
                EngineError::Other(
                    join2("could not durably clear the saved auth session: ", e.message()),
                ),
            ),
        };
    }
    match state.user() {
        None => match signed_out {
            Ok(_) => {
                let mut lines = one_line("No valid saved session; cleared any stale session file.");
                add_line(&mut lines, "The next engine start will use the local-only profile.".to_owned());
                assert(texts(lines@) =~= logout_lines(true, *state, session_file@));
                Ok(lines)
            },
            Err(e) => Err(
                EngineError::Other(
                    join2("could not durably clear the stale auth session: ", e.message()),
                ),
            ),
        },
        Some(user) => match signed_out {
            Ok(_) => {
                let first = join5(
                    "Signed out ",
                    user.email.as_str(),
                    " — removed ",
                    session_file,
                    ".",
                );
                let mut lines = one_line(first.as_str());
                add_line(&mut lines, "The next engine start will use the local-only profile.".to_owned());
                assert(texts(lines@) =~= logout_lines(true, *state, session_file@));
                Ok(lines)
            },
            Err(e) => Err(
                EngineError::Other(
                    join4("could not durably sign out ", user.email.as_str(), ": ", e.message()),
                ),
            ),
        },
    }
}

/// The lines that `zeron status` prints.
pub fn status_lines(
    data_dir: &str,
    edge_url: &str,
    account: &AccountStatus,
    engine_pid: Option<u32>,
    ipc_listening: bool,
    ipc_port: u16,
) -> (r: Vec<String>)
    ensures
        texts(r@) == seq![
            "Data dir: "@ + data_dir@,
            "Edge:     "@ + edge_url@,
            "Mode:     "@ + account.mode@,
            "Auth:     "@ + account.auth@,
            match engine_pid {
                Some(pid) => "Engine:   running (pid "@ + decimal_digits(pid as nat) + ")"@,
                None => "Engine:   not running"@,
            },
            (if ipc_listening {
                "IPC:      listening on 127.0.0.1:"@
            } else {
                "IPC:      not listening on 127.0.0.1:"@
            }) + decimal_digits(ipc_port as nat),
        ],
{
    let first = join2("Data dir: ", data_dir);
    let mut lines = one_line(first.as_str());
    add_line(&mut lines, join2("Edge:     ", edge_url));
    add_line(&mut lines, join2("Mode:     ", account.mode));
    add_line(&mut lines, join2("Auth:     ", account.auth.as_str()));
    match engine_pid {
        Some(pid) => {
            let text = decimal(pid as u64);
            add_line(&mut lines, join3("Engine:   running (pid ", text.as_str(), ")"));
        },
        None => {
            add_line(&mut lines, "Engine:   not running".to_owned());
        },
    }
    let port = decimal(ipc_port as u64);
    if ipc_listening {
        add_line(&mut lines, join2("IPC:      listening on 127.0.0.1:", port.as_str()));
    } else {
        add_line(&mut lines, join2("IPC:      not listening on 127.0.0.1:", port.as_str()));
    }
    assert(texts(lines@) =~= seq![
        "Data dir: "@ + data_dir@,
        "Edge:     "@ + edge_url@,
        "Mode:     "@ + account.mode@,
        "Auth:     "@ + account.auth@,
        match engine_pid {
            Some(pid) => "Engine:   running (pid "@ + decimal_digits(pid as nat) + ")"@,
            None => "Engine:   not running"@,
        },
        (if ipc_listening {
            "IPC:      listening on 127.0.0.1:"@
        } else {
            "IPC:      not listening on 127.0.0.1:"@
        }) + decimal_digits(ipc_port as nat),
    ]);
    lines
}

/// The scope that `zeron status` reports: that of the engine that runs, or the one
/// that the next start would select.
pub fn reported_scope(live: Option<ProfileScope>, next: ProfileScope) -> (r: ProfileScope)
    ensures
        r == (match live {
            Some(scope) => scope,
            None => next,
        }),
{
    match live {
        Some(scope) => scope,
        None => next,
    }
}

/// The failure when the data directory is locked by a running engine. While one runs
/// it owns the session, so neither a sign-in nor a sign-out may go behind its back.
pub fn engine_lock_error(verb: &str, cause: &str) -> (r: EngineError)
    ensures
        r.text() == cause@ + "\nCannot "@ + verb@
            + " while an engine is running — stop it first (`zeron daemon stop`, or quit the Zeron app), or use the running UI instead."@,
{
    EngineError::Other(
        join4(
            cause,
            "\nCannot ",
            verb,
            " while an engine is running — stop it first (`zeron daemon stop`, or quit the Zeron app), or use the running UI instead.",
        ),
    )
}

} // verus!
