//! Laws of what the commands say.

use vstd::prelude::*;

use crate::auth::types::{AuthState, EngineError};
use crate::cli::{
    account_status, engine_lock_error, login_report, login_start, logout_report, reported_scope,
    status_lines, AccountStatus, LoginStart,
};
use crate::proto::profile::ProfileScope;
use crate::text::{decimal, texts};

verus! {

/// An account is complete or needs to be only in a synced profile; each mode has its own
/// name, and says of the account what its user can do next.
pub proof fn only_a_synced_profile_needs_an_account(
    scope: ProfileScope,
    auth: &AuthState,
    r: AccountStatus,
)
    requires
        call_ensures(account_status, (scope, auth), r),
    ensures
        r.healthy <==> scope != ProfileScope::Synced || auth is SignedIn,
        scope == ProfileScope::Local ==> r.mode@ == "local only"@,
        scope == ProfileScope::Synced ==> r.mode@ == "synced"@,
        scope == ProfileScope::Development ==> r.mode@ == "development"@ && r.auth@
            == "dev mode (bearer = user id)"@,
        scope == ProfileScope::Local && auth is SignedOut ==> r.auth@
            == "signed out (optional in local-only mode)"@,
        scope == ProfileScope::Local && auth is NeedsOrganization ==> r.auth@ == "signed in as "@
            + auth->NeedsOrganization_user.email@
            + "; finish organization setup to enable sync"@,
        scope == ProfileScope::Local && auth is SignedIn ==> r.auth@ == "signed in as "@
            + auth->SignedIn_user.email@ + "; sync is ready after restart"@,
        scope == ProfileScope::Synced && auth is SignedOut ==> r.auth@
            == "saved session is no longer valid — run `zeron login`"@,
        scope == ProfileScope::Synced && auth is NeedsOrganization ==> r.auth@ == "signed in as "@
            + auth->NeedsOrganization_user.email@
            + " but no organization selected — run `zeron login`"@,
        scope == ProfileScope::Synced && auth is SignedIn && auth->org_id is Some ==> r.auth@
            == "signed in as "@ + auth->SignedIn_user.email@ + (" (organization "@
            + auth->org_id->0@ + ")"@),
        scope == ProfileScope::Synced && auth is SignedIn && auth->org_id is None ==> r.auth@
            == "signed in as "@ + auth->SignedIn_user.email@,
{
    if auth is SignedIn {
        let email = "signed in as "@ + auth->SignedIn_user.email@;
        assert(email + Seq::<char>::empty() =~= email);
    }
}

/// A sign-in is run from a terminal, where there is something to sign in to and nobody is
/// signed in yet.
pub proof fn a_sign_in_needs_a_terminal(
    enabled: bool,
    state: &AuthState,
    terminal: bool,
    r: LoginStart,
)
    requires
        call_ensures(login_start, (enabled, state, terminal), r),
    ensures
        r is SignIn <==> enabled && !(state is SignedIn) && terminal,
        r is NeedsTerminal <==> enabled && !(state is SignedIn) && !terminal,
        !enabled ==> texts(r->Say_0@) == seq![
            "Auth is in dev mode (no WorkOS client id) — there is nothing to sign in to."@,
        ],
        enabled && state is SignedIn ==> {
            let lines = texts(r->Say_0@);
            let who = "Already signed in as "@ + state->SignedIn_user.email@;
            &&& lines.len() == 3
            &&& state->org_id is Some ==> lines[0] == who + (" (organization "@ + state->org_id->0@
                + ")"@) + "."@
            &&& state->org_id is None ==> lines[0] == who + "."@
            &&& lines[1] == "Run `zeron logout` first to switch accounts."@
            &&& lines[2] == "The next engine start will use the synced profile."@
        },
{
    if state is SignedIn {
        let who = "Already signed in as "@ + state->SignedIn_user.email@;
        assert(who + Seq::<char>::empty() =~= who);
    }
}

/// A sign-in says whom it signed in, and that it did not complete otherwise.
pub proof fn a_sign_in_says_whom(state: &AuthState, r: Vec<String>)
    requires
        call_ensures(login_report, (state,), r),
    ensures
        !(state is SignedIn) ==> texts(r@) == seq!["Sign-in did not complete."@],
        state is SignedIn ==> {
            let lines = texts(r@);
            let who = "\nSigned in as "@ + state->SignedIn_user.email@;
            &&& lines.len() == 2
            &&& state->org_id is Some ==> lines[0] == who + (" (organization "@ + state->org_id->0@
                + ")"@) + "."@
            &&& state->org_id is None ==> lines[0] == who + "."@
            &&& lines[1]
                == "Sync is ready. Start or restart Zeron to open the organization's synced data; existing local sessions will stay local."@
        },
{
    if state is SignedIn {
        let who = "\nSigned in as "@ + state->SignedIn_user.email@;
        assert(who + Seq::<char>::empty() =~= who);
    }
}

/// A sign-out succeeds where the session could be cleared, and says whose it was; a
/// failure says whose could not be.
pub proof fn a_sign_out_says_whose(
    enabled: bool,
    state: &AuthState,
    file: &str,
    signed_out: Result<(), EngineError>,
    r: Result<Vec<String>, EngineError>,
    email: Seq<char>,
)
    requires
        call_ensures(logout_report, (enabled, state, file, signed_out), r),
        state is SignedIn ==> email == state->SignedIn_user.email@,
        state is NeedsOrganization ==> email == state->NeedsOrganization_user.email@,
    ensures
        r is Ok <==> signed_out is Ok,
        r is Ok && !enabled ==> texts(r->Ok_0@) == seq![
            "Auth is in dev mode — cleared any stale saved session."@,
            "The next engine start will remain in development mode."@,
        ],
        r is Ok && enabled && state is SignedOut ==> texts(r->Ok_0@) == seq![
            "No valid saved session; cleared any stale session file."@,
            "The next engine start will use the local-only profile."@,
        ],
        r is Ok && enabled && !(state is SignedOut) ==> texts(r->Ok_0@) == seq![
            "Signed out "@ + email + " — removed "@ + file@ + "."@,
            "The next engine start will use the local-only profile."@,
        ],
        r is Err && !enabled ==> r->Err_0.text()
            == "could not durably clear the saved auth session: "@ + signed_out->Err_0.text(),
        r is Err && enabled && state is SignedOut ==> r->Err_0.text()
            == "could not durably clear the stale auth session: "@ + signed_out->Err_0.text(),
        r is Err && enabled && !(state is SignedOut) ==> r->Err_0.text()
            == "could not durably sign out "@ + email + ": "@ + signed_out->Err_0.text(),
{
}

/// The status names the directory, the edge, the mode, the account, the engine and the
/// port, in this order.
pub proof fn a_status_has_six_lines(
    data_dir: &str,
    edge: &str,
    account: &AccountStatus,
    pid: Option<u32>,
    listening: bool,
    port: u16,
    r: Vec<String>,
    pid_text: String,
    port_text: String,
)
    requires
        call_ensures(status_lines, (data_dir, edge, account, pid, listening, port), r),
        pid matches Some(p) ==> call_ensures(decimal, (p as u64,), pid_text),
        call_ensures(decimal, (port as u64,), port_text),
    ensures
        r@.len() == 6,
        r@[0]@ == "Data dir: "@ + data_dir@,
        r@[1]@ == "Edge:     "@ + edge@,
        r@[2]@ == "Mode:     "@ + account.mode@,
        r@[3]@ == "Auth:     "@ + account.auth@,
        pid is Some ==> r@[4]@ == "Engine:   running (pid "@ + pid_text@ + ")"@,
        pid is None ==> r@[4]@ == "Engine:   not running"@,
        listening ==> r@[5]@ == "IPC:      listening on 127.0.0.1:"@ + port_text@,
        !listening ==> r@[5]@ == "IPC:      not listening on 127.0.0.1:"@ + port_text@,
{
    let lines = texts(r@);
    assert(lines.len() == r@.len());
    assert(lines[0] == r@[0]@ && lines[1] == r@[1]@ && lines[2] == r@[2]@);
    assert(lines[3] == r@[3]@ && lines[4] == r@[4]@ && lines[5] == r@[5]@);
}

/// What runs counts before what would.
pub proof fn what_runs_is_reported(
    live: Option<ProfileScope>,
    next: ProfileScope,
    r: ProfileScope,
    verb: &str,
    cause: &str,
    locked: EngineError,
)
    requires
        call_ensures(reported_scope, (live, next), r),
        call_ensures(engine_lock_error, (verb, cause), locked),
    ensures
        live is Some ==> r == live->0,
        live is None ==> r == next,
        locked.text() == cause@ + "\nCannot "@ + verb@
            + " while an engine is running — stop it first (`zeron daemon stop`, or quit the Zeron app), or use the running UI instead."@,
{
}

} // verus!
