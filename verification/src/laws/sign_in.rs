//! Laws of signing in and out.

use vstd::prelude::*;
use vstd::utf8::encode_utf8;

use crate::auth::access::{AccessEntry, Clock, JwtClaims};
use crate::auth::service::{split_pasted, Auth, SignInCommit};
use crate::auth::session::{
    manifest_text, persist_active_session, persist_invalidation, persist_next, session_allowed,
    session_fenced, startup_session, ManifestRead, PersistStep, PersistedSessionState,
};
use crate::auth::sign_in::{has_state, is_live, live, without_state, Pending, SignInLifecycle};
use crate::auth::types::{
    error, error_then, session_is, user_eq, AuthConfig, AuthState, AuthUser, EngineError,
    SignInResult, StoredSession,
};
use crate::encoding::{percent_encoded, url_coding_round_trip, url_decode};
use crate::ids::{is_random_id, uuid_chars};
use crate::laws::text::repeated;
use crate::text::{before_first, decimal, find_from, find_from_is_first, is_blank, trim};

verus! {

/// A page address of a sign-in, in its parts: where it is, the client, where it sends the
/// browser back to, and the state.
pub open spec fn is_page(
    address: Seq<char>,
    base: Seq<char>,
    client: Seq<char>,
    redirect: Seq<char>,
    state: Seq<char>,
) -> bool {
    address == base + "/user_management/authorize?response_type=code&client_id="@ + client
        + "&redirect_uri="@ + redirect + "&provider=authkit&state="@ + state
}

proof fn a_redirect_decodes(text: Seq<char>, written: &str, decoded: String)
    requires
        written@ == percent_encoded(encode_utf8(text)),
        call_ensures(url_decode, (written,), decoded),
    ensures
        decoded@ == text,
{
    url_coding_round_trip(text);
}

/// A headless sign-in opens the page of the identity service with this client, and has
/// the browser sent to the edge's own page for pasted codes: the redirect, decoded, is
/// the configured edge address without the slashes at its end, and that page's path. It
/// does not depend on the identity service's address. The state is the text of a random
/// id, and is pending from now on.
pub proof fn a_headless_sign_in_ends_at_the_edge(
    auth: &mut Auth,
    now: u128,
    r: String,
    base: Seq<char>,
    slashes: nat,
    edge: Seq<char>,
    edge_slashes: nat,
    redirect: &str,
    decoded: String,
    client: &str,
    client_decoded: String,
    state: Seq<char>,
    other: Seq<char>,
)
    requires
        old(auth).workos is Some,
        other != state,
        call_ensures(Auth::start_headless_sign_in, (auth, now), r),
        old(auth).config.workos_api_base@ == base + repeated('/', slashes),
        base.len() > 0 ==> base.last() != '/',
        old(auth).config.edge_url@ == edge + repeated('/', edge_slashes),
        edge.len() > 0 ==> edge.last() != '/',
        redirect@ == percent_encoded(encode_utf8(edge + "/auth/cli/callback"@)),
        client@ == percent_encoded(encode_utf8(old(auth).workos->0@)),
        final(auth).sign_in.pending@.len() > 0,
        state == final(auth).sign_in.pending@.last().0@,
        call_ensures(url_decode, (redirect,), decoded),
        call_ensures(url_decode, (client,), client_decoded),
    ensures
        is_page(r@, base, client@, redirect@, state),
        decoded@ == edge + "/auth/cli/callback"@,
        client_decoded@ == old(auth).workos->0@,
        exists|id: u128| is_random_id(id) && state == #[trigger] uuid_chars(id),
        final(auth).sign_in.pending@.last().1 == now,
        *final(auth) == (Auth { sign_in: final(auth).sign_in, ..*old(auth) }),
        final(auth).sign_in.generation == old(auth).sign_in.generation,
        final(auth).sign_in.profile_transition_active == old(auth).sign_in.profile_transition_active,
        is_waiting(final(auth).sign_in.pending@, other, now) == is_waiting(
            old(auth).sign_in.pending@,
            other,
            now,
        ),
{
    other_states_stay(old(auth).sign_in.pending@, state, other, now);
    one_more_is_beside(
        without_state(live(old(auth).sign_in.pending@, now), state),
        final(auth).sign_in.pending@,
        other,
        now,
    );
    slashes_are_known(old(auth).config.workos_api_base@, base, slashes);
    slashes_are_known(old(auth).config.edge_url@, edge, edge_slashes);
    a_redirect_decodes(edge + "/auth/cli/callback"@, redirect, decoded);
    a_redirect_decodes(old(auth).workos->0@, client, client_decoded);
}

pub(crate) proof fn slashes_are_known(s: Seq<char>, base: Seq<char>, n: nat)
    requires
        s == base + repeated('/', n),
        base.len() > 0 ==> base.last() != '/',
    ensures
        crate::text::without_end_slashes(s) == base,
    decreases n,
{
    if n > 0 {
        let less = (n - 1) as nat;
        assert(s.last() == '/');
        assert(s.drop_last() =~= base + repeated('/', less));
        slashes_are_known(s.drop_last(), base, less);
    } else {
        assert(s =~= base);
    }
}

/// A headed sign-in has the browser sent back to this machine, to the port that the
/// callback server listens on.
pub proof fn a_headed_sign_in_ends_on_this_machine(
    auth: &mut Auth,
    port: u16,
    now: u128,
    r: String,
    base: Seq<char>,
    slashes: nat,
    port_text: String,
    redirect: &str,
    decoded: String,
    client: &str,
    state: Seq<char>,
    other: Seq<char>,
)
    requires
        old(auth).workos is Some,
        other != state,
        call_ensures(Auth::start_sign_in, (auth, port, now), r),
        call_ensures(decimal, (port as u64,), port_text),
        old(auth).config.workos_api_base@ == base + repeated('/', slashes),
        base.len() > 0 ==> base.last() != '/',
        redirect@ == percent_encoded(
            encode_utf8("http://127.0.0.1:"@ + port_text@ + "/callback"@),
        ),
        client@ == percent_encoded(encode_utf8(old(auth).workos->0@)),
        final(auth).sign_in.pending@.len() > 0,
        state == final(auth).sign_in.pending@.last().0@,
        call_ensures(url_decode, (redirect,), decoded),
    ensures
        is_page(r@, base, client@, redirect@, state),
        decoded@ == "http://127.0.0.1:"@ + port_text@ + "/callback"@,
        exists|id: u128| is_random_id(id) && state == #[trigger] uuid_chars(id),
        final(auth).sign_in.pending@.last().1 == now,
        *final(auth) == (Auth { sign_in: final(auth).sign_in, ..*old(auth) }),
        final(auth).sign_in.generation == old(auth).sign_in.generation,
        final(auth).sign_in.profile_transition_active == old(auth).sign_in.profile_transition_active,
        is_waiting(final(auth).sign_in.pending@, other, now) == is_waiting(
            old(auth).sign_in.pending@,
            other,
            now,
        ),
{
    other_states_stay(old(auth).sign_in.pending@, state, other, now);
    one_more_is_beside(
        without_state(live(old(auth).sign_in.pending@, now), state),
        final(auth).sign_in.pending@,
        other,
        now,
    );
    slashes_are_known(old(auth).config.workos_api_base@, base, slashes);
    a_redirect_decodes("http://127.0.0.1:"@ + port_text@ + "/callback"@, redirect, decoded);
}

/// In dev mode there is no page to open and nothing changes.
pub proof fn dev_mode_has_no_page(auth: &mut Auth, port: u16, now: u128, r: String)
    requires
        old(auth).workos is None,
        call_ensures(Auth::start_sign_in, (auth, port, now), r) || call_ensures(
            Auth::start_headless_sign_in,
            (auth, now),
            r,
        ),
    ensures
        r@.len() == 0,
        *final(auth) == *old(auth),
{
}

/// A sign-in with the state is pending, and began less than fifteen minutes ago.
pub open spec fn is_waiting(pending: Seq<Pending>, state: Seq<char>, now: u128) -> bool {
    exists|i: int|
        0 <= i < pending.len() && (#[trigger] pending[i]).0@ == state && (now < pending[i].1 || now
            - pending[i].1 < 900_000_000_000)
}

proof fn what_is_kept_was_there(pending: Seq<Pending>, keep: spec_fn(Pending) -> bool, i: int)
    requires
        0 <= i < pending.filter(keep).len(),
    ensures
        pending.contains(pending.filter(keep)[i]),
    decreases pending.len(),
{
    reveal(Seq::filter);
    if pending.len() > 0 {
        let less = pending.drop_last();
        if i < less.filter(keep).len() {
            what_is_kept_was_there(less, keep, i);
            let j = choose|j: int| 0 <= j < less.len() && less[j] == less.filter(keep)[i];
            assert(pending[j] == less[j]);
        } else {
            assert(pending[pending.len() - 1] == pending.filter(keep)[i]);
        }
    }
}

pub(crate) proof fn waiting_is_being_live(pending: Seq<Pending>, state: Seq<char>, now: u128)
    ensures
        has_state(live(pending, now), state) == is_waiting(pending, state, now),
{
    let keep = |p: Pending| is_live(p.1, now);
    pending.filter_lemma(keep);
    let kept = pending.filter(keep);
    if has_state(kept, state) {
        let i = choose|i: int| 0 <= i < kept.len() && (#[trigger] kept[i]).0@ == state;
        assert(keep(kept[i]));
        what_is_kept_was_there(pending, keep, i);
        let j = choose|j: int| 0 <= j < pending.len() && pending[j] == kept[i];
        assert(pending[j].0@ == state);
    }
    if is_waiting(pending, state, now) {
        let j = choose|j: int|
            0 <= j < pending.len() && (#[trigger] pending[j]).0@ == state && (now < pending[j].1
                || now - pending[j].1 < 900_000_000_000);
        assert(keep(pending[j]));
        assert(kept.contains(pending[j]));
        let i = choose|i: int| 0 <= i < kept.len() && kept[i] == pending[j];
        assert(kept[i].0@ == state);
    }
}

spec fn other_than(state: Seq<char>) -> spec_fn(Pending) -> bool {
    |p: Pending| p.0@ != state
}

pub(crate) proof fn other_states_stay(
    pending: Seq<Pending>,
    state: Seq<char>,
    other: Seq<char>,
    now: u128,
)
    requires
        other != state,
    ensures
        is_waiting(without_state(live(pending, now), state), other, now) == is_waiting(
            pending,
            other,
            now,
        ),
        !is_waiting(without_state(live(pending, now), state), state, now),
{
    let keep = |p: Pending| is_live(p.1, now);
    let rest = other_than(state);
    let alive = pending.filter(keep);
    pending.filter_lemma(keep);
    alive.filter_lemma(rest);
    let left = alive.filter(rest);
    assert(alive == live(pending, now));
    assert(left == without_state(alive, state));
    if is_waiting(left, other, now) {
        let i = choose|i: int|
            0 <= i < left.len() && (#[trigger] left[i]).0@ == other && (now < left[i].1 || now
                - left[i].1 < 900_000_000_000);
        what_is_kept_was_there(alive, rest, i);
        let k = choose|k: int| 0 <= k < alive.len() && alive[k] == left[i];
        what_is_kept_was_there(pending, keep, k);
        let j = choose|j: int| 0 <= j < pending.len() && pending[j] == alive[k];
        assert(keep(alive[k]));
        assert(pending[j].0@ == other);
    }
    if is_waiting(pending, other, now) {
        let j = choose|j: int|
            0 <= j < pending.len() && (#[trigger] pending[j]).0@ == other && (now < pending[j].1
                || now - pending[j].1 < 900_000_000_000);
        assert(keep(pending[j]));
        assert(alive.contains(pending[j]));
        let k = choose|k: int| 0 <= k < alive.len() && alive[k] == pending[j];
        assert(rest(alive[k]));
        assert(left.contains(alive[k]));
        let i = choose|i: int| 0 <= i < left.len() && left[i] == alive[k];
        assert(left[i].0@ == other);
    }
    if is_waiting(left, state, now) {
        let i = choose|i: int|
            0 <= i < left.len() && (#[trigger] left[i]).0@ == state && (now < left[i].1 || now
                - left[i].1 < 900_000_000_000);
        assert(rest(left[i]));
    }
}

/// A state is good once, for fifteen minutes, and for the generation that it is taken
/// in. Taking it leaves every other pending state as it was.
pub proof fn a_state_is_good_once(
    auth: &mut Auth,
    state: &str,
    now: u128,
    r: Option<u64>,
    other: Seq<char>,
)
    requires
        call_ensures(Auth::take_pending, (auth, state, now), r),
        other != state@,
    ensures
        r is Some == is_waiting(old(auth).sign_in.pending@, state@, now),
        r is Some ==> r->0 == old(auth).sign_in.generation,
        !is_waiting(final(auth).sign_in.pending@, state@, now),
        is_waiting(final(auth).sign_in.pending@, other, now) == is_waiting(
            old(auth).sign_in.pending@,
            other,
            now,
        ),
        final(auth).sign_in.generation == old(auth).sign_in.generation,
        final(auth).state == old(auth).state && final(auth).stored == old(auth).stored
            && final(auth).access == old(auth).access,
{
    waiting_is_being_live(old(auth).sign_in.pending@, state@, now);
    other_states_stay(old(auth).sign_in.pending@, state@, other, now);
}

proof fn one_more_is_beside(before: Seq<Pending>, after: Seq<Pending>, other: Seq<char>, now: u128)
    requires
        after.len() > 0,
        after.drop_last() == before,
        after.last().0@ != other,
    ensures
        is_waiting(after, other, now) == is_waiting(before, other, now),
{
    if is_waiting(after, other, now) {
        let i = choose|i: int|
            0 <= i < after.len() && (#[trigger] after[i]).0@ == other && (now < after[i].1 || now
                - after[i].1 < 900_000_000_000);
        assert(before[i] == after[i]);
    }
    if is_waiting(before, other, now) {
        let i = choose|i: int|
            0 <= i < before.len() && (#[trigger] before[i]).0@ == other && (now < before[i].1 || now
                - before[i].1 < 900_000_000_000);
        assert(after[i] == before[i]);
    }
}

/// A sign-in that begins is pending, beside those that were, and its page carries its state
/// and sends the browser where it was told.
pub proof fn a_begun_sign_in_is_waiting(
    auth: &mut Auth,
    redirect: &str,
    state: String,
    now: u128,
    later: u128,
    r: String,
    other: Seq<char>,
    base: Seq<char>,
    slashes: nat,
    client: Seq<char>,
    back: Seq<char>,
)
    requires
        call_ensures(Auth::begin_sign_in, (auth, redirect, state, now), r),
        other != state@,
        now <= later < now + 900_000_000_000,
        old(auth).workos is Some,
        old(auth).config.workos_api_base@ == base + repeated('/', slashes),
        base.len() > 0 ==> base.last() != '/',
        client == percent_encoded(encode_utf8(old(auth).workos->0@)),
        back == percent_encoded(encode_utf8(redirect@)),
    ensures
        is_page(r@, base, client, back, state@),
        *final(auth) == (Auth { sign_in: final(auth).sign_in, ..*old(auth) }),
        final(auth).sign_in.profile_transition_active == old(auth).sign_in.profile_transition_active,
        is_waiting(final(auth).sign_in.pending@, state@, later),
        is_waiting(final(auth).sign_in.pending@, other, now) == is_waiting(
            old(auth).sign_in.pending@,
            other,
            now,
        ),
        final(auth).sign_in.generation == old(auth).sign_in.generation,
        final(auth).state == old(auth).state,
{
    let before = without_state(live(old(auth).sign_in.pending@, now), state@);
    let after = final(auth).sign_in.pending@;
    assert(after[before.len() as int] == (state, now));
    assert(after.drop_last() =~= before);
    other_states_stay(old(auth).sign_in.pending@, state@, other, now);
    one_more_is_beside(before, after, other, now);
    slashes_are_known(old(auth).config.workos_api_base@, base, slashes);
}

/// A pasted code is state, dot, code, with white space around it or not. It is accepted
/// exactly where the state names a pending sign-in, and what is exchanged is the code
/// behind the first dot.
pub proof fn a_pasted_code_is_state_and_code(
    auth: &mut Auth,
    pasted: &str,
    now: u128,
    r: Result<Option<(String, u64)>, EngineError>,
    text: String,
    state: Seq<char>,
    code: Seq<char>,
)
    requires
        old(auth).workos is Some,
        call_ensures(Auth::complete_sign_in, (auth, pasted, now), r),
        call_ensures(trim, (pasted,), text),
        text@ == state + seq!['.'] + code,
        !state.contains('.'),
        state.len() > 0 && code.len() > 0,
    ensures
        is_waiting(old(auth).sign_in.pending@, state, now) ==> r is Ok && r->Ok_0 is Some && (
        r->Ok_0->0).0@ == code && (r->Ok_0->0).1 == old(auth).sign_in.generation,
        !is_waiting(old(auth).sign_in.pending@, state, now) ==> r is Err && r->Err_0.text()
            == "invalid or expired sign-in code — start sign-in again and paste the full code"@,
        !is_waiting(final(auth).sign_in.pending@, state, now),
        final(auth).state == old(auth).state && final(auth).stored == old(auth).stored,
{
    find_from_is_first(text@, '.', 0);
    let at = find_from(text@, '.', 0);
    let n = state.len() as int;
    assert(text@[n] == '.');
    assert(at == n) by {
        if at < n {
            assert(text@[at] == state[at]);
            assert(state.contains('.'));
        }
    }
    assert(text@.take(at) =~= state);
    assert(text@.skip(at + 1) =~= code);
    assert(text@.contains('.'));
    waiting_is_being_live(old(auth).sign_in.pending@, state, now);
    other_states_stay(old(auth).sign_in.pending@, state, state.push('x'), now);
    assert(state.push('x').len() != state.len());
}

/// What is not state, dot, code is refused, and nothing changes.
pub proof fn anything_else_pasted_is_refused(
    auth: &mut Auth,
    pasted: &str,
    now: u128,
    r: Result<Option<(String, u64)>, EngineError>,
    text: String,
)
    requires
        old(auth).workos is Some,
        call_ensures(Auth::complete_sign_in, (auth, pasted, now), r),
        call_ensures(trim, (pasted,), text),
        !text@.contains('.') || text@[0] == '.' || (forall|i: int|
            0 <= i < text@.len() - 1 ==> #[trigger] text@[i] != '.'),
    ensures
        r is Err && r->Err_0.text()
            == "invalid or expired sign-in code — start sign-in again and paste the full code"@,
        *final(auth) == *old(auth),
{
    if text@.contains('.') {
        find_from_is_first(text@, '.', 0);
        let at = find_from(text@, '.', 0);
        let k = choose|k: int| 0 <= k < text@.len() && text@[k] == '.';
        assert(at <= k);
    }
}

/// A finished exchange gives the session of its user, scoped as its token claims.
pub proof fn an_exchange_gives_its_own_session(
    auth: &Auth,
    result: SignInResult,
    claims: Option<JwtClaims>,
    generation: u64,
    now: Clock,
    r: Result<SignInCommit, EngineError>,
    entry: AccessEntry,
)
    requires
        call_ensures(Auth::prepare_sign_in, (auth, result, claims, generation, now), r),
        call_ensures(AccessEntry::fresh, (result.access_token, &claims, now), entry),
    ensures
        r is Ok == (auth.sign_in.generation == generation
            && !auth.sign_in.profile_transition_active),
        r is Err ==> r->Err_0.text() == "sign-in was canceled — start again from Zeron"@,
        r is Ok ==> {
            let session = r->Ok_0.session;
            &&& session.refresh_token == result.refresh_token
            &&& session.user == result.user
            &&& claims is Some ==> session.org_id == claims->0.org_id
            &&& claims is None ==> session.org_id is None
            &&& r->Ok_0.access.token == result.access_token
            &&& r->Ok_0.access.ttl == entry.ttl
            &&& r->Ok_0.access.got == now
        },
{
}

/// Nothing of an account is left: no session, no token, no pending sign-in, and no
/// exchange under way may still be committed.
pub open spec fn is_out(before: Auth, after: Auth) -> bool {
    &&& after.state is SignedOut
    &&& after.stored is None
    &&& after.access is None
    &&& after.sign_in.pending@.len() == 0
    &&& after.sign_in.generation != before.sign_in.generation
    &&& after.sign_in.profile_transition_active == before.sign_in.profile_transition_active
    &&& after.token_epoch != before.token_epoch
    &&& after.config == before.config && after.workos == before.workos
    &&& after.loaded_workos_session == before.loaded_workos_session
}

/// A sign-in whose session was published is the account from then on; one that could not
/// be published leaves nobody signed in. The bearer counts as changed either way.
pub proof fn a_published_sign_in_is_the_account(
    auth: &mut Auth,
    commit: SignInCommit,
    published: Result<(), EngineError>,
    r: Result<(), EngineError>,
)
    requires
        call_ensures(Auth::finish_sign_in, (auth, commit, published), r),
    ensures
        r == published,
        published is Err ==> is_out(*old(auth), *final(auth)),
        published is Ok ==> {
            &&& final(auth).stored == Some(commit.session)
            &&& final(auth).access == Some(commit.access)
            &&& commit.session.org_id is Some ==> (final(auth).state is SignedIn
                && final(auth).state->SignedIn_user == commit.session.user
                && final(auth).state->org_id == commit.session.org_id)
            &&& commit.session.org_id is None ==> (final(auth).state is NeedsOrganization
                && final(auth).state->NeedsOrganization_user == commit.session.user)
            &&& final(auth).token_epoch != old(auth).token_epoch
            &&& final(auth).config == old(auth).config && final(auth).workos == old(auth).workos
            &&& final(auth).sign_in == old(auth).sign_in
        },
{
}

/// Signing out takes effect exactly when the session on disk could be fenced off.
pub proof fn a_sign_out_needs_its_fence(
    auth: &mut Auth,
    invalidated: Result<(), EngineError>,
    r: Result<(), EngineError>,
)
    requires
        call_ensures(Auth::sign_out, (auth, invalidated), r),
    ensures
        r == invalidated,
        invalidated is Ok ==> is_out(*old(auth), *final(auth)),
        invalidated is Err ==> *final(auth) == *old(auth),
{
}

/// Two sessions are one: the same refresh token, user and organization.
pub open spec fn is_one(a: StoredSession, b: StoredSession) -> bool {
    &&& a.refresh_token@ == b.refresh_token@
    &&& a.user.id@ == b.user.id@ && a.user.email@ == b.user.email@
    &&& a.user.name is Some == b.user.name is Some
    &&& a.user.name is Some ==> a.user.name->0@ == b.user.name->0@
    &&& a.org_id is Some == b.org_id is Some
    &&& a.org_id is Some ==> a.org_id->0@ == b.org_id->0@
}

/// A session that was withdrawn signs the account out only while it is still the stored
/// one: a sign-in that came meanwhile is never erased.
pub proof fn a_newer_session_is_never_erased(auth: &mut Auth, prior: &StoredSession)
    requires
        call_ensures(Auth::finish_invalidated_prior, (auth, prior), ()),
    ensures
        old(auth).stored is Some && is_one(old(auth).stored->0, *prior) ==> is_out(
            *old(auth),
            *final(auth),
        ),
        !(old(auth).stored is Some && is_one(old(auth).stored->0, *prior)) ==> *final(auth)
            == *old(auth),
{
}

/// A session is held exactly where it is the one that is stored.
pub proof fn a_held_session_is_the_stored_one(auth: &Auth, prior: &StoredSession, r: bool)
    requires
        call_ensures(Auth::holds, (auth, prior), r),
    ensures
        r == (auth.stored is Some && is_one(auth.stored->0, *prior)),
{
}

/// A profile change refuses every sign-in that began before it or during it.
pub proof fn a_profile_change_refuses_other_sign_ins(
    before: Auth,
    auth: &mut Auth,
    later: &mut Auth,
    result: SignInResult,
    claims: Option<JwtClaims>,
    now: Clock,
    during: Result<SignInCommit, EngineError>,
    after: Result<SignInCommit, EngineError>,
    generation: u64,
)
    requires
        call_ensures(Auth::begin_profile_transition, (auth,), ()),
        *old(later) == *final(auth),
        call_ensures(Auth::end_profile_transition, (later,), ()),
        generation == old(auth).sign_in.generation || generation == final(auth).sign_in.generation,
        call_ensures(
            Auth::prepare_sign_in,
            (&*final(auth), result, claims, generation, now),
            during,
        ),
        call_ensures(
            Auth::prepare_sign_in,
            (&*final(later), result, claims, generation, now),
            after,
        ),
    ensures
        during is Err && after is Err,
        final(later).sign_in.pending@.len() == 0 && !final(later).sign_in.profile_transition_active,
        final(later).stored == old(auth).stored && final(later).state == old(auth).state
            && final(later).access == old(auth).access,
{
}

/// What a device starts as: dev mode signs its configured user in; otherwise the account
/// is that of the session on disk, where its manifest lets it count, and nobody's where
/// there is none. Nothing is pending, and there is no token yet.
pub proof fn a_start_trusts_the_manifest(
    config: AuthConfig,
    manifest: ManifestRead,
    session: Option<StoredSession>,
    r: Auth,
    counts: bool,
    client: &str,
    unset: bool,
)
    requires
        call_ensures(Auth::new, (config, &manifest, session), r),
        config.workos_client_id is Some ==> client@ == config.workos_client_id->0@,
        call_ensures(is_blank, (client,), unset),
        counts == (manifest is Missing || (manifest matches ManifestRead::Read(Some(m)) && m.state
            == PersistedSessionState::Active && m.version == 1)),
    ensures
        r.config == config && r.access is None && r.sign_in.pending@.len() == 0
            && !r.sign_in.profile_transition_active,
        r.workos is Some <==> config.workos_client_id is Some && !unset,
        r.workos is Some ==> r.workos == config.workos_client_id,
        r.token_epoch == 0 && r.sign_in.generation == 0,
        r.workos is None ==> r.stored is None && r.state is SignedIn
            && r.state->SignedIn_user.id@ == config.dev_user_id@ && r.state->SignedIn_user.email@
            == config.dev_user_id@ && r.state->SignedIn_user.name is None && r.state->org_id
            is None,
        r.workos is Some ==> {
            &&& r.stored == (if counts {
                session
            } else {
                None
            })
            &&& r.stored is None ==> r.state is SignedOut
            &&& r.stored is Some && r.stored->0.org_id is Some ==> (r.state is SignedIn
                && r.state->SignedIn_user == r.stored->0.user && r.state->org_id
                == r.stored->0.org_id)
            &&& r.stored is Some && r.stored->0.org_id is None ==> (r.state is NeedsOrganization
                && r.state->NeedsOrganization_user == r.stored->0.user)
        },
        r.loaded_workos_session == r.stored is Some,
{
}

/// A session file counts without a manifest, or beside an active one of version 1, and
/// beside nothing else; a fence is a signed-out manifest of version 1. The two never
/// hold together.
pub proof fn a_manifest_allows_or_fences(
    manifest: ManifestRead,
    allowed: bool,
    fenced: bool,
    session: Option<StoredSession>,
    loaded: Option<StoredSession>,
    dev: Option<StoredSession>,
)
    requires
        call_ensures(session_allowed, (&manifest,), allowed),
        call_ensures(session_fenced, (&manifest,), fenced),
        call_ensures(startup_session, (true, &manifest, session), loaded),
        call_ensures(startup_session, (false, &manifest, session), dev),
    ensures
        manifest is Missing ==> allowed && !fenced,
        manifest is Unreadable ==> !allowed && !fenced,
        manifest matches ManifestRead::Read(m) ==> {
            &&& allowed <==> m is Some && m->0.state == PersistedSessionState::Active && m->0.version
                == 1
            &&& fenced <==> m is Some && m->0.state == PersistedSessionState::SignedOut
                && m->0.version == 1
        },
        !(allowed && fenced),
        allowed ==> loaded == session,
        !allowed ==> loaded is None,
        dev is None,
{
}

/// The user is the signed-in one, with an organization or without. In dev mode it is the
/// configured one, up to the first at sign.
pub proof fn the_user_is_the_signed_in_one(
    auth: &Auth,
    r: Option<String>,
    configured: &str,
    dev: String,
    state: AuthState,
    enabled: bool,
    loaded: bool,
)
    requires
        call_ensures(Auth::user_id, (auth,), r),
        configured@ == auth.config.dev_user_id@,
        call_ensures(before_first, (configured, '@'), dev),
        call_ensures(Auth::state, (auth,), state),
        call_ensures(Auth::workos_enabled, (auth,), enabled),
        call_ensures(Auth::loaded_workos_session, (auth,), loaded),
    ensures
        auth.workos is None ==> r is Some && r->0@ == dev@,
        auth.workos is Some && auth.state is SignedIn ==> r is Some && r->0@
            == auth.state->SignedIn_user.id@,
        auth.workos is Some && auth.state is NeedsOrganization ==> r is Some && r->0@
            == auth.state->NeedsOrganization_user.id@,
        auth.workos is Some && auth.state is SignedOut ==> r is None,
        state == auth.state,
        enabled <==> auth.workos is Some,
        loaded == auth.loaded_workos_session,
{
}

/// A session is published in three writes: the fence, the session, the manifest that lets
/// it count. Each is made only where the one before it succeeded, and what failed is
/// reported by its own name; what has ended stays ended.
pub proof fn a_session_is_published_behind_its_fence(
    serialized: Result<(), String>,
    first: PersistStep,
    outcome: Result<(), String>,
    fenced: PersistStep,
    written: PersistStep,
    published: PersistStep,
    over: PersistStep,
    ended: PersistStep,
)
    requires
        call_ensures(persist_active_session, (serialized,), first),
        call_ensures(persist_next, (PersistStep::Fence, outcome), fenced),
        call_ensures(persist_next, (PersistStep::Credentials, outcome), written),
        call_ensures(persist_next, (PersistStep::Publish, outcome), published),
        over is Done || over is Failed,
        call_ensures(persist_next, (over, outcome), ended),
    ensures
        serialized is Ok ==> first is Fence,
        serialized is Err ==> first is Failed && first->Failed_0.text()
            == "could not serialize auth session: "@ + serialized->Err_0@,
        outcome is Ok ==> fenced is Credentials && written is Publish && published is Done,
        outcome is Err ==> {
            &&& fenced is Failed && fenced->Failed_0.text()
                == "could not durably fence auth session before update: "@ + outcome->Err_0@
            &&& written is Failed && written->Failed_0.text()
                == "could not durably persist auth session: "@ + outcome->Err_0@
            &&& published is Failed && published->Failed_0.text()
                == "auth session was written but could not be durably published: "@
                + outcome->Err_0@
        },
        ended == over,
{
}

/// The fence is a signed-out manifest and the last write an active one; the session itself
/// goes into no manifest. An invalidation succeeds exactly where its fence does.
pub proof fn a_fence_says_signed_out(
    step: &PersistStep,
    r: Option<&'static str>,
    fence: Result<(), String>,
    invalidated: Result<(), EngineError>,
)
    requires
        call_ensures(manifest_text, (step,), r),
        call_ensures(persist_invalidation, (fence,), invalidated),
    ensures
        step is Fence ==> r is Some && r->0@ == "{\"state\":\"signedOut\",\"version\":1}"@,
        step is Publish ==> r is Some && r->0@ == "{\"state\":\"active\",\"version\":1}"@,
        !(step is Fence || step is Publish) ==> r is None,
        invalidated is Ok <==> fence is Ok,
        invalidated is Err ==> invalidated->Err_0.text()
            == "could not durably invalidate auth session: "@ + fence->Err_0@,
{
}

/// A state that was handed out can be used once, within fifteen minutes, for the
/// generation of that moment; another state is not touched by it.
pub proof fn a_state_is_used_once(
    new: SignInLifecycle,
    lifecycle: &mut SignInLifecycle,
    state: String,
    same: &str,
    began: u128,
    now: u128,
    taking: &mut SignInLifecycle,
    r: Option<u64>,
    retrying: &mut SignInLifecycle,
    again: Option<u64>,
    later: u128,
)
    requires
        call_ensures(SignInLifecycle::new, (), new),
        call_ensures(SignInLifecycle::begin, (lifecycle, state, began), ()),
        same@ == state@,
        began <= now,
        *old(taking) == *final(lifecycle),
        call_ensures(SignInLifecycle::take_pending, (taking, same, now), r),
        *old(retrying) == *final(taking),
        call_ensures(SignInLifecycle::take_pending, (retrying, same, later), again),
    ensures
        new.generation == 0 && new.pending@.len() == 0 && !new.profile_transition_active,
        r is Some <==> now - began < 900_000_000_000,
        r is Some ==> r->0 == old(lifecycle).generation,
        again is None,
        final(taking).generation == old(lifecycle).generation,
        final(taking).profile_transition_active == old(lifecycle).profile_transition_active,
{
    let kept = without_state(live(old(lifecycle).pending@, began), state@);
    let all = kept.push((state, began));
    assert(final(lifecycle).pending@ == all);
    let keep = |p: Pending| is_live(p.1, now);
    assert(all.last() == (state, began));
    if now - began < 900_000_000_000 {
        kept_is_known(all, keep, all.len() - 1);
        let i = choose|i: int| 0 <= i < live(all, now).len() && live(all, now)[i] == (state, began);
        assert(live(all, now)[i].0@ == same@);
        assert(has_state(live(all, now), same@));
    } else {
        assert(!has_state(live(all, now), same@)) by {
            if has_state(live(all, now), same@) {
                let i = choose|i: int|
                    0 <= i < live(all, now).len() && (#[trigger] live(all, now)[i]).0@ == same@;
                crate::auth::sign_in::an_expired_state_is_not_live(all, now);
                what_is_kept_was_there(all, keep, i);
                let j = choose|j: int| 0 <= j < all.len() && all[j] == live(all, now)[i];
                if j < kept.len() {
                    what_is_kept_passes(
                        live(old(lifecycle).pending@, began),
                        |p: Pending| p.0@ != state@,
                        j,
                    );
                }
            }
        }
    }
    crate::auth::sign_in::a_taken_state_is_gone(*old(taking), same, now, *final(taking));
    let rest = final(taking).pending@;
    assert(!has_state(live(rest, later), same@)) by {
        if has_state(live(rest, later), same@) {
            let i = choose|i: int|
                0 <= i < live(rest, later).len() && (#[trigger] live(rest, later)[i]).0@ == same@;
            what_is_kept_was_there(rest, |p: Pending| is_live(p.1, later), i);
            let j = choose|j: int| 0 <= j < rest.len() && rest[j] == live(rest, later)[i];
            assert(rest[j].0@ == same@);
        }
    }
}

proof fn kept_is_known(all: Seq<Pending>, keep: spec_fn(Pending) -> bool, at: int)
    requires
        0 <= at < all.len(),
        keep(all[at]),
    ensures
        exists|i: int| 0 <= i < all.filter(keep).len() && all.filter(keep)[i] == all[at],
    decreases all.len(),
{
    reveal(Seq::filter);
    let rest = all.drop_last();
    if at < rest.len() {
        kept_is_known(rest, keep, at);
        let i = choose|i: int| 0 <= i < rest.filter(keep).len() && rest.filter(keep)[i] == rest[at];
        assert(all.filter(keep)[i] == all[at]);
    } else {
        assert(all.filter(keep)[rest.filter(keep).len() as int] == all[at]);
    }
}

proof fn what_is_kept_passes(all: Seq<Pending>, keep: spec_fn(Pending) -> bool, i: int)
    requires
        0 <= i < all.filter(keep).len(),
    ensures
        keep(all.filter(keep)[i]),
    decreases all.len(),
{
    reveal(Seq::filter);
    let rest = all.drop_last();
    if i < rest.filter(keep).len() {
        what_is_kept_passes(rest, keep, i);
        assert(all.filter(keep)[i] == rest.filter(keep)[i]);
    }
}

/// A cancellation ends what is pending and what is under way, and so do the beginning and
/// the end of a change of profile; while it lasts nothing may finish.
pub proof fn a_cancellation_ends_everything(
    canceling: &mut SignInLifecycle,
    beginning: &mut SignInLifecycle,
    ending: &mut SignInLifecycle,
    generation: u64,
    before: bool,
    canceled: bool,
    during: bool,
    after: bool,
)
    requires
        call_ensures(SignInLifecycle::admits_generation, (&*old(canceling), generation), before),
        call_ensures(SignInLifecycle::cancel, (canceling,), ()),
        call_ensures(
            SignInLifecycle::admits_generation,
            (&*final(canceling), old(canceling).generation),
            canceled,
        ),
        call_ensures(SignInLifecycle::begin_profile_transition, (beginning,), ()),
        call_ensures(SignInLifecycle::admits_generation, (&*final(beginning), generation), during),
        *old(ending) == *final(beginning),
        call_ensures(SignInLifecycle::end_profile_transition, (ending,), ()),
        call_ensures(
            SignInLifecycle::admits_generation,
            (&*final(ending), final(ending).generation),
            after,
        ),
    ensures
        before == (generation == old(canceling).generation && !old(canceling).profile_transition_active),
        !canceled && !during && after,
        final(canceling).pending@.len() == 0 && final(beginning).pending@.len() == 0 && final(ending).pending@.len() == 0,
        final(canceling).profile_transition_active == old(canceling).profile_transition_active,
        final(beginning).profile_transition_active && !final(ending).profile_transition_active,
        final(beginning).generation != old(beginning).generation,
        final(ending).generation != final(beginning).generation && final(ending).generation != old(beginning).generation,
{
}

/// Whoever is signed out has no session, no token and no pending sign-in, and what was
/// under way with them is void; how the account is set up stays.
pub proof fn a_sign_out_leaves_nothing(auth: &mut Auth)
    requires
        call_ensures(Auth::finish_signed_out, (auth,), ()),
    ensures
        final(auth).state == AuthState::SignedOut,
        final(auth).stored is None && final(auth).access is None,
        final(auth).sign_in.pending@.len() == 0,
        final(auth).sign_in.generation != old(auth).sign_in.generation,
        final(auth).token_epoch != old(auth).token_epoch,
        final(auth).config == old(auth).config && final(auth).workos == old(auth).workos,
        final(auth).loaded_workos_session == old(auth).loaded_workos_session,
{
}

/// A pasted code is a state and a code with a dot between them, once the white space round
/// it is gone; the state holds no dot, and neither is empty.
pub proof fn a_pasted_code_has_two_halves(
    pasted: &str,
    r: Option<(String, String)>,
    text: String,
    state: Seq<char>,
    code: Seq<char>,
)
    requires
        call_ensures(split_pasted, (pasted,), r),
        call_ensures(trim, (pasted,), text),
    ensures
        r matches Some((a, b)) ==> a@.len() > 0 && b@.len() > 0 && !a@.contains('.') && text@ == a@
            + seq!['.'] + b@,
        state.len() > 0 && code.len() > 0 && !state.contains('.') && text@ == state + seq!['.']
            + code ==> r is Some && (r->0).0@ == state && (r->0).1@ == code,
{
    find_from_is_first(text@, '.', 0);
    let at = find_from(text@, '.', 0);
    if let Some((a, b)) = r {
        assert(at < text@.len()) by {
            let i = choose|i: int| 0 <= i < text@.len() && text@[i] == '.';
        }
        assert(text@ =~= a@ + seq!['.'] + b@);
    }
    if state.len() > 0 && code.len() > 0 && !state.contains('.') && text@ == state + seq!['.']
        + code {
        assert(text@[state.len() as int] == '.');
        assert(text@.contains('.'));
        assert(at == state.len()) by {
            if at < state.len() {
                assert(text@[at] == state[at]);
                assert(state.contains('.'));
            }
        }
        assert(crate::text::before(text@, '.') =~= state);
        assert(crate::text::after(text@, '.') =~= code);
    }
}

/// Two users are the same where their ids, addresses and names are, and a stored session
/// is the one that was seen where its token, user and organization are.
pub proof fn a_session_is_known_by_all_it_holds(
    a: &AuthUser,
    b: &AuthUser,
    r: bool,
    stored: Option<StoredSession>,
    prior: &StoredSession,
    held: bool,
    user: bool,
)
    requires
        call_ensures(user_eq, (a, b), r),
        call_ensures(session_is, (&stored, prior), held),
        stored is Some ==> call_ensures(user_eq, (&stored->0.user, &prior.user), user),
    ensures
        ({
            let names = (a.name is Some) == (b.name is Some) && (a.name is Some ==> a.name->0@
                == b.name->0@);
            &&& r <==> a.id@ == b.id@ && a.email@ == b.email@ && names
        }),
        stored is None ==> !held,
        stored matches Some(s) ==> ({
            let orgs = (s.org_id is Some) == (prior.org_id is Some) && (s.org_id is Some
                ==> s.org_id->0@ == prior.org_id->0@);
            held <==> s.refresh_token@ == prior.refresh_token@ && user && orgs
        }),
{
}

/// A failure says what it was made with, and what was put behind it.
pub proof fn a_failure_says_its_message(
    message: &str,
    r: EngineError,
    said: &str,
    more: &str,
    longer: EngineError,
    all: &str,
)
    requires
        call_ensures(error, (message,), r),
        call_ensures(EngineError::message, (&r,), said),
        call_ensures(error_then, (&r, more), longer),
        call_ensures(EngineError::message, (&longer,), all),
    ensures
        said@ == message@,
        all@ == message@ + more@,
{
}

} // verus!
