//! Laws of access tokens.

use vstd::prelude::*;

use crate::auth::access::{
    background_wait, jwt_payload, AccessEntry, Clock, JwtClaims,
};
use crate::auth::service::{Auth, RefreshLoopAction, TokenSourcing};
use crate::encoding::base64url_decode;
use crate::laws::text::pieces_rejoin;
use crate::text::{find_from, find_from_is_first, pieces};

verus! {

/// Every reading of a clock takes away from the life of a token what that clock has
/// moved since: the life left is the lifetime less whichever clock moved more, and
/// nothing once that is used up.
pub proof fn the_faster_clock_ages_a_token(entry: AccessEntry, now: Clock, r: u128)
    requires
        call_ensures(AccessEntry::remaining, (&entry, &now), r),
    ensures
        r <= entry.ttl,
        now.monotonic >= entry.got.monotonic ==> r == 0 || r + (now.monotonic
            - entry.got.monotonic) <= entry.ttl,
        now.wall >= entry.got.wall ==> r == 0 || r + (now.wall - entry.got.wall) <= entry.ttl,
        now.monotonic <= entry.got.monotonic && now.wall <= entry.got.wall ==> r == entry.ttl,
        r < entry.ttl ==> (now.monotonic > entry.got.monotonic && r + (now.monotonic
            - entry.got.monotonic) >= entry.ttl) || (now.wall > entry.got.wall && r + (now.wall
            - entry.got.wall) >= entry.ttl),
{
}

/// A token may be presented exactly while more than thirty seconds of its life are left.
pub proof fn a_token_is_dropped_half_a_minute_early(entry: AccessEntry, now: Clock, r: bool, left: u128)
    requires
        call_ensures(AccessEntry::is_usable, (&entry, &now), r),
        call_ensures(AccessEntry::remaining, (&entry, &now), left),
    ensures
        r == (left > 30_000_000_000),
{
}

/// A token lives from its issue to its expiry, in seconds, where its claims say both in
/// that order, and four minutes otherwise.
pub proof fn a_token_lives_as_it_claims(
    token: String,
    claims: Option<JwtClaims>,
    now: Clock,
    r: AccessEntry,
)
    requires
        call_ensures(AccessEntry::fresh, (token, &claims, now), r),
    ensures
        r.token == token && r.got == now,
        claims is Some && claims->0.exp is Some && claims->0.iat is Some && claims->0.exp->0
            > claims->0.iat->0 ==> r.ttl == (claims->0.exp->0 - claims->0.iat->0) * 1_000_000_000,
        !(claims is Some && claims->0.exp is Some && claims->0.iat is Some && claims->0.exp->0
            > claims->0.iat->0) ==> r.ttl == 240_000_000_000,
{
}

/// The background refresh never sleeps past the point where a minute of the token's life
/// is left: it refreshes at once where that is all, or where there is no token, and
/// otherwise sleeps some of the time until then, and at most a minute.
pub proof fn a_refresh_comes_a_minute_early(
    access: Option<AccessEntry>,
    now: Clock,
    r: u128,
    left: u128,
)
    requires
        call_ensures(background_wait, (&access, &now), r),
        access matches Some(entry) ==> call_ensures(AccessEntry::remaining, (&entry, &now), left),
        access is None ==> left == 0,
    ensures
        r == 0 || r + 60_000_000_000 <= left,
        left <= 60_000_000_000 ==> r == 0,
        left > 60_000_000_000 ==> r > 0,
        r <= 60_000_000_000,
        r == 0 || r == 60_000_000_000 || r + 60_000_000_000 == left,
{
}

/// The background refresh has nothing to do in dev mode, waits for a sign-in while
/// there is none, and otherwise refreshes exactly when at most a minute of the token's
/// life is left; it never sleeps past that point, nor longer than a minute.
pub proof fn the_refresh_loop_keeps_a_token_alive(
    auth: &Auth,
    now: Clock,
    r: RefreshLoopAction,
    left: u128,
)
    requires
        call_ensures(Auth::next_refresh, (auth, &now), r),
        auth.access matches Some(entry) ==> call_ensures(
            AccessEntry::remaining,
            (&entry, &now),
            left,
        ),
        auth.access is None ==> left == 0,
    ensures
        auth.workos is None <==> r is Stop,
        auth.workos is Some && !(auth.state is SignedIn) <==> r is AwaitState,
        auth.workos is Some && auth.state is SignedIn && left <= 60_000_000_000 <==> r is Refresh,
        r matches RefreshLoopAction::Sleep(wait) ==> 0 < wait <= 60_000_000_000 && wait
            + 60_000_000_000 <= left && (wait == 60_000_000_000 || wait + 60_000_000_000 == left),
{
}

/// The bearer is the configured user in dev mode, and otherwise the cached token while it
/// may be presented; without one a refresh has to be made.
pub proof fn a_bearer_is_never_a_stale_token(auth: &Auth, now: Clock, r: TokenSourcing, usable: bool)
    requires
        call_ensures(Auth::access_token, (auth, &now), r),
        auth.access matches Some(entry) ==> call_ensures(
            AccessEntry::is_usable,
            (&entry, &now),
            usable,
        ),
    ensures
        auth.workos is None ==> r == TokenSourcing::Bearer(auth.config.dev_user_id),
        auth.workos is Some && auth.access is Some && usable ==> r == TokenSourcing::Bearer(
            auth.access->0.token,
        ),
        auth.workos is Some && !(auth.access is Some && usable) ==> r is Refresh,
{
}

/// Connections are dialed with a bearer always in dev mode, and otherwise only while an
/// account with an organization is signed in.
pub proof fn a_bearer_needs_an_account(auth: &Auth, r: bool)
    requires
        call_ensures(Auth::may_present_token, (auth,), r),
    ensures
        auth.workos is None ==> r,
        auth.workos is Some ==> (r <==> auth.state is SignedIn),
{
}

/// The claims of a token are read from its second part alone: header, dot, payload, and
/// whatever follows the next dot.
pub proof fn claims_stand_in_the_second_part(
    token: &str,
    r: Option<Vec<u8>>,
    header: Seq<char>,
    payload: &str,
    rest: Seq<char>,
    decoded: Option<Vec<u8>>,
)
    requires
        call_ensures(jwt_payload, (token,), r),
        call_ensures(base64url_decode, (payload,), decoded),
        !header.contains('.') && !payload@.contains('.'),
        token@ == header + seq!['.'] + payload@ || token@ == header + seq!['.'] + payload@ + seq![
            '.',
        ] + rest,
    ensures
        r is Some == decoded is Some,
        r is Some ==> r->0@ == decoded->0@,
{
    let t = token@;
    let h = header.len() as int;
    find_from_is_first(t, '.', 0);
    let at = find_from(t, '.', 0);
    assert(t[h] == '.');
    assert(at == h) by {
        if at < h {
            assert(t[at] == header[at]);
            assert(header.contains('.'));
        }
    }
    let tail = t.skip(h + 1);
    find_from_is_first(tail, '.', 0);
    let next = find_from(tail, '.', 0);
    let p = payload@.len() as int;
    assert forall|i: int| 0 <= i < p implies tail[i] == payload@[i] by {}
    assert(next >= p) by {
        if next < p {
            assert(tail[next] == payload@[next]);
            assert(payload@.contains('.'));
        }
    }
    if t == header + seq!['.'] + payload@ {
        assert(tail =~= payload@);
    } else {
        assert(tail[p] == '.');
        assert(tail.take(p) =~= payload@);
    }
    assert(pieces(t, '.')[1] == pieces(tail, '.')[0]);
    assert(pieces(tail, '.')[0] =~= payload@);
    pieces_rejoin(tail, '.');
}

/// A token without a dot has no claims.
pub proof fn a_token_without_a_dot_has_no_claims(token: &str, r: Option<Vec<u8>>)
    requires
        call_ensures(jwt_payload, (token,), r),
        !token@.contains('.'),
    ensures
        r is None,
{
    find_from_is_first(token@, '.', 0);
    let at = find_from(token@, '.', 0);
    if at < token@.len() {
        assert(token@[at] == '.');
    }
}

/// The age of a reading is the larger of what the two clocks say, and a clock that was set
/// back says nothing.
pub proof fn an_age_is_that_of_the_faster_clock(now: &Clock, earlier: &Clock, r: u128)
    requires
        call_ensures(Clock::since, (now, earlier), r),
    ensures
        now.monotonic >= earlier.monotonic ==> r >= now.monotonic - earlier.monotonic,
        now.wall >= earlier.wall ==> r >= now.wall - earlier.wall,
        r == 0 || r == now.monotonic - earlier.monotonic || r == now.wall - earlier.wall,
{
}

} // verus!
