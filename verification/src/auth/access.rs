//! Access tokens: their lifetime by two clocks, and the claims inside them.

use vstd::prelude::*;

use crate::encoding::{base64_decoded, base64url_decode};
use crate::text::{pieces, split, texts};

verus! {

/// One second in nanoseconds.
pub const SECOND: u128 = 1_000_000_000;

/// Refresh when the cached token has less than this much life left.
pub const TOKEN_SLACK: u128 = 30_000_000_000;

/// The lifetime of a token whose claims do not give one.
pub const DEFAULT_TTL: u128 = 240_000_000_000;

/// One reading of the two clocks, in nanoseconds. The monotonic one never goes back
/// but stands still while the machine sleeps; the wall clock runs through sleep but
/// may be set to another time.
#[derive(Debug, Clone, Copy, PartialEq, Eq, Structural)]
pub struct Clock {
    pub monotonic: u128,
    pub wall: i128,
}

/// How much the monotonic clock has moved since an earlier reading.
pub open spec fn monotonic_age(since: Clock, now: Clock) -> int {
    if now.monotonic >= since.monotonic {
        now.monotonic - since.monotonic
    } else {
        0
    }
}

/// How much the wall clock has moved since an earlier reading; nothing where it was
/// set back.
pub open spec fn wall_age(since: Clock, now: Clock) -> int {
    if now.wall >= since.wall {
        now.wall - since.wall
    } else {
        0
    }
}

/// The age by whichever clock moved more.
pub open spec fn age(since: Clock, now: Clock) -> int {
    if monotonic_age(since, now) >= wall_age(since, now) {
        monotonic_age(since, now)
    } else {
        wall_age(since, now)
    }
}

fn wall_since(since: i128, now: i128) -> (r: u128)
    ensures
        r == (if now >= since {
            now - since
        } else {
            0
        }),
{
    if now < since {
        0
    } else if now < 0 || since >= 0 {
        (now - since) as u128
    } else {
        let before: u128 = (-(since + 1)) as u128 + 1;
        now as u128 + before
    }
}

impl Clock {
    /// The age of an earlier reading, by whichever clock moved more.
    pub fn since(&self, earlier: &Clock) -> (r: u128)
        ensures
            r == age(*earlier, *self),
    {
        let monotonic: u128 = self.monotonic.saturating_sub(earlier.monotonic);
        let wall = wall_since(earlier.wall, self.wall);
        if monotonic >= wall {
            monotonic
        } else {
            wall
        }
    }
}

/// The claims of an access token that matter here.
#[derive(Debug, PartialEq, Eq)]
pub struct JwtClaims {
    pub exp: Option<i64>,
    pub iat: Option<i64>,
    pub org_id: Option<String>,
}

/// The lifetime that the claims give a token, in nanoseconds: from issue to expiry,
/// where both are there and in that order.
pub open spec fn claimed_ttl(claims: Option<JwtClaims>) -> int {
    match claims {
        Some(c) => match (c.exp, c.iat) {
            (Some(exp), Some(iat)) => if exp > iat {
                (exp - iat) * SECOND
            } else {
                DEFAULT_TTL as int
            },
            _ => DEFAULT_TTL as int,
        },
        None => DEFAULT_TTL as int,
    }
}

/// The organization that the claims scope a token to.
pub open spec fn claimed_org(claims: Option<JwtClaims>) -> Option<String> {
    match claims {
        Some(c) => c.org_id,
        None => None,
    }
}

/// An access token with its lifetime and the time it was got. Its age is read from
/// both clocks, and the larger counts: the monotonic one alone would hold a token
/// fresh across a sleep, and the wall clock alone would trust a clock that is off.
#[derive(Debug)]
pub struct AccessEntry {
    pub token: String,
    pub ttl: u128,
    pub got: Clock,
}

impl AccessEntry {
    /// How much of the token's life is left.
    pub open spec fn left(self, now: Clock) -> int {
        if self.ttl >= age(self.got, now) {
            self.ttl - age(self.got, now)
        } else {
            0
        }
    }

    /// The token may still be presented.
    pub open spec fn usable(self, now: Clock) -> bool {
        self.left(now) > TOKEN_SLACK
    }

    /// A token just received, with the lifetime its claims give it.
    pub fn fresh(token: String, claims: &Option<JwtClaims>, now: Clock) -> (r: Self)
        ensures
            r.token == token,
            r.ttl == claimed_ttl(*claims),
            r.got == now,
    {
        let mut ttl: u128 = DEFAULT_TTL;
        if let Some(c) = claims {
            if let (Some(exp), Some(iat)) = (c.exp, c.iat) {
                if exp > iat {
                    let seconds: u128 = (exp as i128 - iat as i128) as u128;
                    assert(seconds * SECOND <= 0x1_0000_0000_0000_0000 * SECOND) by (nonlinear_arith)
                        requires
                            seconds <= 0x1_0000_0000_0000_0000,
                    ;
                    ttl = seconds * SECOND;
                }
            }
        }
        AccessEntry { token, ttl, got: now }
    }

    pub fn remaining(&self, now: &Clock) -> (r: u128)
        ensures
            r == self.left(*now),
    {
        self.ttl.saturating_sub(now.since(&self.got))
    }

    pub fn is_usable(&self, now: &Clock) -> (r: bool)
        ensures
            r == self.usable(*now),
    {
        self.remaining(now) > TOKEN_SLACK
    }
}

/// A token never outlives its lifetime by either clock: once one of them has moved by
/// the lifetime, nothing is left.
pub proof fn either_clock_expires_a_token(entry: AccessEntry, now: Clock)
    requires
        monotonic_age(entry.got, now) >= entry.ttl || wall_age(entry.got, now) >= entry.ttl,
    ensures
        entry.left(now) == 0,
        !entry.usable(now),
{
}

/// A wall clock that was set back leaves the reading of the monotonic clock.
pub proof fn a_backward_wall_step_falls_back_to_monotonic(entry: AccessEntry, now: Clock)
    requires
        now.wall <= entry.got.wall,
    ensures
        age(entry.got, now) == monotonic_age(entry.got, now),
{
}

/// While neither clock goes back, the life left of a token never grows.
pub proof fn life_left_never_grows(entry: AccessEntry, now: Clock, later: Clock)
    requires
        now.monotonic <= later.monotonic,
        now.wall <= later.wall,
    ensures
        entry.left(later) <= entry.left(now),
{
}

/// The payload of a token: the bytes of its second dot-separated part.
pub open spec fn payload_of(token: Seq<char>) -> Option<Seq<u8>> {
    let parts = pieces(token, '.');
    if parts.len() > 1 {
        base64_decoded(parts[1])
    } else {
        None
    }
}

/// The payload bytes of a token, not verified: the edge verifies. A malformed token
/// yields nothing.
pub fn jwt_payload(token: &str) -> (r: Option<Vec<u8>>)
    ensures
        match r {
            Some(bytes) => payload_of(token@) == Some(bytes@),
            None => payload_of(token@) is None,
        },
{
    let parts = split(token, '.');
    assert(texts(parts@).len() == parts@.len());
    if parts.len() > 1 {
        assert(texts(parts@)[1] == parts@[1]@);
        base64url_decode(parts[1].as_str())
    } else {
        None
    }
}

/// How long a background refresh may sleep before it looks again: until a minute
/// before the token expires, but never more than a minute at a time. Nothing when the
/// token should be refreshed now.
pub open spec fn refresh_wait(left: int) -> int {
    if left <= 60 * SECOND {
        0
    } else if left <= 120 * SECOND {
        left - 60 * SECOND
    } else {
        60 * SECOND
    }
}

/// The wait before the next background refresh of the cached token.
pub fn background_wait(access: &Option<AccessEntry>, now: &Clock) -> (r: u128)
    ensures
        r == refresh_wait(
            match *access {
                Some(entry) => entry.left(*now),
                None => 0,
            },
        ),
{
    let left: u128 = match access {
        Some(entry) => entry.remaining(now),
        None => 0,
    };
    let wait: u128 = left.saturating_sub(60 * SECOND);
    if wait > 60 * SECOND {
        60 * SECOND
    } else {
        wait
    }
}

} // verus!
