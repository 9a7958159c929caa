//! Waits that double up to a cap.

use vstd::arithmetic::power2::{lemma2_to64, lemma_pow2_unfold, pow2};
use vstd::prelude::*;

verus! {

/// A wait in milliseconds that doubles up to a cap, and starts over on good news.
#[derive(Debug, Clone, Copy, PartialEq, Eq, Structural)]
pub struct Backoff {
    pub base: u64,
    pub cap: u64,
    pub current: u64,
}

/// Twice a wait, up to a cap.
pub open spec fn doubled(wait: u64, cap: u64) -> u64 {
    if wait * 2 > cap {
        cap
    } else {
        (wait * 2) as u64
    }
}

/// The wait after a number of doublings.
pub open spec fn wait_after(base: u64, cap: u64, times: nat) -> u64
    decreases times,
{
    if times == 0 {
        base
    } else {
        doubled(wait_after(base, cap, (times - 1) as nat), cap)
    }
}

impl Backoff {
    pub fn new(base: u64, cap: u64) -> (r: Self)
        ensures
            r == (Backoff { base, cap, current: base }),
    {
        Backoff { base, cap, current: base }
    }

    /// The wait is over: the next one is twice as long, up to the cap.
    pub fn grow(&mut self)
        ensures
            *final(self) == (Backoff { current: doubled(old(self).current, old(self).cap), ..*old(
                self,
            ) }),
    {
        if self.current > self.cap / 2 {
            self.current = self.cap;
        } else {
            self.current = self.current * 2;
        }
    }

    pub fn reset(&mut self)
        ensures
            *final(self) == (Backoff { current: old(self).base, ..*old(self) }),
    {
        self.current = self.base;
    }

    /// The wait before the next attempt; the one after it is twice as long.
    pub fn next_wait(&mut self) -> (r: u64)
        ensures
            r == old(self).current,
            *final(self) == (Backoff { current: doubled(old(self).current, old(self).cap), ..*old(
                self,
            ) }),
    {
        let wait = self.current;
        self.grow();
        wait
    }
}

/// Waits never go below their base or above their cap, they never get shorter, and
/// after any number of doublings they are the base times that power of two, up to the
/// cap.
pub proof fn waits_double_up_to_the_cap(base: u64, cap: u64, times: nat)
    requires
        base <= cap,
    ensures
        base <= wait_after(base, cap, times) <= cap,
        wait_after(base, cap, times) <= wait_after(base, cap, times + 1),
        wait_after(base, cap, times) == if base * pow2(times) > cap {
            cap as int
        } else {
            base * pow2(times)
        },
    decreases times,
{
    if times == 0 {
        lemma2_to64();
    } else {
        let less = (times - 1) as nat;
        waits_double_up_to_the_cap(base, cap, less);
        lemma_pow2_unfold(times);
        let w = wait_after(base, cap, less);
        assert(base * pow2(times) == 2 * (base * pow2(less))) by (nonlinear_arith)
            requires
                pow2(times) == 2 * pow2(less),
        ;
    }
}

} // verus!
