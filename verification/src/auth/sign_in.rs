//! Sign-ins in progress: the states that were handed out, and the generation that
//! cancels them.

use vstd::prelude::*;

use crate::text::text_eq;

verus! {

/// How long a sign-in may stay pending, in nanoseconds.
pub const SIGN_IN_TTL: u128 = 900_000_000_000;

/// A pending sign-in: its state text, and the monotonic time at which it began.
pub type Pending = (String, u128);

/// Pending OAuth states plus the cancellation generation that fences code exchanges
/// already in flight when sign-out occurs.
#[derive(Debug)]
pub struct SignInLifecycle {
    pub generation: u64,
    pub pending: Vec<Pending>,
    pub profile_transition_active: bool,
}

/// The next generation.
pub open spec fn bumped(generation: u64) -> u64 {
    if generation == u64::MAX {
        0
    } else {
        (generation + 1) as u64
    }
}

/// A sign-in that began at `at` is still pending at `now`.
pub open spec fn is_live(at: u128, now: u128) -> bool {
    now < at || now - at < SIGN_IN_TTL
}

/// The pending sign-ins that have not expired.
pub open spec fn live(pending: Seq<Pending>, now: u128) -> Seq<Pending> {
    pending.filter(|p: Pending| is_live(p.1, now))
}

/// The pending sign-ins other than those with the given state.
pub open spec fn without_state(pending: Seq<Pending>, state: Seq<char>) -> Seq<Pending> {
    pending.filter(|p: Pending| p.0@ != state)
}

/// A sign-in with the given state is pending.
pub open spec fn has_state(pending: Seq<Pending>, state: Seq<char>) -> bool {
    exists|i: int| 0 <= i < pending.len() && (#[trigger] pending[i]).0@ == state
}

impl SignInLifecycle {
    /// No sign-in pending, none canceled yet.
    pub fn new() -> (r: Self)
        ensures
            r.generation == 0,
            r.pending@ == Seq::<Pending>::empty(),
            !r.profile_transition_active,
    {
        SignInLifecycle { generation: 0, pending: Vec::new(), profile_transition_active: false }
    }

    /// `after` is `before` with every sign-in canceled: a new generation, nothing
    /// pending.
    pub open spec fn canceled(before: Self, after: Self) -> bool {
        &&& after.generation == bumped(before.generation)
        &&& after.pending@ == Seq::<Pending>::empty()
        &&& after.profile_transition_active == before.profile_transition_active
    }

    /// Cancels every sign-in, pending or in flight.
    pub fn cancel(&mut self)
        ensures
            Self::canceled(*old(self), *final(self)),
    {
        self.generation = self.generation.wrapping_add(1);
        self.pending.clear();
    }

    /// Cancels every sign-in and keeps any other from finishing until the transition
    /// ends.
    pub fn begin_profile_transition(&mut self)
        ensures
            final(self).profile_transition_active,
            final(self).generation == bumped(old(self).generation),
            final(self).pending@ == Seq::<Pending>::empty(),
    {
        self.profile_transition_active = true;
        self.generation = self.generation.wrapping_add(1);
        self.pending.clear();
    }

    /// Ends a transition. The sign-ins that began during it are canceled too.
    pub fn end_profile_transition(&mut self)
        ensures
            !final(self).profile_transition_active,
            final(self).generation == bumped(old(self).generation),
            final(self).pending@ == Seq::<Pending>::empty(),
    {
        self.profile_transition_active = false;
        self.generation = self.generation.wrapping_add(1);
        self.pending.clear();
    }

    /// Drops the sign-ins that have expired.
    fn expire(&mut self, now: u128)
        ensures
            final(self).generation == old(self).generation,
            final(self).profile_transition_active == old(self).profile_transition_active,
            final(self).pending@ == live(old(self).pending@, now),
    {
        let mut kept: Vec<Pending> = Vec::new();
        let mut i: usize = 0;
        let ghost keep = |p: Pending| is_live(p.1, now);
        assert(self.pending@.take(0).filter(keep) =~= Seq::<Pending>::empty()) by {
            reveal(Seq::filter);
        }
        while i < self.pending.len()
            invariant
                i <= self.pending@.len(),
                *self == *old(self),
                keep == (|p: Pending| is_live(p.1, now)),
                kept@ == self.pending@.take(i as int).filter(keep),
            decreases self.pending@.len() - i,
        {
            let ghost next = self.pending@.take(i + 1);
            assert(next.drop_last() =~= self.pending@.take(i as int));
            assert(next.last() == self.pending@[i as int]);
            proof {
                reveal(Seq::filter);
            }
            let at: u128 = self.pending[i].1;
            if now < at || now - at < SIGN_IN_TTL {
                kept.push((self.pending[i].0.clone(), at));
            }
            i = i + 1;
        }
        assert(self.pending@.take(i as int) =~= self.pending@);
        self.pending = kept;
    }

    /// Takes the sign-ins with the given state out, and says whether there was one.
    fn remove_state(&mut self, state: &str) -> (found: bool)
        ensures
            final(self).generation == old(self).generation,
            final(self).profile_transition_active == old(self).profile_transition_active,
            final(self).pending@ == without_state(old(self).pending@, state@),
            found == has_state(old(self).pending@, state@),
    {
        let mut kept: Vec<Pending> = Vec::new();
        let mut found = false;
        let mut i: usize = 0;
        let ghost keep = |p: Pending| p.0@ != state@;
        assert(self.pending@.take(0).filter(keep) =~= Seq::<Pending>::empty()) by {
            reveal(Seq::filter);
        }
        while i < self.pending.len()
            invariant
                i <= self.pending@.len(),
                *self == *old(self),
                keep == (|p: Pending| p.0@ != state@),
                kept@ == self.pending@.take(i as int).filter(keep),
                found == (exists|j: int| 0 <= j < i && (#[trigger] self.pending@[j]).0@ == state@),
            decreases self.pending@.len() - i,
        {
            let ghost next = self.pending@.take(i + 1);
            assert(next.drop_last() =~= self.pending@.take(i as int));
            assert(next.last() == self.pending@[i as int]);
            proof {
                reveal(Seq::filter);
            }
            if text_eq(self.pending[i].0.as_str(), state) {
                found = true;
            } else {
                kept.push((self.pending[i].0.clone(), self.pending[i].1));
            }
            i = i + 1;
        }
        assert(self.pending@.take(i as int) =~= self.pending@);
        self.pending = kept;
        found
    }

    /// Records a sign-in that begins now, and drops those that have expired.
    pub fn begin(&mut self, state: String, now: u128)
        ensures
            final(self).generation == old(self).generation,
            final(self).profile_transition_active == old(self).profile_transition_active,
            final(self).pending@ == without_state(live(old(self).pending@, now), state@).push(
                (state, now),
            ),
    {
        self.expire(now);
        let _ = self.remove_state(state.as_str());
        self.pending.push((state, now));
    }

    /// Takes a pending sign-in, and gives the generation it may finish in. Nothing
    /// where the state is unknown or expired.
    pub fn take_pending(&mut self, state: &str, now: u128) -> (r: Option<u64>)
        ensures
            final(self).generation == old(self).generation,
            final(self).profile_transition_active == old(self).profile_transition_active,
            final(self).pending@ == without_state(live(old(self).pending@, now), state@),
            r == (if has_state(live(old(self).pending@, now), state@) {
                Some(old(self).generation)
            } else {
                None
            }),
    {
        self.expire(now);
        if self.remove_state(state) {
            Some(self.generation)
        } else {
            None
        }
    }

    /// A sign-in of the given generation may finish.
    pub open spec fn admits(self, generation: u64) -> bool {
        self.generation == generation && !self.profile_transition_active
    }

    pub fn admits_generation(&self, generation: u64) -> (r: bool)
        ensures
            r == self.admits(generation),
    {
        self.generation == generation && !self.profile_transition_active
    }
}

proof fn filter_keeps(pending: Seq<Pending>, keep: spec_fn(Pending) -> bool)
    ensures
        forall|i: int| 0 <= i < pending.filter(keep).len() ==> keep(#[trigger] pending.filter(keep)[i]),
    decreases pending.len(),
{
    reveal(Seq::filter);
    if pending.len() > 0 {
        filter_keeps(pending.drop_last(), keep);
        let rest = pending.drop_last().filter(keep);
        assert forall|i: int| 0 <= i < pending.filter(keep).len() implies keep(
            #[trigger] pending.filter(keep)[i],
        ) by {
            if i < rest.len() {
                assert(pending.filter(keep)[i] == rest[i]);
            }
        }
    }
}

/// A state is good for one sign-in: once taken it is not pending any more.
pub proof fn a_taken_state_is_gone(
    before: SignInLifecycle,
    state: &str,
    now: u128,
    after: SignInLifecycle,
)
    requires
        after.pending@ == without_state(live(before.pending@, now), state@),
    ensures
        !has_state(after.pending@, state@),
{
    filter_keeps(live(before.pending@, now), |p: Pending| p.0@ != state@);
    assert forall|i: int| 0 <= i < after.pending@.len() implies (#[trigger] after.pending@[i]).0@
        != state@ by {}
}

/// An expired sign-in cannot be finished.
pub proof fn an_expired_state_is_not_live(pending: Seq<Pending>, now: u128)
    ensures
        forall|i: int|
            0 <= i < live(pending, now).len() ==> is_live((#[trigger] live(pending, now)[i]).1, now),
{
    filter_keeps(pending, |p: Pending| is_live(p.1, now));
}

/// The generation after a number of cancellations.
pub open spec fn bumped_times(generation: u64, times: nat) -> u64
    decreases times,
{
    if times == 0 {
        generation
    } else {
        bumped(bumped_times(generation, (times - 1) as nat))
    }
}

proof fn bumps_count(generation: u64, times: nat)
    requires
        times <= u64::MAX,
    ensures
        bumped_times(generation, times) == (if generation + times <= u64::MAX {
            generation + times
        } else {
            generation + times - u64::MAX - 1
        }),
    decreases times,
{
    if times > 0 {
        bumps_count(generation, (times - 1) as nat);
    }
}

/// A sign-in that was taken before a cancellation is refused after it, however many
/// cancellations came between (short of going once round all the generations).
pub proof fn a_canceled_sign_in_is_refused(generation: u64, times: nat, later: SignInLifecycle)
    requires
        0 < times <= u64::MAX,
        later.generation == bumped_times(generation, times),
    ensures
        !later.admits(generation),
{
    bumps_count(generation, times);
}

} // verus!
