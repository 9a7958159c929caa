//! A retry by the user: every road is kicked again for the commands that still wait,
//! and a message whose every attempt is dead gets one fresh attempt.

use vstd::prelude::*;

use super::commands::{
    is_new_entry, new_entry, SessionCommandEntry, SessionCommandPayload, SessionCommandStatus,
};
use super::maps::TextSet;
use crate::text::{contains_text, text_eq, texts};

verus! {

/// The commands of a chat as a retry finds them: which of them are in the ledger of
/// processed commands, which are being executed, and which messages are in the
/// transcript.
pub struct RetryView<'a> {
    pub commands: &'a Vec<SessionCommandEntry>,
    pub processed: &'a Vec<bool>,
    pub executing: &'a TextSet,
    pub landed: &'a Vec<String>,
}

/// What a retry does, by places among the commands.
#[derive(Debug)]
pub struct RetryPlan {
    /// Commands that still wait: each gets a fresh escort.
    pub escorts: Vec<usize>,
    /// Dead attempts that speak for their message: each is issued anew.
    pub reissues: Vec<usize>,
}

impl<'a> RetryView<'a> {
    pub open spec fn wf(self) -> bool {
        self.processed@.len() == self.commands@.len()
    }

    /// The command still waits to be dealt with.
    pub open spec fn waits(self, i: int) -> bool {
        self.commands@[i].status == SessionCommandStatus::Pending && !self.processed@[i]
    }

    /// The command can never be executed again: it was rejected or expired, or it was
    /// taken and nobody is at it.
    pub open spec fn is_dead(self, i: int) -> bool {
        let c = self.commands@[i];
        ||| c.status == SessionCommandStatus::Rejected
        ||| c.status == SessionCommandStatus::Expired
        ||| c.status == SessionCommandStatus::Pending && self.processed@[i] && !self.executing.has(
            c.id@,
        )
    }

    /// Another command that waits carries the same message in the same way.
    pub open spec fn has_live_attempt(self, i: int) -> bool {
        exists|j: int|
            0 <= j < self.commands@.len() && #[trigger] self.waits(j) && self.commands@[j].id@
                != self.commands@[i].id@ && same_message(
                self.commands@[j].payload,
                self.commands@[i].payload,
            )
    }

    /// The command is a dead attempt at a message that has not landed and that no other
    /// command is about to deliver.
    pub open spec fn is_lost(self, i: int) -> bool {
        &&& 0 <= i < self.commands@.len()
        &&& self.commands@[i].payload.message() is Some
        &&& !texts(self.landed@).contains(self.commands@[i].payload.message()->0)
        &&& self.is_dead(i)
        &&& !self.has_live_attempt(i)
    }

    /// Of two lost attempts at one message the first speaks for it: it was issued later,
    /// or at the same time and stands before.
    pub open spec fn beats(self, i: int, j: int) -> bool {
        let a = self.commands@[i].issued_at;
        let b = self.commands@[j].issued_at;
        a > b || (a == b && i <= j)
    }

    /// The command speaks for its message among the first so many.
    pub open spec fn speaks_among(self, i: int, n: int) -> bool {
        self.is_lost(i) && forall|j: int|
            0 <= j < n && #[trigger] self.is_lost(j) && self.commands@[j].payload.message()
                == self.commands@[i].payload.message() ==> self.beats(i, j)
    }

    /// The command speaks for its message: it is the latest of the lost attempts at it.
    pub open spec fn speaks(self, i: int) -> bool {
        self.speaks_among(i, self.commands@.len() as int)
    }
}

/// Two commands carry the same message in the same way.
pub open spec fn same_message(a: SessionCommandPayload, b: SessionCommandPayload) -> bool {
    &&& (a is Run && b is Run) || (a is Steer && b is Steer)
    &&& a.message() == b.message()
}

fn carries_same(a: &SessionCommandPayload, b: &SessionCommandPayload) -> (r: bool)
    ensures
        r == same_message(*a, *b),
{
    let alike = match (a, b) {
        (
            SessionCommandPayload::Run { request: _, message_id: _ },
            SessionCommandPayload::Run { request: _, message_id: _ },
        ) => true,
        (
            SessionCommandPayload::Steer { prompt: _, message_id: _ },
            SessionCommandPayload::Steer { prompt: _, message_id: _ },
        ) => true,
        _ => false,
    };
    if !alike {
        return false;
    }
    match (a.message_id(), b.message_id()) {
        (Some(x), Some(y)) => text_eq(x, y),
        (None, None) => true,
        _ => false,
    }
}

/// The places, among the first so many, of the commands that still wait.
pub open spec fn waiting_places(view: RetryView, n: int) -> Seq<usize>
    decreases n,
{
    if n <= 0 {
        Seq::empty()
    } else {
        let rest = waiting_places(view, n - 1);
        if view.waits(n - 1) {
            rest.push((n - 1) as usize)
        } else {
            rest
        }
    }
}

/// The places, among the first so many, of the commands that speak for their message.
pub open spec fn speaking_places(view: RetryView, n: int) -> Seq<usize>
    decreases n,
{
    if n <= 0 {
        Seq::empty()
    } else {
        let rest = speaking_places(view, n - 1);
        if view.speaks(n - 1) {
            rest.push((n - 1) as usize)
        } else {
            rest
        }
    }
}

fn waits(view: &RetryView, i: usize) -> (r: bool)
    requires
        view.wf(),
        i < view.commands@.len(),
    ensures
        r == view.waits(i as int),
{
    view.commands[i].status == SessionCommandStatus::Pending && !view.processed[i]
}

fn is_lost(view: &RetryView, i: usize) -> (r: bool)
    requires
        view.wf(),
        i < view.commands@.len(),
    ensures
        r == view.is_lost(i as int),
{
    let c = &view.commands[i];
    match c.payload.message_id() {
        None => {
            return false;
        },
        Some(message) => {
            if contains_text(view.landed, message) {
                return false;
            }
        },
    }
    let dead = match c.status {
        SessionCommandStatus::Rejected => true,
        SessionCommandStatus::Expired => true,
        SessionCommandStatus::Pending => view.processed[i] && !view.executing.contains(
            c.id.as_str(),
        ),
        _ => false,
    };
    if !dead {
        return false;
    }
    let mut j: usize = 0;
    while j < view.commands.len()
        invariant
            view.wf(),
            j <= view.commands@.len(),
            i < view.commands@.len(),
            *c == view.commands@[i as int],
            view.is_dead(i as int),
            forall|k: int|
                0 <= k < j && #[trigger] view.waits(k) && view.commands@[k].id@
                    != view.commands@[i as int].id@ ==> !same_message(
                    view.commands@[k].payload,
                    view.commands@[i as int].payload,
                ),
        decreases view.commands@.len() - j,
    {
        let other = &view.commands[j];
        let live = waits(view, j);
        if live && !text_eq(other.id.as_str(), c.id.as_str()) && carries_same(
            &other.payload,
            &c.payload,
        ) {
            assert(view.waits(j as int));
            assert(view.has_live_attempt(i as int));
            return false;
        }
        j = j + 1;
    }
    assert(!view.has_live_attempt(i as int));
    true
}

fn lost_flags(view: &RetryView) -> (r: Vec<bool>)
    requires
        view.wf(),
    ensures
        r@.len() == view.commands@.len(),
        forall|i: int| 0 <= i < r@.len() ==> #[trigger] r@[i] == view.is_lost(i),
{
    let mut out: Vec<bool> = Vec::new();
    let mut i: usize = 0;
    while i < view.commands.len()
        invariant
            view.wf(),
            i <= view.commands@.len(),
            out@.len() == i,
            forall|j: int| 0 <= j < i ==> #[trigger] out@[j] == view.is_lost(j),
        decreases view.commands@.len() - i,
    {
        let lost = is_lost(view, i);
        out.push(lost);
        i = i + 1;
    }
    out
}

fn speaks(view: &RetryView, lost: &Vec<bool>, i: usize) -> (r: bool)
    requires
        view.wf(),
        i < view.commands@.len(),
        lost@.len() == view.commands@.len(),
        forall|j: int| 0 <= j < lost@.len() ==> #[trigger] lost@[j] == view.is_lost(j),
    ensures
        r == view.speaks(i as int),
{
    if !lost[i] {
        return false;
    }
    let c = &view.commands[i];
    let mut j: usize = 0;
    while j < view.commands.len()
        invariant
            view.wf(),
            i < view.commands@.len(),
            j <= view.commands@.len(),
            *c == view.commands@[i as int],
            view.is_lost(i as int),
            lost@.len() == view.commands@.len(),
            forall|k: int| 0 <= k < lost@.len() ==> #[trigger] lost@[k] == view.is_lost(k),
            view.speaks_among(i as int, j as int),
        decreases view.commands@.len() - j,
    {
        if lost[j] {
            let other = &view.commands[j];
            assert(view.is_lost(j as int));
            let same = match (c.payload.message_id(), other.payload.message_id()) {
                (Some(a), Some(b)) => text_eq(a, b),
                _ => false,
            };
            if same && !(c.issued_at > other.issued_at || (c.issued_at == other.issued_at && i
                <= j)) {
                assert(!view.beats(i as int, j as int));
                return false;
            }
        }
        j = j + 1;
    }
    true
}

/// Plans a retry.
pub fn plan_retry(view: &RetryView) -> (r: RetryPlan)
    requires
        view.wf(),
    ensures
        r.escorts@ == waiting_places(*view, view.commands@.len() as int),
        r.reissues@ == speaking_places(*view, view.commands@.len() as int),
{
    let lost = lost_flags(view);
    let mut escorts: Vec<usize> = Vec::new();
    let mut reissues: Vec<usize> = Vec::new();
    let mut i: usize = 0;
    while i < view.commands.len()
        invariant
            view.wf(),
            i <= view.commands@.len(),
            lost@.len() == view.commands@.len(),
            forall|j: int| 0 <= j < lost@.len() ==> #[trigger] lost@[j] == view.is_lost(j),
            escorts@ == waiting_places(*view, i as int),
            reissues@ == speaking_places(*view, i as int),
        decreases view.commands@.len() - i,
    {
        if waits(view, i) {
            escorts.push(i);
        }
        if speaks(view, &lost, i) {
            reissues.push(i);
        }
        i = i + 1;
    }
    RetryPlan { escorts, reissues }
}

/// The outcome written for a dead attempt that is still marked as pending, so that the
/// document tells the truth and the next retry does not see it again.
pub fn superseded_by_retry(status: SessionCommandStatus) -> (r: Option<&'static str>)
    ensures
        match r {
            Some(note) => status == SessionCommandStatus::Pending && note@
                == "interrupted before completion — superseded by retry"@,
            None => status != SessionCommandStatus::Pending,
        },
{
    match status {
        SessionCommandStatus::Pending => Some(
            "interrupted before completion — superseded by retry",
        ),
        _ => None,
    }
}

/// A dead attempt, issued anew: a new id and a new time to live, and the same message,
/// sender and place in a chain of sends, for a retry is the same send.
pub fn reissue(
    old_entry: SessionCommandEntry,
    id: String,
    device_id: &str,
    last_message: Option<String>,
    now: i64,
    ttl: i64,
) -> (r: SessionCommandEntry)
    requires
        i64::MIN <= now + ttl <= i64::MAX,
    ensures
        is_new_entry(
            r,
            id,
            old_entry.payload,
            old_entry.user_id,
            old_entry.origin,
            device_id@,
            last_message,
            now,
            ttl,
        ),
{
    new_entry(
        id,
        old_entry.payload,
        old_entry.user_id,
        old_entry.origin,
        device_id,
        last_message,
        now,
        ttl,
    )
}

proof fn speaking_places_are(view: RetryView, n: int)
    requires
        0 <= n <= view.commands@.len(),
        view.commands@.len() <= usize::MAX,
    ensures
        forall|k: int|
            0 <= k < speaking_places(view, n).len() ==> {
                &&& #[trigger] speaking_places(view, n)[k] < n
                &&& view.speaks(speaking_places(view, n)[k] as int)
            },
        forall|i: int|
            0 <= i < n && #[trigger] view.speaks(i) ==> speaking_places(view, n).contains(
                i as usize,
            ),
        speaking_places(view, n).no_duplicates(),
    decreases n,
{
    if n > 0 {
        speaking_places_are(view, n - 1);
        let rest = speaking_places(view, n - 1);
        let all = speaking_places(view, n);
        assert forall|i: int| 0 <= i < n && #[trigger] view.speaks(i) implies all.contains(
            i as usize,
        ) by {
            if i < n - 1 {
                assert(rest.contains(i as usize));
                let k = choose|k: int| 0 <= k < rest.len() && rest[k] == i as usize;
                assert(all[k] == i as usize);
            } else {
                assert(all[rest.len() as int] == i as usize);
            }
        }
    }
}

/// A message is issued anew at most once, by its latest attempt, and only while no
/// attempt at it is alive and it has not landed.
pub proof fn a_message_is_retried_once(view: RetryView, a: int, b: int)
    requires
        view.wf(),
        view.commands@.len() <= usize::MAX,
        0 <= a < b < speaking_places(view, view.commands@.len() as int).len(),
    ensures
        ({
            let places = speaking_places(view, view.commands@.len() as int);
            let i = places[a] as int;
            let j = places[b] as int;
            &&& view.commands@[i].payload.message() != view.commands@[j].payload.message()
            &&& !view.has_live_attempt(i)
            &&& !texts(view.landed@).contains(view.commands@[i].payload.message()->0)
        }),
{
    let n = view.commands@.len() as int;
    speaking_places_are(view, n);
    let places = speaking_places(view, n);
    let i = places[a] as int;
    let j = places[b] as int;
    assert(view.speaks(i) && view.speaks(j));
    assert(view.is_lost(i) && view.is_lost(j));
    assert(places[a] != places[b]);
}

proof fn some_attempt_speaks(view: RetryView, i: int, n: int) -> (k: int)
    requires
        view.is_lost(i),
        0 <= i < n <= view.commands@.len(),
    ensures
        0 <= k < n,
        view.speaks_among(k, n),
        view.commands@[k].payload.message() == view.commands@[i].payload.message(),
    decreases n,
{
    let last = n - 1;
    let rival = view.is_lost(last) && view.commands@[last].payload.message()
        == view.commands@[i].payload.message();
    if i == last {
        if exists|h: int|
            0 <= h < last && #[trigger] view.is_lost(h) && view.commands@[h].payload.message()
                == view.commands@[i].payload.message() {
            let h = choose|h: int|
                0 <= h < last && #[trigger] view.is_lost(h) && view.commands@[h].payload.message()
                    == view.commands@[i].payload.message();
            let best = some_attempt_speaks(view, h, last);
            if view.beats(best, last) {
                best
            } else {
                last
            }
        } else {
            last
        }
    } else {
        let best = some_attempt_speaks(view, i, last);
        if rival && !view.beats(best, last) {
            last
        } else {
            best
        }
    }
}

/// No lost message is passed over: some attempt at it is issued anew.
pub proof fn a_lost_message_is_retried(view: RetryView, i: int) -> (k: int)
    requires
        view.wf(),
        view.commands@.len() <= usize::MAX,
        view.is_lost(i),
    ensures
        0 <= k < view.commands@.len(),
        speaking_places(view, view.commands@.len() as int).contains(k as usize),
        view.commands@[k].payload.message() == view.commands@[i].payload.message(),
{
    let n = view.commands@.len() as int;
    let k = some_attempt_speaks(view, i, n);
    speaking_places_are(view, n);
    assert(view.speaks(k));
    k
}

} // verus!
