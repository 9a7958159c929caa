//! Laws of retries.

use vstd::prelude::*;

use crate::host::commands::{SessionCommandEntry, SessionCommandPayload, SessionCommandStatus};
use crate::host::doc_host::DocHost;
use crate::host::retry::{
    a_lost_message_is_retried, plan_retry, reissue, same_message, speaking_places,
    superseded_by_retry, waiting_places, RetryPlan, RetryView,
};
use crate::text::texts;

verus! {

/// A command runs an agent with a message.
pub open spec fn runs_with(payload: SessionCommandPayload, message: Seq<char>) -> bool {
    payload matches SessionCommandPayload::Run { request: _, message_id } && message_id@ == message
}

/// A command steers an agent with a message.
pub open spec fn steers_with(payload: SessionCommandPayload, message: Seq<char>) -> bool {
    payload matches SessionCommandPayload::Steer { prompt: _, message_id } && message_id is Some
        && message_id->0@ == message
}

/// A command waits: it is pending, and not in the ledger.
pub open spec fn still_waits(view: RetryView, i: int) -> bool {
    0 <= i < view.commands@.len() && view.commands@[i].status == SessionCommandStatus::Pending
        && !view.processed@[i]
}

/// A command will never be executed any more.
pub open spec fn is_over(view: RetryView, i: int) -> bool {
    &&& 0 <= i < view.commands@.len()
    &&& view.commands@[i].status == SessionCommandStatus::Rejected || view.commands@[i].status
        == SessionCommandStatus::Expired || (view.commands@[i].status
        == SessionCommandStatus::Pending && view.processed@[i] && !view.executing.has(
        view.commands@[i].id@,
    ))
}

/// A message is in the transcript.
pub open spec fn has_landed(view: RetryView, message: Seq<char>) -> bool {
    exists|k: int| 0 <= k < view.landed@.len() && (#[trigger] view.landed@[k])@ == message
}

proof fn speaking_places_speak(view: RetryView, n: int)
    requires
        0 <= n <= view.commands@.len(),
        view.commands@.len() <= usize::MAX,
    ensures
        forall|k: int|
            0 <= k < speaking_places(view, n).len() ==> (#[trigger] speaking_places(view, n)[k]) < n
                && view.speaks(speaking_places(view, n)[k] as int),
        forall|a: int, b: int|
            0 <= a < b < speaking_places(view, n).len() ==> speaking_places(view, n)[a]
                < speaking_places(view, n)[b],
    decreases n,
{
    if n > 0 {
        speaking_places_speak(view, n - 1);
        let rest = speaking_places(view, n - 1);
        let all = speaking_places(view, n);
        assert forall|k: int| 0 <= k < all.len() implies (#[trigger] all[k]) < n && view.speaks(
            all[k] as int,
        ) by {
            if k < rest.len() {
                assert(all[k] == rest[k]);
            }
        }
        assert forall|a: int, b: int| 0 <= a < b < all.len() implies all[a] < all[b] by {
            assert(all[a] == rest[a]);
            if b < rest.len() {
                assert(all[b] == rest[b]);
            }
        }
    }
}

proof fn waiting_places_wait(view: RetryView, n: int)
    requires
        0 <= n <= view.commands@.len(),
        view.commands@.len() <= usize::MAX,
    ensures
        forall|k: int|
            0 <= k < waiting_places(view, n).len() ==> (#[trigger] waiting_places(view, n)[k]) < n
                && still_waits(view, waiting_places(view, n)[k] as int),
        forall|a: int, b: int|
            0 <= a < b < waiting_places(view, n).len() ==> waiting_places(view, n)[a]
                < waiting_places(view, n)[b],
        forall|i: int|
            0 <= i < n && #[trigger] still_waits(view, i) ==> waiting_places(view, n).contains(
                i as usize,
            ),
    decreases n,
{
    if n > 0 {
        waiting_places_wait(view, n - 1);
        let rest = waiting_places(view, n - 1);
        let all = waiting_places(view, n);
        assert forall|i: int| 0 <= i < n && #[trigger] still_waits(view, i) implies all.contains(
            i as usize,
        ) by {
            if i < n - 1 {
                let k = choose|k: int| 0 <= k < rest.len() && rest[k] == i as usize;
                assert(all[k] == i as usize);
            } else {
                assert(all[rest.len() as int] == i as usize);
            }
        }
    }
}

/// Everything that waits gets an escort, once and in order, and nothing else does.
pub proof fn exactly_what_waits_is_escorted(view: RetryView, r: RetryPlan)
    requires
        view.processed@.len() == view.commands@.len(),
        view.commands@.len() <= usize::MAX,
        call_ensures(plan_retry, (&view,), r),
    ensures
        forall|k: int|
            0 <= k < r.escorts@.len() ==> still_waits(view, #[trigger] r.escorts@[k] as int),
        forall|i: int| #[trigger] still_waits(view, i) ==> r.escorts@.contains(i as usize),
        forall|a: int, b: int| 0 <= a < b < r.escorts@.len() ==> r.escorts@[a] < r.escorts@[b],
{
    waiting_places_wait(view, view.commands@.len() as int);
}

/// What is issued anew is a dead attempt at a message that has not landed, and no other
/// command that still waits carries the same message in the same kind of command: a run
/// beside a run, or a steer beside a steer, would deliver it twice.
pub proof fn nothing_is_issued_beside_a_live_attempt(
    view: RetryView,
    r: RetryPlan,
    k: int,
    j: int,
    message: Seq<char>,
)
    requires
        view.processed@.len() == view.commands@.len(),
        view.commands@.len() <= usize::MAX,
        call_ensures(plan_retry, (&view,), r),
        0 <= k < r.reissues@.len(),
    ensures
        ({
            let i = r.reissues@[k] as int;
            let own = view.commands@[i].payload;
            &&& is_over(view, i)
            &&& own is Run || own is Steer && own->Steer_message_id is Some
            &&& (runs_with(own, message) || steers_with(own, message)) ==> !has_landed(view, message)
            &&& still_waits(view, j) && view.commands@[j].id@ != view.commands@[i].id@ ==> {
                let other = view.commands@[j].payload;
                &&& !(runs_with(own, message) && runs_with(other, message))
                &&& !(steers_with(own, message) && steers_with(other, message))
            }
        }),
{
    speaking_places_speak(view, view.commands@.len() as int);
    let i = r.reissues@[k] as int;
    let own = view.commands@[i].payload;
    assert(view.speaks(i));
    assert(view.is_lost(i));
    if has_landed(view, message) && (runs_with(own, message) || steers_with(own, message)) {
        let h = choose|h: int| 0 <= h < view.landed@.len() && (#[trigger] view.landed@[h])@ == message;
        assert(texts(view.landed@)[h] == message);
        assert(texts(view.landed@).contains(message));
    }
    if still_waits(view, j) && view.commands@[j].id@ != view.commands@[i].id@ {
        assert(view.waits(j));
        assert(!same_message(view.commands@[j].payload, own));
    }
}

/// No message is issued anew twice, and of its dead attempts it is the latest that
/// speaks for it.
pub proof fn each_lost_message_is_issued_once(
    view: RetryView,
    r: RetryPlan,
    a: int,
    b: int,
    message: Seq<char>,
)
    requires
        view.processed@.len() == view.commands@.len(),
        view.commands@.len() <= usize::MAX,
        call_ensures(plan_retry, (&view,), r),
        0 <= a < b < r.reissues@.len(),
    ensures
        r.reissues@[a] < r.reissues@[b],
        ({
            let one = view.commands@[r.reissues@[a] as int].payload;
            let other = view.commands@[r.reissues@[b] as int].payload;
            !((runs_with(one, message) || steers_with(one, message)) && (runs_with(other, message)
                || steers_with(other, message)))
        }),
{
    speaking_places_speak(view, view.commands@.len() as int);
    let i = r.reissues@[a] as int;
    let j = r.reissues@[b] as int;
    assert(view.speaks(i) && view.speaks(j));
    assert(view.is_lost(i) && view.is_lost(j));
}

/// A message that has not landed and whose attempt is over is issued anew, unless
/// another command that still waits carries it in the same way: some attempt at it is
/// among those that are issued, and none that is over was issued later than that one, or
/// at the same time and stands before it.
pub proof fn no_lost_message_is_passed_over(
    view: RetryView,
    r: RetryPlan,
    i: int,
    message: Seq<char>,
) -> (k: int)
    requires
        view.processed@.len() == view.commands@.len(),
        view.commands@.len() <= usize::MAX,
        call_ensures(plan_retry, (&view,), r),
        is_over(view, i),
        runs_with(view.commands@[i].payload, message) || steers_with(
            view.commands@[i].payload,
            message,
        ),
        !has_landed(view, message),
        forall|j: int|
            #[trigger] still_waits(view, j) && view.commands@[j].id@ != view.commands@[i].id@ ==> !(
            runs_with(view.commands@[j].payload, message) && runs_with(
                view.commands@[i].payload,
                message,
            )) && !(steers_with(view.commands@[j].payload, message) && steers_with(
                view.commands@[i].payload,
                message,
            )),
    ensures
        0 <= k < view.commands@.len(),
        r.reissues@.contains(k as usize),
        runs_with(view.commands@[k].payload, message) || steers_with(
            view.commands@[k].payload,
            message,
        ),
        view.commands@[k].issued_at >= view.commands@[i].issued_at,
        view.commands@[k].issued_at == view.commands@[i].issued_at ==> k <= i,
{
    assert(!texts(view.landed@).contains(message)) by {
        if texts(view.landed@).contains(message) {
            let h = choose|h: int| 0 <= h < texts(view.landed@).len() && texts(view.landed@)[h] == message;
            assert(view.landed@[h]@ == message);
        }
    }
    assert(!view.has_live_attempt(i)) by {
        if view.has_live_attempt(i) {
            let j = choose|j: int|
                0 <= j < view.commands@.len() && #[trigger] view.waits(j) && view.commands@[j].id@
                    != view.commands@[i].id@ && same_message(
                    view.commands@[j].payload,
                    view.commands@[i].payload,
                );
            assert(still_waits(view, j));
        }
    }
    assert(view.is_lost(i));
    let k = a_lost_message_is_retried(view, i);
    speaking_places_speak(view, view.commands@.len() as int);
    let places = speaking_places(view, view.commands@.len() as int);
    let at = choose|at: int| 0 <= at < places.len() && places[at] == k as usize;
    assert(view.speaks(places[at] as int));
    assert(view.beats(k, i));
    k
}

/// A retry is the same send: what is issued anew carries the message, the sender and the
/// place in a chain of sends of the attempt that it replaces, and is otherwise a command
/// of its own, issued now and good for its time to live.
pub proof fn a_reissue_is_the_same_send(
    before: SessionCommandEntry,
    id: String,
    device: &str,
    last_message: Option<String>,
    now: i64,
    ttl: i64,
    r: SessionCommandEntry,
)
    requires
        i64::MIN <= now + ttl <= i64::MAX,
        call_ensures(reissue, (before, id, device, last_message, now, ttl), r),
    ensures
        r.payload == before.payload && r.user_id == before.user_id && r.origin == before.origin,
        r.id == id && r.issued_by@ == device@ && r.based_on == last_message,
        r.issued_at == now,
        r.expires_at is Some && r.expires_at->0 - r.issued_at == ttl,
        r.status == SessionCommandStatus::Pending && r.resolution is None,
{
}

/// The host plans a retry with the commands that it is executing.
pub proof fn the_host_plans_the_same_retry(
    host: &DocHost,
    view: RetryView,
    r: RetryPlan,
    planned: RetryPlan,
)
    requires
        view.processed@.len() == view.commands@.len(),
        *view.executing == host.executing,
        call_ensures(
            DocHost::retry_delivery,
            (host, view.commands, view.processed, view.landed),
            r,
        ),
        call_ensures(plan_retry, (&view,), planned),
    ensures
        r.escorts@ == planned.escorts@,
        r.reissues@ == planned.reissues@,
{
    assert(view == (RetryView {
        commands: view.commands,
        processed: view.processed,
        executing: &host.executing,
        landed: view.landed,
    }));
}

/// A dead attempt that is still marked as pending is told so, and no other is.
pub proof fn a_dead_attempt_is_marked(status: SessionCommandStatus, r: Option<&'static str>)
    requires
        call_ensures(superseded_by_retry, (status,), r),
    ensures
        r is Some <==> status == SessionCommandStatus::Pending,
        r is Some ==> r->0@ == "interrupted before completion — superseded by retry"@,
{
}

} // verus!
