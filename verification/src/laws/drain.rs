//! Laws of dealing with commands, and of sends from agent to agent.

use vstd::prelude::*;

use crate::auth::types::EngineError;
use crate::host::commands::{CommandDisposition, SessionCommandEntry, SessionCommandStatus};
use crate::host::drain::{
    admit_relayed, awaiting_attachments, claim_relayed, is_owed, may_drain, outcome_of, owes_work,
    relayed_done, relayed_recorded, swept_outcome, DrainGate, DrainPass, DrainStep, RelayStep,
};
use crate::host::handle::ChatDocHandle;
use crate::host::maps::TextSet;
use crate::host::send::{AgentSend, SendLimits};
use crate::text::is_blank;

verus! {

/// Commands are dealt with on the open handle of the chat, with an executor, on its host,
/// and nowhere else.
pub proof fn commands_are_dealt_with_on_their_host(
    handle: &ChatDocHandle,
    current: bool,
    executor: bool,
    is_host: bool,
    r: bool,
)
    requires
        call_ensures(may_drain, (handle, current, executor, is_host), r),
    ensures
        r ==> current && executor && is_host && !handle.generation_frozen && !handle.retired,
        current && executor && is_host && !handle.generation_frozen && !handle.retired ==> r,
{
}

/// A command was taken by a process that is gone: it is pending and in the ledger, this
/// pass did not leave it alone, and nobody is at it.
pub open spec fn was_lost(
    pass: DrainPass,
    commands: Seq<SessionCommandEntry>,
    processed: Seq<bool>,
    executing: TextSet,
    i: int,
) -> bool {
    &&& 0 <= i < commands.len()
    &&& commands[i].status == SessionCommandStatus::Pending
    &&& processed[i]
    &&& !pass.skipped.has(commands[i].id@)
    &&& !executing.has(commands[i].id@)
}

/// No earlier command with the same id was lost.
pub open spec fn is_first_lost(
    pass: DrainPass,
    commands: Seq<SessionCommandEntry>,
    processed: Seq<bool>,
    executing: TextSet,
    i: int,
) -> bool {
    was_lost(pass, commands, processed, executing, i) && forall|j: int|
        0 <= j < i && #[trigger] was_lost(pass, commands, processed, executing, j)
            ==> commands[j].id@ != commands[i].id@
}

proof fn swept_is_lost(
    pass: DrainPass,
    commands: Seq<SessionCommandEntry>,
    processed: Seq<bool>,
    executing: TextSet,
    i: int,
)
    ensures
        pass.is_dead(commands, processed, executing, i) == was_lost(
            pass,
            commands,
            processed,
            executing,
            i,
        ),
        pass.is_swept(commands, processed, executing, i) == is_first_lost(
            pass,
            commands,
            processed,
            executing,
            i,
        ),
{
    if pass.is_swept(commands, processed, executing, i) {
        assert forall|j: int|
            0 <= j < i && #[trigger] was_lost(
                pass,
                commands,
                processed,
                executing,
                j,
            ) implies commands[j].id@ != commands[i].id@ by {
            assert(pass.is_dead(commands, processed, executing, j));
        }
    }
    if is_first_lost(pass, commands, processed, executing, i) {
        assert forall|j: int|
            0 <= j < i && #[trigger] pass.is_dead(
                commands,
                processed,
                executing,
                j,
            ) implies commands[j].id@ != commands[i].id@ by {
            assert(was_lost(pass, commands, processed, executing, j));
        }
    }
}

proof fn swept_places_are_the_lost(
    pass: DrainPass,
    commands: Seq<SessionCommandEntry>,
    processed: Seq<bool>,
    executing: TextSet,
    n: int,
)
    requires
        0 <= n <= commands.len(),
        commands.len() <= usize::MAX,
    ensures
        ({
            let places = pass.swept_places(commands, processed, executing, n);
            &&& forall|a: int, b: int| 0 <= a < b < places.len() ==> places[a] < places[b]
            &&& forall|k: int|
                0 <= k < places.len() ==> (#[trigger] places[k]) < n && is_first_lost(
                    pass,
                    commands,
                    processed,
                    executing,
                    places[k] as int,
                )
            &&& forall|i: int|
                0 <= i < n && #[trigger] is_first_lost(pass, commands, processed, executing, i)
                    ==> places.contains(i as usize)
        }),
    decreases n,
{
    if n > 0 {
        swept_places_are_the_lost(pass, commands, processed, executing, n - 1);
        swept_is_lost(pass, commands, processed, executing, n - 1);
        let rest = pass.swept_places(commands, processed, executing, n - 1);
        let places = pass.swept_places(commands, processed, executing, n);
        assert forall|i: int|
            0 <= i < n && #[trigger] is_first_lost(
                pass,
                commands,
                processed,
                executing,
                i,
            ) implies places.contains(i as usize) by {
            if i < n - 1 {
                let k = choose|k: int| 0 <= k < rest.len() && rest[k] == i as usize;
                assert(places[k] == i as usize);
            } else {
                assert(places[rest.len() as int] == i as usize);
            }
        }
    }
}

/// Every command that was lost gets its outcome, once, in order, and nothing else does;
/// and this pass leaves them alone from then on.
pub proof fn exactly_what_was_lost_is_swept(
    pass: &mut DrainPass,
    commands: &Vec<SessionCommandEntry>,
    processed: &Vec<bool>,
    executing: &TextSet,
    r: Vec<usize>,
)
    requires
        processed@.len() == commands@.len(),
        commands@.len() <= usize::MAX,
        call_ensures(DrainPass::sweep, (pass, commands, processed, executing), r),
    ensures
        forall|a: int, b: int| 0 <= a < b < r@.len() ==> r@[a] < r@[b],
        forall|k: int|
            0 <= k < r@.len() ==> is_first_lost(
                *old(pass),
                commands@,
                processed@,
                *executing,
                #[trigger] r@[k] as int,
            ),
        forall|i: int|
            0 <= i < commands@.len() && #[trigger] is_first_lost(
                *old(pass),
                commands@,
                processed@,
                *executing,
                i,
            ) ==> r@.contains(i as usize),
        forall|i: int|
            0 <= i < commands@.len() && #[trigger] was_lost(
                *old(pass),
                commands@,
                processed@,
                *executing,
                i,
            ) ==> final(pass).skipped.has(commands@[i].id@),
        forall|k: Seq<char>|
            old(pass).skipped.has(k) ==> #[trigger] final(pass).skipped.has(k),
        forall|k: Seq<char>| #[trigger]
            final(pass).skipped.has(k) && !old(pass).skipped.has(k) ==> exists|i: int|
                #[trigger] was_lost(*old(pass), commands@, processed@, *executing, i)
                    && commands@[i].id@ == k,
{
    let n = commands@.len() as int;
    assert forall|k: Seq<char>| #[trigger] final(pass).skipped.has(k) && !old(pass).skipped.has(
        k,
    ) implies exists|i: int|
        #[trigger] was_lost(*old(pass), commands@, processed@, *executing, i) && commands@[i].id@
            == k by {
        assert(old(pass).id_is_dead(commands@, processed@, *executing, n, k));
        let i = choose|i: int|
            0 <= i < n && #[trigger] old(pass).is_dead(commands@, processed@, *executing, i)
                && commands@[i].id@ == k;
        assert(was_lost(*old(pass), commands@, processed@, *executing, i));
    }
    swept_places_are_the_lost(*old(pass), commands@, processed@, *executing, n);
    assert forall|i: int|
        0 <= i < commands@.len() && #[trigger] was_lost(
            *old(pass),
            commands@,
            processed@,
            *executing,
            i,
        ) implies final(pass).skipped.has(commands@[i].id@) by {
        swept_is_lost(*old(pass), commands@, processed@, *executing, i);
        assert(old(pass).id_is_dead(commands@, processed@, *executing, n, commands@[i].id@));
    }
}

/// A lost command is rejected, and says that it can be sent again.
pub proof fn a_lost_command_is_rejected(r: (SessionCommandStatus, String))
    requires
        call_ensures(swept_outcome, (), r),
    ensures
        r.0 == SessionCommandStatus::Rejected,
        r.1@ == "interrupted before completion — retry to send again"@,
{
}

/// The next command is the first that is pending, not in the ledger and not left alone.
pub proof fn the_first_that_waits_is_next(
    pass: &DrainPass,
    commands: &Vec<SessionCommandEntry>,
    processed: &Vec<bool>,
    r: Option<usize>,
    i: int,
)
    requires
        processed@.len() == commands@.len(),
        call_ensures(DrainPass::next, (pass, commands, processed), r),
    ensures
        0 <= i < commands@.len() && commands@[i].status == SessionCommandStatus::Pending
            && !processed@[i] && !pass.skipped.has(commands@[i].id@) ==> r is Some && r->0 <= i,
        r matches Some(k) ==> k < commands@.len() && commands@[k as int].status
            == SessionCommandStatus::Pending && !processed@[k as int] && !pass.skipped.has(
            commands@[k as int].id@,
        ),
{
    if 0 <= i < commands@.len() && commands@[i].status == SessionCommandStatus::Pending
        && !processed@[i] && !pass.skipped.has(commands@[i].id@) {
        assert(pass.takes(commands@, processed@, i));
    }
    match r {
        Some(k) => {
            assert(pass.takes(commands@, processed@, k as int));
            assert(forall|j: int| 0 <= j < k ==> !#[trigger] pass.takes(commands@, processed@, j));
        },
        None => {
            assert(pass.takes_none(commands@, processed@));
        },
    }
}

/// A command that is to be executed waits for its attachments, for fifteen minutes from
/// its issue, and is rejected then. Nothing else waits.
pub proof fn attachments_are_waited_for_a_quarter_of_an_hour(
    pass: &DrainPass,
    disposition: CommandDisposition,
    missing: usize,
    issued_at: i64,
    now: i64,
    r: DrainGate,
    outcome: Option<(SessionCommandStatus, String)>,
)
    requires
        call_ensures(DrainPass::gate, (pass, disposition, missing, issued_at, now), r),
        call_ensures(DrainGate::outcome, (r,), outcome),
    ensures
        r == DrainGate::Open <==> disposition != CommandDisposition::Execute || missing == 0,
        r == DrainGate::Wait <==> disposition == CommandDisposition::Execute && missing > 0 && now
            < issued_at + 900_000,
        r == DrainGate::Reject <==> disposition == CommandDisposition::Execute && missing > 0 && now
            >= issued_at + 900_000,
        outcome is Some <==> r == DrainGate::Reject,
        outcome matches Some((status, note)) ==> status == SessionCommandStatus::Rejected && note@
            == "attachments never arrived"@,
{
}

/// A command is claimed by one road at a time. The one that comes second leaves it alone.
pub proof fn a_command_is_claimed_once(
    pass: &mut DrainPass,
    executing: &mut TextSet,
    id: &str,
    r: bool,
    later: &mut TextSet,
    disposition: CommandDisposition,
    again: bool,
)
    requires
        call_ensures(DrainPass::claim, (pass, executing, id), r),
        *old(later) == *final(executing),
        call_ensures(claim_relayed, (disposition, later, id), again),
    ensures
        r <==> !old(executing).has(id@),
        final(executing).has(id@),
        r ==> *final(pass) == *old(pass),
        !r ==> final(pass).skipped.has(id@),
        !r ==> forall|k: Seq<char>|
            k != id@ ==> #[trigger] final(pass).skipped.has(k) == old(pass).skipped.has(k),
        !again,
        forall|k: Seq<char>|
            k != id@ ==> #[trigger] final(later).has(k) == old(executing).has(k),
{
    assert forall|k: Seq<char>| k != id@ implies #[trigger] final(later).has(k) == old(executing).has(k) by {
        assert(final(executing).has(k) == old(executing).has(k));
    }
}

/// A forwarded command is claimed unless it was dealt with or is being.
pub proof fn a_forwarded_command_is_claimed_once(
    disposition: CommandDisposition,
    executing: &mut TextSet,
    id: &str,
    r: bool,
)
    requires
        call_ensures(claim_relayed, (disposition, executing, id), r),
    ensures
        r <==> disposition != CommandDisposition::Skip && !old(executing).has(id@),
        disposition != CommandDisposition::Skip ==> final(executing).has(id@),
        disposition == CommandDisposition::Skip ==> final(executing).has(id@) == old(executing).has(id@),
{
}

/// Nothing is executed that was not recorded; what expired or was superseded gets that
/// outcome, what is to be skipped is left alone, and everything that goes no further is
/// free again.
pub proof fn a_command_is_recorded_before_it_runs(
    pass: &mut DrainPass,
    executing: &mut TextSet,
    id: &str,
    ok: bool,
    disposition: CommandDisposition,
    r: DrainStep,
)
    requires
        call_ensures(DrainPass::recorded, (pass, executing, id, ok, disposition), r),
    ensures
        r == DrainStep::Halt <==> !ok,
        r == DrainStep::Execute <==> ok && disposition == CommandDisposition::Execute,
        r == DrainStep::Leave <==> ok && disposition == CommandDisposition::Skip,
        r == DrainStep::Resolve(SessionCommandStatus::Expired) <==> ok && disposition
            == CommandDisposition::Expired,
        r == DrainStep::Resolve(SessionCommandStatus::Superseded) <==> ok && disposition
            == CommandDisposition::Superseded,
        r == DrainStep::Halt || r == DrainStep::Leave ==> !final(executing).has(id@),
        !(r == DrainStep::Halt || r == DrainStep::Leave) ==> final(executing).has(id@) == old(executing).has(id@),
        r == DrainStep::Leave ==> final(pass).skipped.has(id@),
        r != DrainStep::Leave ==> final(pass).skipped.has(id@) == old(pass).skipped.has(id@),
        forall|k: Seq<char>|
            k != id@ ==> #[trigger] final(pass).skipped.has(k) == old(pass).skipped.has(k),
        forall|k: Seq<char>|
            k != id@ ==> #[trigger] final(executing).has(k) == old(executing).has(k),
{
}

/// An execution's outcome is its own; a failure is a rejection that says why.
pub proof fn a_failure_is_a_rejection(
    result: Result<(SessionCommandStatus, Option<String>), EngineError>,
    r: (SessionCommandStatus, Option<String>),
    answer: Result<&'static str, EngineError>,
)
    requires
        call_ensures(outcome_of, (result,), r),
        call_ensures(relayed_done, (result,), answer),
    ensures
        result is Ok ==> r == result->Ok_0 && answer is Ok && answer->Ok_0@ == "executed"@,
        result is Err ==> r.0 == SessionCommandStatus::Rejected && r.1 is Some && r.1->0@
            == result->Err_0.text() && answer is Err && answer->Err_0 == result->Err_0,
{
}

/// A host owes work while a command is pending and not in the ledger, and waits for
/// attachments while one of those misses any.
pub proof fn what_waits_is_owed(
    commands: &Vec<SessionCommandEntry>,
    processed: &Vec<bool>,
    missing: &Vec<usize>,
    owes: bool,
    awaits: bool,
)
    requires
        processed@.len() == commands@.len(),
        missing@.len() == commands@.len(),
        call_ensures(owes_work, (commands, processed), owes),
        call_ensures(awaiting_attachments, (commands, processed, missing), awaits),
    ensures
        owes <==> exists|i: int|
            0 <= i < commands@.len() && (#[trigger] commands@[i]).status
                == SessionCommandStatus::Pending && !processed@[i],
        awaits <==> exists|i: int|
            0 <= i < commands@.len() && (#[trigger] commands@[i]).status
                == SessionCommandStatus::Pending && !processed@[i] && missing@[i] != 0,
        awaits ==> owes,
{
    if exists|i: int|
        0 <= i < commands@.len() && (#[trigger] commands@[i]).status
            == SessionCommandStatus::Pending && !processed@[i] {
        let i = choose|i: int|
            0 <= i < commands@.len() && (#[trigger] commands@[i]).status
                == SessionCommandStatus::Pending && !processed@[i];
        assert(is_owed(commands@, processed@, i));
        assert(owes);
    }
    if owes {
        let i = choose|i: int| #[trigger] is_owed(commands@, processed@, i);
        assert(commands@[i].status == SessionCommandStatus::Pending);
    }
    if awaits {
        let i = choose|i: int|
            0 <= i < commands@.len() && (#[trigger] commands@[i]).status
                == SessionCommandStatus::Pending && !processed@[i] && missing@[i] > 0;
        assert(is_owed(commands@, processed@, i));
    }
}

/// A forwarded command is admitted once its attachments are here and something can run
/// it, runs on a fresh record alone, and is answered by what it came to.
pub proof fn a_forwarded_command_is_answered(
    missing: usize,
    executor: bool,
    admitted: Result<(), EngineError>,
    record: Result<bool, EngineError>,
    disposition: CommandDisposition,
    r: RelayStep,
)
    requires
        call_ensures(admit_relayed, (missing, executor), admitted),
        call_ensures(relayed_recorded, (record, disposition), r),
    ensures
        admitted is Ok <==> missing == 0 && executor,
        missing > 0 ==> admitted->Err_0.text() == "attachments not landed yet"@,
        missing == 0 && !executor ==> admitted->Err_0.text() == "executor unavailable"@,
        record is Err ==> r == RelayStep::Failed(record->Err_0),
        r is Execute <==> record is Ok && record->Ok_0 && disposition
            == CommandDisposition::Execute,
        record is Ok && (!record->Ok_0 || disposition == CommandDisposition::Skip) ==> r is Answer
            && r->Answer_0@ == "duplicate"@,
        record is Ok && record->Ok_0 && disposition == CommandDisposition::Expired ==> r is Answer
            && r->Answer_0@ == "expired"@,
        record is Ok && record->Ok_0 && disposition == CommandDisposition::Superseded ==> r
            is Answer && r->Answer_0@ == "superseded"@,
{
}

// ---------------------------------------------------------------------------
// Sends
// ---------------------------------------------------------------------------

/// How deep the live turn of a chat is.
pub open spec fn is_deep(limits: SendLimits, chat: Seq<char>, depth: int) -> bool {
    match limits.turn_origins.at(chat) {
        Some(hops) => depth == hops,
        None => depth == 0,
    }
}

/// How many sends the live turn of a chat has made.
pub open spec fn has_sent(limits: SendLimits, chat: Seq<char>, sends: int) -> bool {
    match limits.send_budgets.at(chat) {
        Some(n) => sends == n,
        None => sends == 0,
    }
}

/// A send goes to another chat, with words in it, from a turn fewer than four sends deep
/// that has made fewer than eight. It is a steer with those words, in the name of the
/// chat it comes from, one send deeper. Only what goes through is counted.
pub proof fn a_send_is_one_deeper_and_counted(
    limits: &mut SendLimits,
    from: &str,
    target: &str,
    message: &str,
    message_id: String,
    r: Result<AgentSend, EngineError>,
    wordless: bool,
    depth: int,
    sends: int,
)
    requires
        call_ensures(SendLimits::send_to_session, (limits, from, target, message, message_id), r),
        call_ensures(is_blank, (message,), wordless),
        is_deep(*old(limits), from@, depth),
        has_sent(*old(limits), from@, sends),
    ensures
        r is Ok <==> from@ != target@ && !wordless && depth < 4 && sends < 8,
        from@ == target@ ==> r->Err_0.text() == "cannot send to the own session"@,
        from@ != target@ && wordless ==> r->Err_0.text() == "empty message"@,
        from@ != target@ && !wordless && depth >= 4 ==> r->Err_0.text()
            == "agent send chain too deep (>4 hops) — refusing to ping-pong"@,
        from@ != target@ && !wordless && depth < 4 && sends >= 8 ==> r->Err_0.text()
            == "send budget exhausted (8 per turn)"@,
        r matches Ok(send) ==> {
            &&& send.payload is Steer && send.payload->prompt@ == message@
            &&& send.payload->Steer_message_id is Some && send.payload->Steer_message_id->0@
                == message_id@
            &&& send.user_id is Some && send.user_id->0@ == "agent:"@ + from@
            &&& send.origin is Some && send.origin->0.from_chat_id@ == from@
            &&& send.origin->0.hops == depth + 1
        },
        r is Ok ==> has_sent(*final(limits), from@, sends + 1),
        r is Err ==> has_sent(*final(limits), from@, sends),
        is_deep(*final(limits), from@, depth),
{
    assert(old(limits).depth(from@) == depth);
    assert(old(limits).spent(from@) == sends);
}

/// A turn that a run or a steer starts is as deep as where that came from, and has all
/// its sends before it; nothing else starts one, and other chats' turns go on.
pub proof fn a_turn_is_as_deep_as_its_command(
    limits: &mut SendLimits,
    chat: &str,
    entry: &SessionCommandEntry,
    other: Seq<char>,
    depth: int,
    sends: int,
)
    requires
        call_ensures(SendLimits::begin_turn, (limits, chat, entry), ()),
        other != chat@,
        is_deep(*old(limits), other, depth),
        has_sent(*old(limits), other, sends),
    ensures
        (entry.payload is Run || entry.payload is Steer) && entry.origin is None ==> is_deep(
            *final(limits),
            chat@,
            0,
        ),
        (entry.payload is Run || entry.payload is Steer) && entry.origin is Some ==> is_deep(
            *final(limits),
            chat@,
            entry.origin->0.hops as int,
        ),
        entry.payload is Run || entry.payload is Steer ==> has_sent(*final(limits), chat@, 0),
        entry.payload is Interrupt || entry.payload is RespondInput ==> *final(limits) == *old(limits),
        is_deep(*final(limits), other, depth),
        has_sent(*final(limits), other, sends),
{
    assert(final(limits).depth(other) == old(limits).depth(other));
    assert(final(limits).spent(other) == old(limits).spent(other));
}

} // verus!
