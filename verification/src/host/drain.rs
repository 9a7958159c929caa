//! Dealing with the commands of a chat on its host: each is looked at, recorded as
//! processed before it is executed, executed, and given its outcome.
//!
//! The ledger of processed commands makes this happen at most once for each id, however
//! often a pass runs, and whichever road a command came by.

use vstd::prelude::*;

use super::commands::{CommandDisposition, SessionCommandEntry, SessionCommandStatus};
use super::handle::ChatDocHandle;
use super::maps::TextSet;
use crate::auth::types::{error, failed_with, EngineError};

verus! {

/// A command whose attachments are still on their way waits at most this long before it
/// is rejected loudly — a chat must never wedge behind bytes that aren't coming.
pub const ATTACHMENT_WAIT_MAX_MS: i64 = 900_000;

/// How often a chat whose queue waits for attachments is looked at again. The happy path
/// is driven by events; this timer only covers the give-up transition and missed kicks.
pub const ATTACHMENT_WAIT_RECHECK_MS: u64 = 30_000;

pub const INTERRUPTED: &'static str = "interrupted before completion — retry to send again";

pub const NEVER_ARRIVED: &'static str = "attachments never arrived";

/// Whether a pass over a chat's commands may begin: on the open handle of the chat, with
/// an executor, on its host.
pub fn may_drain(handle: &ChatDocHandle, current: bool, executor: bool, is_host: bool) -> (r: bool)
    ensures
        r == (current && !handle.generation_frozen && !handle.retired && executor && is_host),
{
    current && !handle.generation_frozen && !handle.retired && executor && is_host
}

/// One pass over the commands of a chat: the ones that it decided to leave alone.
#[derive(Debug)]
pub struct DrainPass {
    pub skipped: TextSet,
}

/// What stands between a command and its execution.
#[derive(Debug, Clone, Copy, PartialEq, Eq, Structural)]
pub enum DrainGate {
    /// Its attachments are on their way: the pass ends, and a later one goes on here, so
    /// that the order is kept.
    Wait,
    /// Its attachments never came: record it as processed, and reject it.
    Reject,
    /// Nothing: claim it.
    Open,
}

impl DrainGate {
    /// The outcome of a command that gets no further.
    pub fn outcome(self) -> (r: Option<(SessionCommandStatus, String)>)
        ensures
            self != DrainGate::Reject ==> r is None,
            self == DrainGate::Reject ==> (r matches Some((status, note)) && status
                == SessionCommandStatus::Rejected && note@ == NEVER_ARRIVED@),
    {
        match self {
            DrainGate::Reject => Some((SessionCommandStatus::Rejected, NEVER_ARRIVED.to_owned())),
            _ => None,
        }
    }
}

/// The outcome of a command that the sweep found dead.
pub fn swept_outcome() -> (r: (SessionCommandStatus, String))
    ensures
        r.0 == SessionCommandStatus::Rejected,
        r.1@ == INTERRUPTED@,
{
    (SessionCommandStatus::Rejected, INTERRUPTED.to_owned())
}

/// What follows the record in the ledger.
#[derive(Debug, Clone, Copy, PartialEq, Eq, Structural)]
pub enum DrainStep {
    /// The record failed: the pass ends, and nothing was executed.
    Halt,
    /// Leave the command alone.
    Leave,
    /// Write this outcome, then release the command.
    Resolve(SessionCommandStatus),
    /// Execute the command, write its outcome, then release it.
    Execute,
}

impl DrainPass {
    pub fn new() -> (r: Self)
        ensures
            forall|k: Seq<char>| !#[trigger] r.skipped.has(k),
    {
        DrainPass { skipped: TextSet::new() }
    }

    /// The command was taken and never got its outcome, and nobody is at it: the process
    /// died between the two.
    pub open spec fn is_dead(
        self,
        commands: Seq<SessionCommandEntry>,
        processed: Seq<bool>,
        executing: TextSet,
        i: int,
    ) -> bool {
        &&& 0 <= i < commands.len()
        &&& commands[i].status == SessionCommandStatus::Pending
        &&& !self.skipped.has(commands[i].id@)
        &&& processed[i]
        &&& !executing.has(commands[i].id@)
    }

    /// The command is dead, and the first with its id that is.
    pub open spec fn is_swept(
        self,
        commands: Seq<SessionCommandEntry>,
        processed: Seq<bool>,
        executing: TextSet,
        i: int,
    ) -> bool {
        self.is_dead(commands, processed, executing, i) && forall|j: int|
            0 <= j < i && #[trigger] self.is_dead(commands, processed, executing, j)
                ==> commands[j].id@ != commands[i].id@
    }

    /// The places, among the first so many, of the dead commands.
    pub open spec fn swept_places(
        self,
        commands: Seq<SessionCommandEntry>,
        processed: Seq<bool>,
        executing: TextSet,
        n: int,
    ) -> Seq<usize>
        decreases n,
    {
        if n <= 0 {
            Seq::empty()
        } else {
            let rest = self.swept_places(commands, processed, executing, n - 1);
            if self.is_swept(commands, processed, executing, n - 1) {
                rest.push((n - 1) as usize)
            } else {
                rest
            }
        }
    }

    /// One of the first so many commands is dead and has the id.
    pub open spec fn id_is_dead(
        self,
        commands: Seq<SessionCommandEntry>,
        processed: Seq<bool>,
        executing: TextSet,
        n: int,
        id: Seq<char>,
    ) -> bool {
        exists|i: int|
            0 <= i < n && #[trigger] self.is_dead(commands, processed, executing, i)
                && commands[i].id@ == id
    }

    /// Dead-command sweep: the places of the commands that were taken and never got an
    /// outcome. Left alone, no pass and no retry could ever reach them; each gets its
    /// `swept_outcome`, so that the truth lands in the document.
    pub fn sweep(
        &mut self,
        commands: &Vec<SessionCommandEntry>,
        processed: &Vec<bool>,
        executing: &TextSet,
    ) -> (r: Vec<usize>)
        requires
            processed@.len() == commands@.len(),
        ensures
            r@ == old(self).swept_places(
                commands@,
                processed@,
                *executing,
                commands@.len() as int,
            ),
            forall|k: Seq<char>| #[trigger]
                final(self).skipped.has(k) == (old(self).skipped.has(k) || old(self).id_is_dead(
                    commands@,
                    processed@,
                    *executing,
                    commands@.len() as int,
                    k,
                )),
    {
        let ghost before = *self;
        let mut out: Vec<usize> = Vec::new();
        let mut i: usize = 0;
        while i < commands.len()
            invariant
                i <= commands@.len(),
                processed@.len() == commands@.len(),
                out@ == before.swept_places(commands@, processed@, *executing, i as int),
                forall|k: Seq<char>| #[trigger]
                    self.skipped.has(k) == (before.skipped.has(k) || before.id_is_dead(
                        commands@,
                        processed@,
                        *executing,
                        i as int,
                        k,
                    )),
            decreases commands@.len() - i,
        {
            let c = &commands[i];
            let ghost mid = *self;
            let ghost id = c.id@;
            let pending = c.status == SessionCommandStatus::Pending;
            let dead = pending && processed[i] && !executing.contains(c.id.as_str());
            let new = !self.skipped.contains(c.id.as_str());
            if dead && new {
                out.push(i);
                let _ = self.skipped.insert(c.id.clone());
            }
            proof {
                assert(mid.skipped.has(id) == (before.skipped.has(id) || before.id_is_dead(
                    commands@,
                    processed@,
                    *executing,
                    i as int,
                    id,
                )));
                assert((dead && new) == before.is_swept(
                    commands@,
                    processed@,
                    *executing,
                    i as int,
                ));
                assert forall|k: Seq<char>| #[trigger]
                    self.skipped.has(k) == (before.skipped.has(k) || before.id_is_dead(
                        commands@,
                        processed@,
                        *executing,
                        i + 1,
                        k,
                    )) by {
                    assert(mid.skipped.has(k) == (before.skipped.has(k) || before.id_is_dead(
                        commands@,
                        processed@,
                        *executing,
                        i as int,
                        k,
                    )));
                    if before.id_is_dead(commands@, processed@, *executing, i as int, k) {
                        let j = choose|j: int|
                            0 <= j < i && #[trigger] before.is_dead(
                                commands@,
                                processed@,
                                *executing,
                                j,
                            ) && commands@[j].id@ == k;
                        assert(before.is_dead(commands@, processed@, *executing, j));
                        assert(before.id_is_dead(commands@, processed@, *executing, i + 1, k));
                    }
                    if before.is_dead(commands@, processed@, *executing, i as int) && k == id {
                        assert(before.id_is_dead(commands@, processed@, *executing, i + 1, k));
                    }
                    if before.id_is_dead(commands@, processed@, *executing, i + 1, k)
                        && !before.id_is_dead(commands@, processed@, *executing, i as int, k) {
                        let j = choose|j: int|
                            0 <= j < i + 1 && #[trigger] before.is_dead(
                                commands@,
                                processed@,
                                *executing,
                                j,
                            ) && commands@[j].id@ == k;
                        assert(j == i);
                    }
                }
            }
            i = i + 1;
        }
        out
    }

    /// The pass would take the command.
    pub open spec fn takes(
        self,
        commands: Seq<SessionCommandEntry>,
        processed: Seq<bool>,
        i: int,
    ) -> bool {
        &&& 0 <= i < commands.len()
        &&& commands[i].status == SessionCommandStatus::Pending
        &&& !self.skipped.has(commands[i].id@)
        &&& !processed[i]
    }

    /// The pass would take none of the commands.
    pub open spec fn takes_none(
        self,
        commands: Seq<SessionCommandEntry>,
        processed: Seq<bool>,
    ) -> bool {
        forall|j: int| 0 <= j < commands.len() ==> !#[trigger] self.takes(commands, processed, j)
    }

    /// The next command: the first that is pending, not left alone and not processed.
    pub fn next(&self, commands: &Vec<SessionCommandEntry>, processed: &Vec<bool>) -> (r: Option<
        usize,
    >)
        requires
            processed@.len() == commands@.len(),
        ensures
            match r {
                Some(i) => self.takes(commands@, processed@, i as int) && forall|j: int|
                    0 <= j < i ==> !#[trigger] self.takes(commands@, processed@, j),
                None => forall|j: int|
                    0 <= j < commands@.len() ==> !#[trigger] self.takes(commands@, processed@, j),
            },
            r is None ==> self.takes_none(commands@, processed@),
    {
        let mut i: usize = 0;
        while i < commands.len()
            invariant
                i <= commands@.len(),
                processed@.len() == commands@.len(),
                forall|j: int| 0 <= j < i ==> !#[trigger] self.takes(commands@, processed@, j),
            decreases commands@.len() - i,
        {
            let c = &commands[i];
            if c.status == SessionCommandStatus::Pending && !self.skipped.contains(c.id.as_str())
                && !processed[i] {
                return Some(i);
            }
            i = i + 1;
        }
        None
    }

    /// The attachment gate, before anything is recorded: a command that waits must stay
    /// eligible. The wait is bounded; past it the command fails.
    pub fn gate(
        &self,
        disposition: CommandDisposition,
        missing: usize,
        issued_at: i64,
        now: i64,
    ) -> (r: DrainGate)
        ensures
            r == (if disposition != CommandDisposition::Execute || missing == 0 {
                DrainGate::Open
            } else if now - issued_at < ATTACHMENT_WAIT_MAX_MS {
                DrainGate::Wait
            } else {
                DrainGate::Reject
            }),
    {
        if disposition != CommandDisposition::Execute || missing == 0 {
            return DrainGate::Open;
        }
        if (now as i128) - (issued_at as i128) < (ATTACHMENT_WAIT_MAX_MS as i128) {
            DrainGate::Wait
        } else {
            DrainGate::Reject
        }
    }

    /// Claims a command: it counts as being executed from now on. One that already is,
    /// by another road, is left alone.
    pub fn claim(&mut self, executing: &mut TextSet, id: &str) -> (claimed: bool)
        ensures
            claimed == !old(executing).has(id@),
            final(executing).has(id@),
            forall|k: Seq<char>|
                k != id@ ==> #[trigger] final(executing).has(k) == old(executing).has(k),
            claimed ==> *final(self) == *old(self),
            !claimed ==> forall|k: Seq<char>| #[trigger]
                final(self).skipped.has(k) == (old(self).skipped.has(k) || k == id@),
            !claimed ==> final(self).skipped.has(id@),
    {
        if executing.insert(id.to_owned()) {
            true
        } else {
            let _ = self.skipped.insert(id.to_owned());
            false
        }
    }

    /// Goes on after the record in the ledger: nothing is executed that was not recorded
    /// first, for a crash in between must never run a command twice.
    pub fn recorded(
        &mut self,
        executing: &mut TextSet,
        id: &str,
        ok: bool,
        disposition: CommandDisposition,
    ) -> (r: DrainStep)
        ensures
            r == (if !ok {
                DrainStep::Halt
            } else {
                match disposition {
                    CommandDisposition::Skip => DrainStep::Leave,
                    CommandDisposition::Expired => DrainStep::Resolve(
                        SessionCommandStatus::Expired,
                    ),
                    CommandDisposition::Superseded => DrainStep::Resolve(
                        SessionCommandStatus::Superseded,
                    ),
                    CommandDisposition::Execute => DrainStep::Execute,
                }
            }),
            forall|k: Seq<char>|
                k != id@ ==> #[trigger] final(executing).has(k) == old(executing).has(k),
            final(executing).has(id@) == (old(executing).has(id@) && (r is Resolve || r
                is Execute)),
            forall|k: Seq<char>| #[trigger]
                final(self).skipped.has(k) == (old(self).skipped.has(k) || (r is Leave && k
                    == id@)),
            r is Leave ==> final(self).skipped.has(id@),
            !(r is Leave) ==> *final(self) == *old(self),
            forall|k: Seq<char>|
                k != id@ ==> #[trigger] final(self).skipped.has(k) == old(self).skipped.has(k),
    {
        if !ok {
            let _ = executing.remove(id);
            return DrainStep::Halt;
        }
        match disposition {
            CommandDisposition::Skip => {
                let _ = self.skipped.insert(id.to_owned());
                let _ = executing.remove(id);
                DrainStep::Leave
            },
            CommandDisposition::Expired => DrainStep::Resolve(SessionCommandStatus::Expired),
            CommandDisposition::Superseded => DrainStep::Resolve(SessionCommandStatus::Superseded),
            CommandDisposition::Execute => DrainStep::Execute,
        }
    }
}

/// The outcome of an execution: a failure is a rejection, with its message.
pub fn outcome_of(result: Result<(SessionCommandStatus, Option<String>), EngineError>) -> (r: (
    SessionCommandStatus,
    Option<String>,
))
    ensures
        match result {
            Ok(outcome) => r == outcome,
            Err(e) => r.0 == SessionCommandStatus::Rejected && r.1 is Some && r.1->0@ == e.text(),
        },
{
    match result {
        Ok(outcome) => outcome,
        Err(e) => (SessionCommandStatus::Rejected, Some(e.message().to_owned())),
    }
}

/// The command waits for its host: it is pending, and not processed.
pub open spec fn is_owed(
    commands: Seq<SessionCommandEntry>,
    processed: Seq<bool>,
    i: int,
) -> bool {
    &&& 0 <= i < commands.len()
    &&& commands[i].status == SessionCommandStatus::Pending
    &&& !processed[i]
}

/// No command waits for its host.
pub open spec fn nothing_owed(commands: Seq<SessionCommandEntry>, processed: Seq<bool>) -> bool {
    forall|i: int| !#[trigger] is_owed(commands, processed, i)
}

/// Whether the host of a chat owes work: some command is pending, and not processed.
pub fn owes_work(commands: &Vec<SessionCommandEntry>, processed: &Vec<bool>) -> (r: bool)
    requires
        processed@.len() == commands@.len(),
    ensures
        r == exists|i: int| #[trigger] is_owed(commands@, processed@, i),
        r == !nothing_owed(commands@, processed@),
{
    let mut i: usize = 0;
    while i < commands.len()
        invariant
            i <= commands@.len(),
            processed@.len() == commands@.len(),
            forall|j: int| 0 <= j < i ==> !#[trigger] is_owed(commands@, processed@, j),
        decreases commands@.len() - i,
    {
        if commands[i].status == SessionCommandStatus::Pending && !processed[i] {
            assert(is_owed(commands@, processed@, i as int));
            return true;
        }
        i = i + 1;
    }
    false
}

/// Some command is pending, not processed, and waits for attachments; `missing` says of
/// how many each.
pub fn awaiting_attachments(
    commands: &Vec<SessionCommandEntry>,
    processed: &Vec<bool>,
    missing: &Vec<usize>,
) -> (r: bool)
    requires
        processed@.len() == commands@.len(),
        missing@.len() == commands@.len(),
    ensures
        r == exists|i: int|
            0 <= i < commands@.len() && (#[trigger] commands@[i]).status
                == SessionCommandStatus::Pending && !processed@[i] && missing@[i] > 0,
{
    let mut i: usize = 0;
    while i < commands.len()
        invariant
            i <= commands@.len(),
            processed@.len() == commands@.len(),
            missing@.len() == commands@.len(),
            forall|j: int|
                0 <= j < i ==> !((#[trigger] commands@[j]).status == SessionCommandStatus::Pending
                    && !processed@[j] && missing@[j] > 0),
        decreases commands@.len() - i,
    {
        if commands[i].status == SessionCommandStatus::Pending && !processed[i] && missing[i] > 0 {
            assert(commands@[i as int].status == SessionCommandStatus::Pending);
            return true;
        }
        i = i + 1;
    }
    false
}

// ---------------------------------------------------------------------------
// Commands that a peer forwards
// ---------------------------------------------------------------------------

/// Admits a forwarded command: its attachments have to be here first, and there has to
/// be an executor.
pub fn admit_relayed(missing: usize, executor: bool) -> (r: Result<(), EngineError>)
    ensures
        missing > 0 ==> failed_with(r, "attachments not landed yet"@),
        missing == 0 && !executor ==> failed_with(r, "executor unavailable"@),
        missing == 0 && executor ==> r is Ok,
{
    if missing > 0 {
        return Err(error("attachments not landed yet"));
    }
    if !executor {
        return Err(error("executor unavailable"));
    }
    Ok(())
}

/// Claims a forwarded command; one that was dealt with, or is being, is a duplicate.
pub fn claim_relayed(disposition: CommandDisposition, executing: &mut TextSet, id: &str) -> (
claimed: bool)
    ensures
        claimed == (disposition != CommandDisposition::Skip && !old(executing).has(id@)),
        final(executing).has(id@) == (old(executing).has(id@) || disposition
            != CommandDisposition::Skip),
        forall|k: Seq<char>|
            k != id@ ==> #[trigger] final(executing).has(k) == old(executing).has(k),
{
    if disposition == CommandDisposition::Skip {
        return false;
    }
    executing.insert(id.to_owned())
}

/// What follows the record of a forwarded command.
#[derive(Debug, PartialEq, Eq)]
pub enum RelayStep {
    Failed(EngineError),
    /// Answer this; nothing is executed.
    Answer(&'static str),
    Execute,
}

/// Goes on after the record of a forwarded command: `Ok(false)` says that it was there
/// already. Only a fresh record leads to an execution.
pub fn relayed_recorded(record: Result<bool, EngineError>, disposition: CommandDisposition) -> (r:
    RelayStep)
    ensures
        match record {
            Err(e) => r == RelayStep::Failed(e),
            Ok(false) => r is Answer && r->Answer_0@ == "duplicate"@,
            Ok(true) => match disposition {
                CommandDisposition::Skip => r is Answer && r->Answer_0@ == "duplicate"@,
                CommandDisposition::Expired => r is Answer && r->Answer_0@ == "expired"@,
                CommandDisposition::Superseded => r is Answer && r->Answer_0@ == "superseded"@,
                CommandDisposition::Execute => r is Execute,
            },
        },
{
    match record {
        Err(e) => RelayStep::Failed(e),
        Ok(fresh) => {
            if !fresh {
                return RelayStep::Answer("duplicate");
            }
            match disposition {
                CommandDisposition::Skip => RelayStep::Answer("duplicate"),
                CommandDisposition::Expired => RelayStep::Answer("expired"),
                CommandDisposition::Superseded => RelayStep::Answer("superseded"),
                CommandDisposition::Execute => RelayStep::Execute,
            }
        },
    }
}

/// The answer to a forwarded command after its execution.
pub fn relayed_done(result: Result<(SessionCommandStatus, Option<String>), EngineError>) -> (r:
    Result<&'static str, EngineError>)
    ensures
        match result {
            Ok(_) => r is Ok && r->Ok_0@ == "executed"@,
            Err(e) => r == Err::<&'static str, EngineError>(e),
        },
{
    match result {
        Ok(_) => Ok("executed"),
        Err(e) => Err(e),
    }
}

// ---------------------------------------------------------------------------
// Laws
// ---------------------------------------------------------------------------

/// A command that is in the ledger is never taken again, by any pass, so none is
/// executed twice.
pub proof fn a_processed_command_is_never_taken(
    pass: DrainPass,
    commands: Vec<SessionCommandEntry>,
    processed: Vec<bool>,
    taken: usize,
)
    requires
        processed@.len() == commands@.len(),
        call_ensures(DrainPass::next, (&pass, &commands, &processed), Some(taken)),
    ensures
        !processed@[taken as int],
        commands@[taken as int].status == SessionCommandStatus::Pending,
{
}

/// A forwarded command is executed only after it was recorded, and only by a fresh
/// record: the record goes before the execution.
pub proof fn the_record_goes_first(
    record: Result<bool, EngineError>,
    disposition: CommandDisposition,
    step: RelayStep,
)
    requires
        call_ensures(relayed_recorded, (record, disposition), step),
        step is Execute,
    ensures
        record == Ok::<bool, EngineError>(true),
        disposition == CommandDisposition::Execute,
{
}

/// What both roads of a command share: the record of the processed ones, and what was
/// executed, in the order in which it was.
pub struct Roads {
    pub ledger: Set<Seq<char>>,
    pub executed: Seq<Seq<char>>,
}

/// The marks of the commands are those of the record.
pub open spec fn reads_ledger(
    commands: Seq<SessionCommandEntry>,
    processed: Seq<bool>,
    ledger: Set<Seq<char>>,
) -> bool {
    &&& processed.len() == commands.len()
    &&& forall|i: int|
        0 <= i < commands.len() ==> #[trigger] processed[i] == ledger.contains(commands[i].id@)
}

/// A pass reads the record, takes a command from the document, records it and executes
/// it.
pub open spec fn document_road(
    before: Roads,
    after: Roads,
    pass: DrainPass,
    commands: Vec<SessionCommandEntry>,
    processed: Vec<bool>,
    taken: usize,
) -> bool {
    let id = commands@[taken as int].id@;
    &&& reads_ledger(commands@, processed@, before.ledger)
    &&& call_ensures(DrainPass::next, (&pass, &commands, &processed), Some(taken))
    &&& after.ledger == before.ledger.insert(id)
    &&& after.executed == before.executed.push(id)
}

/// A forwarded command is recorded, and executed where the record was a fresh one and
/// nothing else speaks against it.
pub open spec fn forwarded_road(
    before: Roads,
    after: Roads,
    id: Seq<char>,
    disposition: CommandDisposition,
    step: RelayStep,
) -> bool {
    &&& call_ensures(
        relayed_recorded,
        (Ok::<bool, EngineError>(!before.ledger.contains(id)), disposition),
        step,
    )
    &&& after.ledger == before.ledger.insert(id)
    &&& after.executed == (if step is Execute {
        before.executed.push(id)
    } else {
        before.executed
    })
}

/// A command comes by one of the roads.
pub open spec fn road_step(before: Roads, after: Roads) -> bool {
    ||| exists|
        pass: DrainPass,
        commands: Vec<SessionCommandEntry>,
        processed: Vec<bool>,
        taken: usize,
    | #[trigger]
        document_road(before, after, pass, commands, processed, taken)
    ||| exists|id: Seq<char>, disposition: CommandDisposition, step: RelayStep| #[trigger]
        forwarded_road(before, after, id, disposition, step)
}

/// Each state of a history follows from the one before it.
pub open spec fn road_history(history: Seq<Roads>) -> bool
    decreases history.len(),
{
    if history.len() <= 1 {
        history.len() == 1 && history[0].executed.len() == 0
    } else {
        road_history(history.drop_last()) && road_step(
            history.drop_last().last(),
            history.last(),
        )
    }
}

/// A command runs once, over whichever roads and however often it comes, where nothing
/// comes between a reading of the record and the record that follows it: no id is
/// executed twice, and what was executed is in the record.
pub proof fn a_command_runs_once(history: Seq<Roads>)
    requires
        road_history(history),
    ensures
        history.last().executed.no_duplicates(),
        forall|i: int|
            0 <= i < history.last().executed.len() ==> history.last().ledger.contains(
                #[trigger] history.last().executed[i],
            ),
    decreases history.len(),
{
    if history.len() > 1 {
        let before = history.drop_last().last();
        let after = history.last();
        a_command_runs_once(history.drop_last());
        if exists|
            pass: DrainPass,
            commands: Vec<SessionCommandEntry>,
            processed: Vec<bool>,
            taken: usize,
        | #[trigger]
            document_road(before, after, pass, commands, processed, taken) {
            let (pass, commands, processed, taken) = choose|
                pass: DrainPass,
                commands: Vec<SessionCommandEntry>,
                processed: Vec<bool>,
                taken: usize,
            | #[trigger]
                document_road(before, after, pass, commands, processed, taken);
            a_processed_command_is_never_taken(pass, commands, processed, taken);
            assert(!before.ledger.contains(commands@[taken as int].id@));
        }
    }
}

/// Commands are taken in the order in which they stand: none is taken while an earlier
/// one could be.
pub proof fn commands_keep_their_order(
    pass: DrainPass,
    commands: Vec<SessionCommandEntry>,
    processed: Vec<bool>,
    taken: usize,
    earlier: int,
)
    requires
        processed@.len() == commands@.len(),
        call_ensures(DrainPass::next, (&pass, &commands, &processed), Some(taken)),
        0 <= earlier < taken,
    ensures
        commands@[earlier].status != SessionCommandStatus::Pending || pass.skipped.has(
            commands@[earlier].id@,
        ) || processed@[earlier],
{
    assert(!pass.takes(commands@, processed@, earlier));
}

} // verus!
