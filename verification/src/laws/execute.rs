//! Laws of executing commands.

use vstd::prelude::*;

use crate::auth::types::EngineError;
use crate::host::commands::{
    RunRequest, SessionCommandEntry, SessionCommandPayload, SessionCommandStatus, UserInputAnswer,
    WorktreeSpec,
};
use crate::host::execute::{
    answer_line, answer_lines, answered, begin_execution, canonical_write, handed_over,
    harness_for, harness_for_request, materialize_worktree, open_part_from, open_question,
    plan_run, prewrite, question_text, request_from_chat_row, resolve_prompt_attachments,
    resolve_request_attachments, respond_input_prompt, steered, take_worktree, EntryInputs,
    InputPart, RunPlan, SteerOutcome, TurnPlan, UserInputQuestion, UserWrite, WorktreeStep,
};
use crate::host::handle::MessageStatus;
use crate::host::send::SendLimits;
use crate::rows::{Chat, ChatConfig, SandboxLevel};
use crate::text::{join, replace, trim, trimmed};

verus! {

/// A request carries every setting of a chat.
pub open spec fn runs_as_set(request: RunRequest, config: ChatConfig) -> bool {
    &&& request.harness is Some && request.harness->0@ == config.harness@
    &&& request.model == config.model
    &&& request.reasoning == config.reasoning
    &&& request.model_options@ == config.model_options@
    &&& request.sandbox == config.sandbox
}

/// The request that a chat's row gives runs in the chat's directory with every setting
/// of the chat: planned against a row without settings, it would write back the very
/// settings that it came from. It takes nothing from any earlier turn, and approves
/// nothing by itself.
pub proof fn a_row_request_keeps_the_settings_of_its_chat(
    chat: Chat,
    prompt: &str,
    r: Option<RunRequest>,
    message_id: &str,
    issued_at: i64,
    author: Option<String>,
    default: &str,
    now: i64,
    run: RunPlan,
)
    requires
        call_ensures(request_from_chat_row, (&Some(chat), prompt), r),
        r is Some ==> call_ensures(
            plan_run,
            (r->0, message_id, issued_at, &author, true, &None, default, now),
            run,
        ),
    ensures
        r is Some,
        r->0.prompt@ == prompt@,
        chat.cwd matches Some(cwd) ==> r->0.cwd@ == cwd@,
        chat.cwd is None ==> r->0.cwd@.len() == 0,
        chat.config matches Some(config) ==> runs_as_set(r->0, config),
        chat.config is None ==> r->0.harness is None && r->0.model is None && r->0.reasoning
            is None && r->0.model_options@.len() == 0 && r->0.sandbox
            == SandboxLevel::WorkspaceWrite && run.harness@ == default@,
        !r->0.auto_approve && r->0.attachments@.len() == 0 && r->0.mcp_servers@.len() == 0
            && r->0.resume is None && r->0.worktree is None,
        run.backfill is Some,
        chat.config matches Some(config) ==> ({
            let back = run.backfill->0;
            &&& back.harness@ == config.harness@
            &&& back.model == config.model
            &&& back.reasoning == config.reasoning
            &&& back.model_options@ == config.model_options@
            &&& back.sandbox == config.sandbox
        }),
{
}

/// Without a row there is nothing to make a request of.
pub proof fn no_row_gives_no_request(prompt: &str, r: Option<RunRequest>)
    requires
        call_ensures(request_from_chat_row, (&None, prompt), r),
    ensures
        r is None,
{
}

/// A steer that no live run takes becomes the next turn with its own prompt. It runs as
/// the last request of this process did, in every setting, but without its images, its
/// session and nothing else; without such a request it runs as the chat is set. A live
/// run takes it, and nothing is dispatched.
pub proof fn a_steer_becomes_the_next_turn(
    outcome: SteerOutcome,
    prompt: String,
    last: Option<RunRequest>,
    chat: Option<Chat>,
    r: TurnPlan,
)
    requires
        call_ensures(steered, (outcome, prompt, last, &chat), r),
    ensures
        outcome == SteerOutcome::Accepted ==> r is Applied,
        outcome == SteerOutcome::NotSteerable ==> {
            &&& r is Dispatch == (last is Some || chat is Some)
            &&& !(r is Applied)
            &&& r is Rejected ==> r->Rejected_0@ == "no live run and no prior run config"@
            &&& r is Dispatch ==> is_turn(last, chat, prompt@, r->request) && r->note@
                == "queued as new turn"@
        },
{
}

/// The request of a turn that follows an earlier one, or that is a chat's first in this
/// process.
pub open spec fn is_turn(
    last: Option<RunRequest>,
    chat: Option<Chat>,
    prompt: Seq<char>,
    r: RunRequest,
) -> bool {
    &&& r.prompt@ == prompt
    &&& r.attachments@.len() == 0
    &&& r.resume is None
    &&& match last {
        Some(earlier) => {
            &&& r.harness == earlier.harness
            &&& r.model == earlier.model
            &&& r.reasoning == earlier.reasoning
            &&& r.model_options == earlier.model_options
            &&& r.cwd == earlier.cwd
            &&& r.sandbox == earlier.sandbox
            &&& r.auto_approve == earlier.auto_approve
            &&& r.mcp_servers == earlier.mcp_servers
            &&& r.worktree == earlier.worktree
        },
        None => match chat {
            Some(chat) => {
                &&& chat.cwd matches Some(cwd) ==> r.cwd@ == cwd@
                &&& chat.cwd is None ==> r.cwd@.len() == 0
                &&& !r.auto_approve && r.mcp_servers@.len() == 0 && r.worktree is None
                &&& chat.config matches Some(config) ==> runs_as_set(r, config)
                &&& chat.config is None ==> r.harness is None && r.model is None && r.reasoning
                    is None && r.model_options@.len() == 0 && r.sandbox
                    == SandboxLevel::WorkspaceWrite
            },
            None => false,
        },
    }
}

/// Every reference that resolves is rewritten, whatever its place in the list: one more
/// reference at the end replaces all of its occurrences in what the others left, and one
/// that does not resolve changes nothing.
pub proof fn every_reference_is_rewritten(
    prompt: &str,
    refs: &Vec<(String, Option<String>)>,
    more: &Vec<(String, Option<String>)>,
    r: String,
    longer: String,
    before: &str,
    reference: &str,
    path: &str,
    replaced: String,
)
    requires
        more@.len() == refs@.len() + 1,
        more@.drop_last() == refs@,
        reference@ == more@.last().0@,
        more@.last().1 matches Some(p) ==> path@ == p@,
        before@ == r@,
        call_ensures(resolve_prompt_attachments, (prompt, refs), r),
        call_ensures(resolve_prompt_attachments, (prompt, more), longer),
        call_ensures(replace, (before, reference, path), replaced),
    ensures
        refs@.len() == 0 ==> r@ == prompt@,
        more@.last().1 is Some ==> longer@ == replaced@,
        more@.last().1 is None ==> longer@ == r@,
{
}

/// A run's attachments are rewritten in the list, each at its place, and in the prompt,
/// one after the other; nothing else of the request changes.
pub proof fn a_request_is_rewritten_in_list_and_prompt(
    request: RunRequest,
    paths: Vec<Option<String>>,
    r: RunRequest,
    prompt: &str,
    refs: &Vec<(String, Option<String>)>,
    rewritten: String,
)
    requires
        paths@.len() == request.attachments@.len(),
        prompt@ == request.prompt@,
        refs@.len() == paths@.len(),
        forall|i: int|
            0 <= i < refs@.len() ==> (#[trigger] refs@[i]).0 == request.attachments@[i]
                && refs@[i].1 == paths@[i],
        call_ensures(resolve_request_attachments, (request, paths), r),
        call_ensures(resolve_prompt_attachments, (prompt, refs), rewritten),
    ensures
        r.prompt@ == rewritten@,
        r.attachments@.len() == request.attachments@.len(),
        forall|i: int|
            0 <= i < r.attachments@.len() ==> (#[trigger] r.attachments@[i])@ == (match paths@[i] {
                Some(path) => path@,
                None => request.attachments@[i]@,
            }),
        r.harness == request.harness && r.model == request.model && r.reasoning
            == request.reasoning && r.model_options == request.model_options && r.cwd
            == request.cwd && r.sandbox == request.sandbox && r.auto_approve
            == request.auto_approve && r.mcp_servers == request.mcp_servers && r.resume
            == request.resume && r.worktree == request.worktree,
{
    assert(crate::host::execute::paired(request.attachments@, paths@) =~= refs@) by {
        assert forall|i: int| 0 <= i < refs@.len() implies refs@[i] == (
            request.attachments@[i],
            paths@[i],
        ) by {
            assert(refs@[i].0 == request.attachments@[i]);
        }
    }
}

/// A part is an open question of a request, in an entry that nobody is writing any more.
pub open spec fn is_open_at(
    entries: Seq<EntryInputs>,
    request_id: Seq<char>,
    i: int,
    k: int,
) -> bool {
    &&& 0 <= i < entries.len()
    &&& 0 <= k < entries[i].inputs@.len()
    &&& entries[i].status != Some(MessageStatus::Streaming)
    &&& entries[i].inputs@[k].request_id@ == request_id
    &&& !entries[i].inputs@[k].resolved
}

proof fn an_open_part_is_found(inputs: Seq<InputPart>, request_id: Seq<char>, from: int)
    requires
        0 <= from <= inputs.len(),
    ensures
        match open_part_from(inputs, request_id, from) {
            Some(k) => from <= k < inputs.len() && inputs[k].request_id@ == request_id
                && !inputs[k].resolved && forall|j: int|
                from <= j < k ==> (#[trigger] inputs[j]).request_id@ != request_id
                    || inputs[j].resolved,
            None => forall|j: int|
                from <= j < inputs.len() ==> (#[trigger] inputs[j]).request_id@ != request_id
                    || inputs[j].resolved,
        },
    decreases inputs.len() - from,
{
    if from < inputs.len() && !(inputs[from].request_id@ == request_id && !inputs[from].resolved) {
        an_open_part_is_found(inputs, request_id, from + 1);
    }
}

proof fn an_open_question_is_found(entries: Seq<EntryInputs>, request_id: Seq<char>, n: int)
    requires
        0 <= n <= entries.len(),
    ensures
        match open_question(entries, request_id, n) {
            Some((i, k)) => i < n && is_open_at(entries, request_id, i, k) && (forall|j: int|
                0 <= j < k ==> !#[trigger] is_open_at(entries, request_id, i, j)) && forall|
                h: int,
                j: int,
            |
                i < h < n ==> !#[trigger] is_open_at(entries, request_id, h, j),
            None => forall|h: int, j: int|
                h < n ==> !#[trigger] is_open_at(entries, request_id, h, j),
        },
    decreases n,
{
    if n > 0 {
        let entry = entries[n - 1];
        an_open_part_is_found(entry.inputs@, request_id, 0);
        if !(entry.status != Some(MessageStatus::Streaming) && open_part_from(
            entry.inputs@,
            request_id,
            0,
        ) is Some) {
            an_open_question_is_found(entries, request_id, n - 1);
            assert forall|j: int| !#[trigger] is_open_at(entries, request_id, n - 1, j) by {}
        }
    }
}

/// An answer that no live run takes is honored where its question is still open in an
/// entry that nobody writes any more: it becomes the next turn, and what is asked then
/// pairs the answers with the questions of the latest such entry. Without an open
/// question, or without anything to run it with, it is rejected.
pub proof fn an_answer_goes_to_its_open_question(
    live: bool,
    entries: &Vec<EntryInputs>,
    request_id: &str,
    answers: &Vec<UserInputAnswer>,
    last: Option<RunRequest>,
    chat: Option<Chat>,
    r: TurnPlan,
    i: int,
    k: int,
    asked: String,
)
    requires
        call_ensures(answered, (live, entries, request_id, answers, last, &chat), r),
        is_open_at(entries@, request_id@, i, k),
        forall|h: int, j: int| i < h ==> !#[trigger] is_open_at(entries@, request_id@, h, j),
        forall|j: int| 0 <= j < k ==> !#[trigger] is_open_at(entries@, request_id@, i, j),
        call_ensures(respond_input_prompt, (&entries@[i].inputs@[k].questions, answers), asked),
    ensures
        live ==> r is Applied,
        !live ==> {
            &&& r is Dispatch == (last is Some || chat is Some)
            &&& r is Dispatch ==> is_turn(last, chat, asked@, r->request) && r->note@
                == "answered as new turn"@
            &&& !(r is Dispatch) ==> r is Rejected && r->Rejected_0@
                == "no pending input request and no prior run config"@
        },
{
    an_open_question_is_found(entries@, request_id@, entries@.len() as int);
    let found = open_question(entries@, request_id@, entries@.len() as int);
    assert(found == Some((i, k))) by {
        assert(found is Some);
        let (a, b) = found->0;
        assert(is_open_at(entries@, request_id@, a, b));
        if a < i {
            assert(!is_open_at(entries@, request_id@, i, k));
        }
        if a == i && b < k {
            assert(!is_open_at(entries@, request_id@, i, b));
        }
        if a == i && k < b {
            assert(!is_open_at(entries@, request_id@, i, k));
        }
    }
}

/// An answer to a question that is not open anywhere is rejected, unless a live run takes
/// it.
pub proof fn a_stale_answer_is_rejected(
    live: bool,
    entries: &Vec<EntryInputs>,
    request_id: &str,
    answers: &Vec<UserInputAnswer>,
    last: Option<RunRequest>,
    chat: Option<Chat>,
    r: TurnPlan,
)
    requires
        call_ensures(answered, (live, entries, request_id, answers, last, &chat), r),
        forall|h: int, j: int| !#[trigger] is_open_at(entries@, request_id@, h, j),
    ensures
        live ==> r is Applied,
        !live ==> r is Rejected && r->Rejected_0@ == "no pending input request"@,
{
    an_open_question_is_found(entries@, request_id@, entries@.len() as int);
}

proof fn the_first_question_counts(questions: Seq<UserInputQuestion>, id: Seq<char>, q: int)
    requires
        0 <= q < questions.len(),
        questions[q].id@ == id,
        forall|j: int| 0 <= j < q ==> (#[trigger] questions[j]).id@ != id,
    ensures
        question_text(questions, id) == (if trimmed(questions[q].question@).len() == 0 {
            None::<Seq<char>>
        } else {
            Some(trimmed(questions[q].question@))
        }),
    decreases q,
{
    if q > 0 {
        assert(questions[0].id@ != id);
        let rest = questions.drop_first();
        assert forall|j: int| 0 <= j < q - 1 implies (#[trigger] rest[j]).id@ != id by {
            assert(rest[j] == questions[j + 1]);
        }
        the_first_question_counts(rest, id, q - 1);
    }
}

proof fn an_unknown_question_has_no_text(questions: Seq<UserInputQuestion>, id: Seq<char>)
    requires
        forall|j: int| 0 <= j < questions.len() ==> (#[trigger] questions[j]).id@ != id,
    ensures
        question_text(questions, id) is None,
    decreases questions.len(),
{
    if questions.len() > 0 {
        let rest = questions.drop_first();
        assert(questions[0].id@ != id);
        assert forall|j: int| 0 <= j < rest.len() implies (#[trigger] rest[j]).id@ != id by {
            assert(rest[j] == questions[j + 1]);
        }
        an_unknown_question_has_no_text(rest, id);
    }
}

/// The prompt of answers begins with its heading, and every answer adds a line of its
/// own: the labels that were picked, behind the text of its question where that is known
/// and not blank.
pub proof fn every_answer_has_its_line(
    questions: &Vec<UserInputQuestion>,
    answers: &Vec<UserInputAnswer>,
    more: &Vec<UserInputAnswer>,
    r: String,
    longer: String,
    picked: String,
    q: int,
    asked: &str,
    text: String,
)
    requires
        more@.len() == answers@.len() + 1,
        more@.drop_last() == answers@,
        call_ensures(respond_input_prompt, (questions, answers), r),
        call_ensures(respond_input_prompt, (questions, more), longer),
        call_ensures(join, (&more@.last().labels, ", "), picked),
        -1 <= q < questions@.len(),
        q >= 0 ==> questions@[q].id@ == more@.last().question_id@ && asked@
            == questions@[q].question@,
        call_ensures(trim, (asked,), text),
        forall|j: int|
            0 <= j < (if q >= 0 {
                q
            } else {
                questions@.len() as int
            }) ==> (#[trigger] questions@[j]).id@ != more@.last().question_id@,
    ensures
        answers@.len() == 0 ==> r@ == "Answering your earlier question:"@,
        longer@ == r@ + "\n"@ + (if q >= 0 && text@.len() > 0 {
            text@ + " — "@ + picked@
        } else {
            picked@
        }),
{
    let a = more@.last();
    if q >= 0 {
        the_first_question_counts(questions@, a.question_id@, q);
    } else {
        an_unknown_question_has_no_text(questions@, a.question_id@);
    }
    let head = seq!["Answering your earlier question:"@];
    let lines = head + answer_lines(questions@, answers@);
    let all = head + answer_lines(questions@, more@);
    assert(all.drop_last() =~= lines) by {
        assert forall|i: int| 0 <= i < lines.len() implies all[i] == lines[i] by {
            if i > 0 {
                assert(more@.drop_last()[i - 1] == answers@[i - 1]);
            }
        }
    }
    assert(all.last() == answer_line(questions@, a));
    assert(lines.len() >= 1);
    if answers@.len() == 0 {
        assert(lines.len() == 1);
    }
}

/// A message is stamped with the time of its send, and never with one to come.
pub open spec fn is_stamped(at: i64, issued_at: i64, now: i64) -> bool {
    at <= issued_at && at <= now && (at == issued_at || at == now)
}

/// A run goes out as it was asked for: with its own agent, else that of the chat, else
/// the default one. Its message is its prompt, under its own id and its author's name,
/// at the time of its send. A row without settings gets those of the run, and no other
/// row is touched.
pub proof fn a_run_goes_out_as_asked(
    request: RunRequest,
    message_id: &str,
    issued_at: i64,
    author: Option<String>,
    registry: bool,
    config: Option<ChatConfig>,
    default: &str,
    now: i64,
    r: RunPlan,
    agent: String,
    chat_agent: String,
)
    requires
        call_ensures(
            plan_run,
            (request, message_id, issued_at, &author, registry, &config, default, now),
            r,
        ),
        call_ensures(harness_for_request, (&request, &config, default), agent),
        call_ensures(harness_for, (&config, default), chat_agent),
    ensures
        r.request == request,
        config is Some ==> chat_agent@ == config->0.harness@,
        config is None ==> chat_agent@ == default@,
        request.harness is Some ==> agent@ == request.harness->0@,
        request.harness is None ==> agent@ == chat_agent@,
        r.harness@ == agent@,
        r.write.message_id@ == message_id@ && r.write.text@ == request.prompt@ && r.write.author
            == author,
        is_stamped(r.write.created_at, issued_at, now),
        r.backfill is Some <==> registry && config is None,
        r.backfill matches Some(back) ==> back.harness@ == agent@ && back.model == request.model
            && back.reasoning == request.reasoning && back.model_options@
            == request.model_options@ && back.sandbox == request.sandbox,
{
}

/// A command writes the message that it carries under an id: its prompt with every
/// reference rewritten, in its sender's name, at the time of its send. A command whose
/// sender is known writes the same before it is executed; nothing else writes anything.
pub proof fn a_command_writes_its_own_message(
    entry: &SessionCommandEntry,
    refs: &Vec<(String, Option<String>)>,
    now: i64,
    r: Option<UserWrite>,
    first: Option<UserWrite>,
    prompt: &str,
    text: String,
    message: Seq<char>,
)
    requires
        call_ensures(canonical_write, (entry, refs, now), r),
        call_ensures(prewrite, (entry, refs, now), first),
        entry.payload matches SessionCommandPayload::Run { request, message_id } ==> prompt@
            == request.prompt@ && message == message_id@,
        entry.payload matches SessionCommandPayload::Steer { prompt: p, message_id } ==> prompt@
            == p@ && (message_id is Some ==> message == message_id->0@),
        call_ensures(resolve_prompt_attachments, (prompt, refs), text),
    ensures
        ({
            let writes = entry.payload is Run || (entry.payload is Steer
                && entry.payload->Steer_message_id is Some);
            &&& r is Some <==> writes
            &&& first is Some <==> writes && entry.user_id is Some
            &&& r matches Some(w) ==> w.message_id@ == message && w.text@ == text@ && w.author
                == entry.user_id && is_stamped(w.created_at, entry.issued_at, now)
            &&& first matches Some(w) ==> w.message_id@ == message && w.text@ == text@ && w.author
                == entry.user_id && w.created_at == r->0.created_at
        }),
{
}

/// A run that comes again uses the checkout that its chat has of the repository; any other
/// gets a new one, where one can be made. The directive is taken once.
pub proof fn a_checkout_is_made_once(
    spec: &WorktreeSpec,
    cwd: Option<&str>,
    root: Option<&str>,
    repos: bool,
    r: WorktreeStep,
    request: &mut RunRequest,
    taken: Option<WorktreeSpec>,
    later: &mut RunRequest,
    again: Option<WorktreeSpec>,
)
    requires
        call_ensures(materialize_worktree, (spec, cwd, root, repos), r),
        call_ensures(take_worktree, (request,), taken),
        *old(later) == *final(request),
        call_ensures(take_worktree, (later,), again),
    ensures
        ({
            let has_one = cwd is Some && root is Some && root->0@ == spec.repo_path@ && cwd->0@
                != spec.repo_path@;
            &&& r is Reuse <==> has_one
            &&& r is Reuse ==> r->Reuse_0@ == cwd->0@
            &&& r is Create <==> !has_one && repos
            &&& r is Failed <==> !has_one && !repos
            &&& r is Failed ==> r->Failed_0.text() == "repos engine not wired"@
        }),
        taken == old(request).worktree,
        again is None,
        *final(request) == (RunRequest { worktree: None, ..*old(request) }),
{
}

/// A turn begins where the message of its command was written, and not where it was not.
pub proof fn a_turn_begins_with_its_message(
    limits: &mut SendLimits,
    chat: &str,
    entry: &SessionCommandEntry,
    written: Result<(), EngineError>,
    r: Result<(), EngineError>,
    turn: &mut SendLimits,
)
    requires
        call_ensures(begin_execution, (limits, chat, entry, written), r),
        *old(turn) == *old(limits),
        call_ensures(SendLimits::begin_turn, (turn, chat, entry), ()),
    ensures
        r == written,
        written is Err ==> *final(limits) == *old(limits),
        written is Ok ==> final(limits).depth(chat@) == final(turn).depth(chat@) && final(limits).spent(chat@) == final(turn).spent(chat@),
{
}

/// What was handed to the agent is applied, with its note; a failure there stays one.
pub proof fn what_is_handed_over_is_applied(
    result: Result<(), EngineError>,
    note: Option<&'static str>,
    r: Result<(SessionCommandStatus, Option<String>), EngineError>,
)
    requires
        call_ensures(handed_over, (result, note), r),
    ensures
        r is Ok <==> result is Ok,
        r is Err ==> r->Err_0 == result->Err_0,
        r matches Ok((status, text)) ==> status == SessionCommandStatus::Applied && (text is Some
            <==> note is Some) && (text is Some ==> text->0@ == note->0@),
{
}

} // verus!
