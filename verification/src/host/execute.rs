//! Executing a command: what is written before it, what the agent is run with, and what
//! becomes of a command that finds no live run.

use vstd::prelude::*;

use super::commands::{
    RunRequest, SessionCommandEntry, SessionCommandPayload, SessionCommandStatus, UserInputAnswer,
    WorktreeSpec,
};
use super::handle::MessageStatus;
use super::send::SendLimits;
use crate::auth::types::{error, EngineError};
use crate::rows::{Chat, ChatConfig, SandboxLevel};
use crate::text::{
    clone_option, join, join3, joined, replace, replaced, text_eq, texts, trim, trimmed,
};

verus! {

// ---------------------------------------------------------------------------
// Attachments
// ---------------------------------------------------------------------------

/// A prompt with every reference that resolves replaced by its path, one after the
/// other.
pub open spec fn with_paths(prompt: Seq<char>, refs: Seq<(String, Option<String>)>) -> Seq<char>
    decreases refs.len(),
{
    if refs.len() == 0 {
        prompt
    } else {
        let before = with_paths(prompt, refs.drop_last());
        match refs.last().1 {
            Some(path) => replaced(before, refs.last().0@, path@),
            None => before,
        }
    }
}

/// Rewrites the attachment references of a prompt to this device's paths. Each
/// reference comes with the path that it resolves to, if it does.
pub fn resolve_prompt_attachments(prompt: &str, refs: &Vec<(String, Option<String>)>) -> (r: String)
    ensures
        r@ == with_paths(prompt@, refs@),
{
    let mut out = prompt.to_owned();
    let mut i: usize = 0;
    while i < refs.len()
        invariant
            i <= refs@.len(),
            out@ == with_paths(prompt@, refs@.take(i as int)),
        decreases refs@.len() - i,
    {
        assert(refs@.take(i + 1).drop_last() =~= refs@.take(i as int));
        if let Some(path) = &refs[i].1 {
            out = replace(out.as_str(), refs[i].0.as_str(), path.as_str());
        }
        i = i + 1;
    }
    assert(refs@.take(i as int) =~= refs@);
    out
}

/// The attachments with what each resolves to.
pub open spec fn paired(
    attachments: Seq<String>,
    paths: Seq<Option<String>>,
) -> Seq<(String, Option<String>)> {
    Seq::new(attachments.len(), |i: int| (attachments[i], paths[i]))
}

/// The attachments, each replaced by what it resolves to, if it does.
pub open spec fn at_paths(attachments: Seq<String>, paths: Seq<Option<String>>) -> Seq<String> {
    Seq::new(
        attachments.len(),
        |i: int|
            match paths[i] {
                Some(path) => path,
                None => attachments[i],
            },
    )
}

/// Rewrites the attachment references of a request to this device's paths, in the list
/// and in the prompt, so that the agent and the transcript see ordinary local files.
pub fn resolve_request_attachments(request: RunRequest, paths: Vec<Option<String>>) -> (r:
    RunRequest)
    requires
        paths@.len() == request.attachments@.len(),
    ensures
        r.prompt@ == with_paths(request.prompt@, paired(request.attachments@, paths@)),
        r.attachments@ == at_paths(request.attachments@, paths@),
        r == (RunRequest { prompt: r.prompt, attachments: r.attachments, ..request }),
{
    let mut pairs: Vec<(String, Option<String>)> = Vec::new();
    let mut attachments: Vec<String> = Vec::new();
    let mut i: usize = 0;
    while i < request.attachments.len()
        invariant
            i <= request.attachments@.len(),
            paths@.len() == request.attachments@.len(),
            pairs@ == paired(request.attachments@, paths@).take(i as int),
            attachments@ == at_paths(request.attachments@, paths@).take(i as int),
        decreases request.attachments@.len() - i,
    {
        let attachment = &request.attachments[i];
        match &paths[i] {
            Some(path) => {
                pairs.push((attachment.clone(), Some(path.clone())));
                attachments.push(path.clone());
            },
            None => {
                pairs.push((attachment.clone(), None));
                attachments.push(attachment.clone());
            },
        }
        assert(pairs@ =~= paired(request.attachments@, paths@).take(i + 1));
        assert(attachments@ =~= at_paths(request.attachments@, paths@).take(i + 1));
        i = i + 1;
    }
    assert(pairs@ =~= paired(request.attachments@, paths@));
    assert(attachments@ =~= at_paths(request.attachments@, paths@));
    let prompt = resolve_prompt_attachments(request.prompt.as_str(), &pairs);
    RunRequest { prompt, attachments, ..request }
}

// ---------------------------------------------------------------------------
// The user's message
// ---------------------------------------------------------------------------

/// A message of the user to write into the transcript.
#[derive(Debug)]
pub struct UserWrite {
    pub message_id: String,
    pub text: String,
    pub created_at: i64,
    pub author: Option<String>,
}

/// When a message was sent: when its command was issued, but never in the future.
pub open spec fn sent_at(issued_at: i64, now: i64) -> i64 {
    if issued_at < now {
        issued_at
    } else {
        now
    }
}

fn sent_time(issued_at: i64, now: i64) -> (r: i64)
    ensures
        r == sent_at(issued_at, now),
{
    if issued_at < now {
        issued_at
    } else {
        now
    }
}

/// The prompt of a command that carries a message with an id.
pub open spec fn prompt_of(payload: SessionCommandPayload) -> Option<Seq<char>> {
    match payload {
        SessionCommandPayload::Run { request, message_id: _ } => Some(request.prompt@),
        SessionCommandPayload::Steer { prompt, message_id } => match message_id {
            Some(_) => Some(prompt@),
            None => None,
        },
        _ => None,
    }
}

/// The message of a command as it stands in the transcript: references resolved, and
/// stamped with the time of the send.
pub open spec fn is_canonical(
    entry: SessionCommandEntry,
    refs: Seq<(String, Option<String>)>,
    now: i64,
    w: UserWrite,
) -> bool {
    &&& prompt_of(entry.payload) is Some
    &&& entry.payload.message() == Some(w.message_id@)
    &&& w.text@ == with_paths(prompt_of(entry.payload)->0, refs)
    &&& w.created_at == sent_at(entry.issued_at, now)
    &&& w.author == entry.user_id
}

/// The message that a command writes, where it carries one under an id.
pub fn canonical_write(
    entry: &SessionCommandEntry,
    refs: &Vec<(String, Option<String>)>,
    now: i64,
) -> (r: Option<UserWrite>)
    ensures
        r is Some == prompt_of(entry.payload) is Some,
        r matches Some(w) ==> is_canonical(*entry, refs@, now, w),
{
    let prompt: &String = match &entry.payload {
        SessionCommandPayload::Run { request, message_id: _ } => &request.prompt,
        SessionCommandPayload::Steer { prompt, message_id } => {
            if message_id.is_none() {
                return None;
            }
            prompt
        },
        _ => {
            return None;
        },
    };
    match entry.payload.message_id() {
        None => None,
        Some(message_id) => Some(
            UserWrite {
                message_id: message_id.to_owned(),
                text: resolve_prompt_attachments(prompt.as_str(), refs),
                created_at: sent_time(entry.issued_at, now),
                author: clone_option(&entry.user_id),
            },
        ),
    }
}

/// The message to write before a command with a known sender is executed. It lands
/// first and later writes of the same id are dropped, so it is already what they would
/// write.
pub fn prewrite(entry: &SessionCommandEntry, refs: &Vec<(String, Option<String>)>, now: i64) -> (r:
    Option<UserWrite>)
    ensures
        r is Some == (entry.user_id is Some && prompt_of(entry.payload) is Some),
        r matches Some(w) ==> is_canonical(*entry, refs@, now, w),
{
    if entry.user_id.is_none() {
        return None;
    }
    canonical_write(entry, refs, now)
}

// ---------------------------------------------------------------------------
// Runs
// ---------------------------------------------------------------------------

/// A checkout that was made for a run.
#[derive(Debug)]
pub struct Worktree {
    pub path: String,
    pub branch: String,
}

/// Where a run gets its checkout from.
#[derive(Debug)]
pub enum WorktreeStep {
    /// The chat has one of the same repository already: use it. A run that comes twice
    /// must not make a second checkout.
    Reuse(String),
    /// Make one.
    Create,
    Failed(EngineError),
}

/// Decides where a run gets its checkout from. `cwd` is the directory in the chat's row,
/// and `linked_root` the repository that it is a linked checkout of, if it is one.
pub fn materialize_worktree(
    spec: &WorktreeSpec,
    cwd: Option<&str>,
    linked_root: Option<&str>,
    repos: bool,
) -> (r: WorktreeStep)
    ensures
        ({
            let reusable = cwd is Some && cwd->0@ != spec.repo_path@ && linked_root is Some
                && linked_root->0@ == spec.repo_path@;
            &&& reusable ==> r is Reuse && r->Reuse_0@ == cwd->0@
            &&& !reusable && repos ==> r is Create
            &&& !reusable && !repos ==> r is Failed && r->Failed_0.text()
                == "repos engine not wired"@
        }),
{
    if let (Some(cwd), Some(root)) = (cwd, linked_root) {
        if !text_eq(cwd, spec.repo_path.as_str()) && text_eq(root, spec.repo_path.as_str()) {
            return WorktreeStep::Reuse(cwd.to_owned());
        }
    }
    if repos {
        WorktreeStep::Create
    } else {
        WorktreeStep::Failed(error("repos engine not wired"))
    }
}

/// Takes the checkout directive out of a request, so that what reuses the request later
/// uses the checkout and makes no other.
pub fn take_worktree(request: &mut RunRequest) -> (r: Option<WorktreeSpec>)
    ensures
        r == old(request).worktree,
        *final(request) == (RunRequest { worktree: None, ..*old(request) }),
{
    request.worktree.take()
}

/// The agent of a chat: that of its row, or the default.
pub open spec fn chat_harness(config: Option<ChatConfig>, default: Seq<char>) -> Seq<char> {
    match config {
        Some(c) => c.harness@,
        None => default,
    }
}

/// Chat-config harness when the registry row carries one, else the default.
pub fn harness_for(config: &Option<ChatConfig>, default: &str) -> (r: String)
    ensures
        r@ == chat_harness(*config, default@),
{
    match config {
        Some(c) => c.harness.clone(),
        None => default.to_owned(),
    }
}

/// The agent that a request runs on: its own pick, or that of the chat.
pub open spec fn request_harness(
    request: RunRequest,
    config: Option<ChatConfig>,
    default: Seq<char>,
) -> Seq<char> {
    match request.harness {
        Some(h) => h@,
        None => chat_harness(config, default),
    }
}

/// The harness a request dispatches on: the request's own pick when it carries one
/// (rides the command plane, immune to registry-row races), else the chat's.
pub fn harness_for_request(request: &RunRequest, config: &Option<ChatConfig>, default: &str) -> (r:
    String)
    ensures
        r@ == request_harness(*request, *config, default@),
{
    match &request.harness {
        Some(h) => h.clone(),
        None => harness_for(config, default),
    }
}

fn clone_pairs(pairs: &Vec<(String, String)>) -> (r: Vec<(String, String)>)
    ensures
        r@ == pairs@,
{
    let mut out: Vec<(String, String)> = Vec::new();
    let mut i: usize = 0;
    while i < pairs.len()
        invariant
            i <= pairs@.len(),
            out@ == pairs@.take(i as int),
        decreases pairs@.len() - i,
    {
        out.push((pairs[i].0.clone(), pairs[i].1.clone()));
        assert(out@ =~= pairs@.take(i + 1));
        i = i + 1;
    }
    assert(pairs@.take(i as int) =~= pairs@);
    out
}

fn clone_sandbox(sandbox: &SandboxLevel) -> (r: SandboxLevel)
    ensures
        r == *sandbox,
{
    match sandbox {
        SandboxLevel::WorkspaceWrite => SandboxLevel::WorkspaceWrite,
        SandboxLevel::Named(name) => SandboxLevel::Named(name.clone()),
    }
}

/// What a run does to its chat's row, and what it is dispatched with.
#[derive(Debug)]
pub struct RunPlan {
    /// Settings to write into a row that has none: those that this run executes with.
    pub backfill: Option<ChatConfig>,
    /// The message to write, stamped with the time of the send.
    pub write: UserWrite,
    pub harness: String,
    pub request: RunRequest,
}

/// Plans a run, once it has its directory and its chat is claimed. `config` is what the
/// chat's row says at that time; without a registry there is no row to fill.
pub fn plan_run(
    request: RunRequest,
    message_id: &str,
    entry_issued_at: i64,
    author: &Option<String>,
    registry: bool,
    config: &Option<ChatConfig>,
    default_harness: &str,
    now: i64,
) -> (r: RunPlan)
    ensures
        r.request == request,
        r.harness@ == request_harness(request, *config, default_harness@),
        r.write.message_id@ == message_id@,
        r.write.text@ == request.prompt@,
        r.write.created_at == sent_at(entry_issued_at, now),
        r.write.author == *author,
        r.backfill is Some == (registry && config is None),
        r.backfill matches Some(c) ==> c.harness@ == r.harness@ && c.model == request.model
            && c.reasoning == request.reasoning && c.model_options@ == request.model_options@
            && c.sandbox == request.sandbox,
{
    let harness = harness_for_request(&request, config, default_harness);
    let backfill = if registry && config.is_none() {
        Some(
            ChatConfig {
                harness: harness.clone(),
                model: clone_option(&request.model),
                reasoning: clone_option(&request.reasoning),
                model_options: clone_pairs(&request.model_options),
                sandbox: clone_sandbox(&request.sandbox),
            },
        )
    } else {
        None
    };
    let write = UserWrite {
        message_id: message_id.to_owned(),
        text: request.prompt.clone(),
        created_at: sent_time(entry_issued_at, now),
        author: clone_option(author),
    };
    RunPlan { backfill, write, harness, request }
}

/// The run request that a chat's row gives, for a turn without an earlier one: the
/// directory of the row and the settings of its config, or the defaults.
pub open spec fn is_row_request(chat: Chat, prompt: Seq<char>, r: RunRequest) -> bool {
    &&& r.prompt@ == prompt
    &&& r.cwd@ == (match chat.cwd {
        Some(cwd) => cwd@,
        None => Seq::empty(),
    })
    &&& !r.auto_approve
    &&& r.attachments@.len() == 0
    &&& r.mcp_servers@.len() == 0
    &&& r.resume is None
    &&& r.worktree is None
    &&& match chat.config {
        Some(c) => {
            &&& r.harness == Some(c.harness)
            &&& r.model == c.model
            &&& r.reasoning == c.reasoning
            &&& r.model_options@ == c.model_options@
            &&& r.sandbox == c.sandbox
        },
        None => {
            &&& r.harness is None
            &&& r.model is None
            &&& r.reasoning is None
            &&& r.model_options@.len() == 0
            &&& r.sandbox == SandboxLevel::WorkspaceWrite
        },
    }
}

/// A steer-turned-run with no earlier request in this process: the run config is rebuilt
/// from the chat's registry row. None without a row.
pub fn request_from_chat_row(chat: &Option<Chat>, prompt: &str) -> (r: Option<RunRequest>)
    ensures
        r is Some == chat is Some,
        chat is Some ==> is_row_request(chat->0, prompt@, r->0),
{
    match chat {
        None => None,
        Some(chat) => {
            let cwd = match &chat.cwd {
                Some(cwd) => cwd.clone(),
                None => String::new(),
            };
            let request = match &chat.config {
                Some(c) => RunRequest {
                    prompt: prompt.to_owned(),
                    harness: Some(c.harness.clone()),
                    model: clone_option(&c.model),
                    reasoning: clone_option(&c.reasoning),
                    model_options: clone_pairs(&c.model_options),
                    cwd,
                    sandbox: clone_sandbox(&c.sandbox),
                    auto_approve: false,
                    attachments: Vec::new(),
                    mcp_servers: Vec::new(),
                    resume: None,
                    worktree: None,
                },
                None => RunRequest {
                    prompt: prompt.to_owned(),
                    harness: None,
                    model: None,
                    reasoning: None,
                    model_options: Vec::new(),
                    cwd,
                    sandbox: SandboxLevel::WorkspaceWrite,
                    auto_approve: false,
                    attachments: Vec::new(),
                    mcp_servers: Vec::new(),
                    resume: None,
                    worktree: None,
                },
            };
            Some(request)
        },
    }
}

/// The request of a turn that follows an earlier one: that of the earlier one, with a
/// new prompt, and without its images and its session.
pub open spec fn is_next_turn(earlier: RunRequest, prompt: Seq<char>, r: RunRequest) -> bool {
    &&& r.prompt@ == prompt
    &&& r.attachments@.len() == 0
    &&& r == (RunRequest {
        prompt: r.prompt,
        resume: None,
        attachments: r.attachments,
        ..earlier
    })
}

/// The request of a turn without a live run: from the last request of this process, or
/// from the chat's row.
fn next_turn(last_request: Option<RunRequest>, chat: &Option<Chat>, prompt: String) -> (r: Option<
    RunRequest,
>)
    ensures
        r is Some == (last_request is Some || chat is Some),
        last_request is Some ==> is_next_turn(last_request->0, prompt@, r->0),
        last_request is None && chat is Some ==> is_row_request(chat->0, prompt@, r->0),
{
    match last_request {
        Some(request) => Some(
            RunRequest { prompt, resume: None, attachments: Vec::new(), ..request },
        ),
        None => request_from_chat_row(chat, prompt.as_str()),
    }
}

// ---------------------------------------------------------------------------
// Steers and answers
// ---------------------------------------------------------------------------

#[derive(Debug, Clone, Copy, PartialEq, Eq, Structural)]
pub enum SteerOutcome {
    Accepted,
    NotSteerable,
}

/// What a steer or an answer comes to.
#[derive(Debug)]
pub enum TurnPlan {
    /// It is delivered.
    Applied,
    /// It is rejected, for this reason.
    Rejected(&'static str),
    /// Dispatch this request as the next turn, and note how it was honored.
    Dispatch { request: RunRequest, note: &'static str },
}

pub const NO_RUN_CONFIG: &'static str = "no live run and no prior run config";

pub const NO_INPUT: &'static str = "no pending input request";

pub const NO_INPUT_CONFIG: &'static str = "no pending input request and no prior run config";

pub const QUEUED_AS_TURN: &'static str = "queued as new turn";

pub const ANSWERED_AS_TURN: &'static str = "answered as new turn";

/// What a steer comes to: a live run takes it, and without one it is run as the next
/// turn, if there is anything to run it with.
pub fn steered(
    outcome: SteerOutcome,
    prompt: String,
    last_request: Option<RunRequest>,
    chat: &Option<Chat>,
) -> (r: TurnPlan)
    ensures
        outcome == SteerOutcome::Accepted ==> r is Applied,
        outcome == SteerOutcome::NotSteerable ==> {
            &&& last_request is None && chat is None ==> r is Rejected && r->Rejected_0@
                == NO_RUN_CONFIG@
            &&& last_request is Some ==> r is Dispatch && is_next_turn(
                last_request->0,
                prompt@,
                r->request,
            )
            &&& last_request is None && chat is Some ==> r is Dispatch && is_row_request(
                chat->0,
                prompt@,
                r->request,
            )
            &&& r is Dispatch ==> r->note@ == QUEUED_AS_TURN@
        },
{
    match outcome {
        SteerOutcome::Accepted => TurnPlan::Applied,
        SteerOutcome::NotSteerable => match next_turn(last_request, chat, prompt) {
            None => TurnPlan::Rejected(NO_RUN_CONFIG),
            Some(request) => TurnPlan::Dispatch { request, note: QUEUED_AS_TURN },
        },
    }
}

/// A question to the user.
#[derive(Debug)]
pub struct UserInputQuestion {
    pub id: String,
    pub question: String,
}

/// Questions to the user, in a transcript entry.
#[derive(Debug)]
pub struct InputPart {
    pub request_id: String,
    pub questions: Vec<UserInputQuestion>,
    pub resolved: bool,
}

/// What the rules read of a transcript entry with questions.
#[derive(Debug)]
pub struct EntryInputs {
    pub status: Option<MessageStatus>,
    pub inputs: Vec<InputPart>,
}

/// The part is an open question of a request.
pub open spec fn is_open_part(part: InputPart, request_id: Seq<char>) -> bool {
    part.request_id@ == request_id && !part.resolved
}

/// The place of the first open question of a request among the first so many parts
/// counted from `from`.
pub open spec fn open_part_from(inputs: Seq<InputPart>, request_id: Seq<char>, from: int) -> Option<
    int,
>
    decreases inputs.len() - from,
{
    if from < 0 || from >= inputs.len() {
        None
    } else if is_open_part(inputs[from], request_id) {
        Some(from)
    } else {
        open_part_from(inputs, request_id, from + 1)
    }
}

/// The open question of a request in the latest of the first so many entries that is
/// settled and has one. A question of an entry that is still being written belongs to
/// its run.
pub open spec fn open_question(
    entries: Seq<EntryInputs>,
    request_id: Seq<char>,
    n: int,
) -> Option<(int, int)>
    decreases n,
{
    if n <= 0 {
        None
    } else {
        let entry = entries[n - 1];
        let found = open_part_from(entry.inputs@, request_id, 0);
        if entry.status != Some(MessageStatus::Streaming) && found is Some {
            Some((n - 1, found->0))
        } else {
            open_question(entries, request_id, n - 1)
        }
    }
}

fn find_open_part(inputs: &Vec<InputPart>, request_id: &str) -> (r: Option<usize>)
    ensures
        match r {
            Some(i) => open_part_from(inputs@, request_id@, 0) == Some(i as int) && i
                < inputs@.len(),
            None => open_part_from(inputs@, request_id@, 0) is None,
        },
{
    let mut i: usize = 0;
    while i < inputs.len()
        invariant
            i <= inputs@.len(),
            open_part_from(inputs@, request_id@, 0) == open_part_from(
                inputs@,
                request_id@,
                i as int,
            ),
        decreases inputs@.len() - i,
    {
        if text_eq(inputs[i].request_id.as_str(), request_id) && !inputs[i].resolved {
            return Some(i);
        }
        i = i + 1;
    }
    None
}

fn find_open_question(entries: &Vec<EntryInputs>, request_id: &str) -> (r: Option<(usize, usize)>)
    ensures
        match r {
            Some((i, k)) => open_question(entries@, request_id@, entries@.len() as int) == Some(
                (i as int, k as int),
            ) && i < entries@.len() && k < entries@[i as int].inputs@.len(),
            None => open_question(entries@, request_id@, entries@.len() as int) is None,
        },
{
    let mut n: usize = entries.len();
    while n > 0
        invariant
            n <= entries@.len(),
            open_question(entries@, request_id@, entries@.len() as int) == open_question(
                entries@,
                request_id@,
                n as int,
            ),
        decreases n,
    {
        let entry = &entries[n - 1];
        let streaming = match entry.status {
            Some(status) => status == MessageStatus::Streaming,
            None => false,
        };
        if !streaming {
            if let Some(k) = find_open_part(&entry.inputs, request_id) {
                return Some((n - 1, k));
            }
        }
        n = n - 1;
    }
    None
}

/// The text of the question with an id, without white space around it; none where there
/// is no such question, or it is blank.
pub open spec fn question_text(questions: Seq<UserInputQuestion>, id: Seq<char>) -> Option<
    Seq<char>,
>
    decreases questions.len(),
{
    if questions.len() == 0 {
        None
    } else if questions[0].id@ == id {
        let text = trimmed(questions[0].question@);
        if text.len() == 0 {
            None
        } else {
            Some(text)
        }
    } else {
        question_text(questions.drop_first(), id)
    }
}

/// One answer as a line: the question and the labels that were picked.
pub open spec fn answer_line(questions: Seq<UserInputQuestion>, answer: UserInputAnswer) -> Seq<
    char,
> {
    let picked = joined(texts(answer.labels@), ", "@);
    match question_text(questions, answer.question_id@) {
        Some(question) => question + " — "@ + picked,
        None => picked,
    }
}

/// The answers as lines.
pub open spec fn answer_lines(
    questions: Seq<UserInputQuestion>,
    answers: Seq<UserInputAnswer>,
) -> Seq<Seq<char>> {
    answers.map_values(|a: UserInputAnswer| answer_line(questions, a))
}

/// The prompt that answers an earlier question.
pub open spec fn answer_prompt(
    questions: Seq<UserInputQuestion>,
    answers: Seq<UserInputAnswer>,
) -> Seq<char> {
    joined(
        seq!["Answering your earlier question:"@] + answer_lines(questions, answers),
        "\n"@,
    )
}

fn find_question_text(questions: &Vec<UserInputQuestion>, id: &str) -> (r: Option<String>)
    ensures
        match r {
            Some(t) => question_text(questions@, id@) == Some(t@),
            None => question_text(questions@, id@) is None,
        },
{
    let mut i: usize = 0;
    assert(questions@.skip(0) =~= questions@);
    while i < questions.len()
        invariant
            i <= questions@.len(),
            question_text(questions@, id@) == question_text(questions@.skip(i as int), id@),
        decreases questions@.len() - i,
    {
        let ghost rest = questions@.skip(i as int);
        assert(rest[0] == questions@[i as int]);
        assert(rest.drop_first() =~= questions@.skip(i + 1));
        if text_eq(questions[i].id.as_str(), id) {
            let text = trim(questions[i].question.as_str());
            if text.as_str().is_empty() {
                return None;
            }
            return Some(text);
        }
        i = i + 1;
    }
    None
}

/// The resumed-turn prompt for answers to a question whose run died: each answer paired
/// with its question text so the reattached conversation reads naturally.
pub fn respond_input_prompt(
    questions: &Vec<UserInputQuestion>,
    answers: &Vec<UserInputAnswer>,
) -> (r: String)
    ensures
        r@ == answer_prompt(questions@, answers@),
{
    let mut lines: Vec<String> = Vec::new();
    lines.push("Answering your earlier question:".to_owned());
    let ghost head = seq!["Answering your earlier question:"@];
    let mut i: usize = 0;
    assert(texts(lines@) =~= head + answer_lines(questions@, answers@).take(0));
    while i < answers.len()
        invariant
            i <= answers@.len(),
            texts(lines@) == head + answer_lines(questions@, answers@).take(i as int),
        decreases answers@.len() - i,
    {
        let ghost before = texts(lines@);
        let answer = &answers[i];
        let picked = join(&answer.labels, ", ");
        let line = match find_question_text(questions, answer.question_id.as_str()) {
            Some(question) => join3(question.as_str(), " — ", picked.as_str()),
            None => picked,
        };
        let ghost added = line@;
        lines.push(line);
        assert(added == answer_line(questions@, answers@[i as int]));
        assert(texts(lines@) =~= before.push(added));
        assert(answer_lines(questions@, answers@).take(i + 1) =~= answer_lines(
            questions@,
            answers@,
        ).take(i as int).push(added));
        i = i + 1;
    }
    assert(answer_lines(questions@, answers@).take(i as int) =~= answer_lines(
        questions@,
        answers@,
    ));
    join(&lines, "\n")
}

/// What an answer comes to: a live run takes it. Without one, only an answer to a
/// question that is still open in a settled entry is honored, as the next turn; a stale
/// or mistaken one is rejected.
pub fn answered(
    live: bool,
    entries: &Vec<EntryInputs>,
    request_id: &str,
    answers: &Vec<UserInputAnswer>,
    last_request: Option<RunRequest>,
    chat: &Option<Chat>,
) -> (r: TurnPlan)
    ensures
        live ==> r is Applied,
        !live ==> match open_question(entries@, request_id@, entries@.len() as int) {
            None => r is Rejected && r->Rejected_0@ == NO_INPUT@,
            Some((i, k)) => {
                let prompt = answer_prompt(entries@[i].inputs@[k].questions@, answers@);
                &&& last_request is None && chat is None ==> r is Rejected && r->Rejected_0@
                    == NO_INPUT_CONFIG@
                &&& last_request is Some ==> r is Dispatch && is_next_turn(
                    last_request->0,
                    prompt,
                    r->request,
                )
                &&& last_request is None && chat is Some ==> r is Dispatch && is_row_request(
                    chat->0,
                    prompt,
                    r->request,
                )
                &&& r is Dispatch ==> r->note@ == ANSWERED_AS_TURN@
            },
        },
{
    if live {
        return TurnPlan::Applied;
    }
    match find_open_question(entries, request_id) {
        None => TurnPlan::Rejected(NO_INPUT),
        Some((i, k)) => {
            let prompt = respond_input_prompt(&entries[i].inputs[k].questions, answers);
            match next_turn(last_request, chat, prompt) {
                None => TurnPlan::Rejected(NO_INPUT_CONFIG),
                Some(request) => TurnPlan::Dispatch { request, note: ANSWERED_AS_TURN },
            }
        },
    }
}

/// Begins the execution of a command, after the write of its message. Where that failed
/// the command fails, and no turn begins.
pub fn begin_execution(
    limits: &mut SendLimits,
    chat_id: &str,
    entry: &SessionCommandEntry,
    written: Result<(), EngineError>,
) -> (r: Result<(), EngineError>)
    ensures
        r == written,
        written is Err ==> *final(limits) == *old(limits),
        written is Ok ==> final(limits).same_elsewhere(*old(limits), chat_id@) && (
        entry.payload.carries_message() ==> final(limits).depth(chat_id@) == (match entry.origin {
            Some(o) => o.hops as int,
            None => 0,
        }) && final(limits).spent(chat_id@) == 0) && (!entry.payload.carries_message()
            ==> *final(limits) == *old(limits)),
{
    match written {
        Err(e) => Err(e),
        Ok(done) => {
            limits.begin_turn(chat_id, entry);
            Ok(done)
        },
    }
}

/// The outcome of a command whose work was handed to the agent: a failure there fails
/// the command.
pub fn handed_over(result: Result<(), EngineError>, note: Option<&'static str>) -> (r: Result<
    (SessionCommandStatus, Option<String>),
    EngineError,
>)
    ensures
        match result {
            Ok(_) => r is Ok && r->Ok_0.0 == SessionCommandStatus::Applied && match note {
                Some(text) => r->Ok_0.1 is Some && r->Ok_0.1->0@ == text@,
                None => r->Ok_0.1 is None,
            },
            Err(e) => r is Err && r->Err_0 == e,
        },
{
    match result {
        Err(e) => Err(e),
        Ok(_) => {
            let note = match note {
                Some(text) => Some(text.to_owned()),
                None => None,
            };
            Ok((SessionCommandStatus::Applied, note))
        },
    }
}

/// A turn that follows an earlier one never sends that one's images again and never
/// resumes its session by itself, whichever way it came about.
pub proof fn a_next_turn_carries_no_earlier_images(
    earlier: Option<RunRequest>,
    chat: Option<Chat>,
    prompt: Seq<char>,
    r: RunRequest,
)
    requires
        earlier is Some ==> is_next_turn(earlier->0, prompt, r),
        earlier is None ==> chat is Some && is_row_request(chat->0, prompt, r),
    ensures
        r.attachments@.len() == 0,
        r.resume is None,
        r.prompt@ == prompt,
{
}

} // verus!
