//! Laws of the host of the documents of a device.

use vstd::prelude::*;

use crate::auth::types::EngineError;
use crate::host::commands::{
    nudge_remote_host, AttachmentTransfer, CommandDisposition, CommandOrigin, Nudge,
    SessionCommandPayload, SessionCommandStatus,
};
use crate::host::doc_host::{DocHost, DocHostConfig, QueuedCommand, RelayClaim};
use crate::host::edge::fetch_tool_blob;
use crate::host::execute::harness_for;
use crate::host::handle::{ChatDocHandle, DocError};
use crate::host::send::{AgentSend, SendLimits};
use crate::host::snapshots::{begin_open, publish_handle, OpenStep, PublishHandle};
use crate::rows::{Chat, ChatConfig};

verus! {

/// A queued command is pending, in the name that it was queued in, of the handle's device
/// and this moment, and good for its time to live.
pub open spec fn is_queued(
    queued: QueuedCommand,
    handle: ChatDocHandle,
    id: String,
    payload: SessionCommandPayload,
    last_message: Option<String>,
    now: i64,
    ttl: i64,
) -> bool {
    &&& queued.entry.id == id && queued.entry.payload == payload
    &&& queued.entry.issued_by@ == handle.device_id@ && queued.entry.issued_at == now
    &&& queued.entry.based_on == last_message
    &&& queued.entry.expires_at is Some && queued.entry.expires_at->0 - now == ttl
    &&& queued.entry.status == SessionCommandStatus::Pending && queued.entry.resolution is None
}

/// A command of the user carries the user's name, no origin, and the files that go with
/// it; a closed document takes none.
pub proof fn a_command_of_the_user_is_queued(
    host: &DocHost,
    handle: &ChatDocHandle,
    id: String,
    payload: SessionCommandPayload,
    transfers: Vec<AttachmentTransfer>,
    last_message: Option<String>,
    now: i64,
    ttl: i64,
    plain: Result<QueuedCommand, DocError>,
    full: Result<QueuedCommand, DocError>,
)
    requires
        i64::MIN <= now + ttl <= i64::MAX,
        call_ensures(
            DocHost::queue_command,
            (host, handle, id, payload, last_message, now, ttl),
            plain,
        ),
        call_ensures(
            DocHost::queue_command_with_transfers,
            (host, handle, id, payload, transfers, last_message, now, ttl),
            full,
        ),
    ensures
        plain is Ok <==> !handle.generation_frozen && !handle.retired && !handle.purged,
        full is Ok <==> plain is Ok,
        plain is Err ==> plain->Err_0->Schema_0@ == "chat "@ + handle.chat_id@
            + " is frozen for room-generation cutover"@ && full->Err_0->Schema_0@
            == plain->Err_0->Schema_0@,
        plain matches Ok(q) ==> is_queued(q, *handle, id, payload, last_message, now, ttl)
            && q.transfers@.len() == 0,
        full matches Ok(q) ==> is_queued(q, *handle, id, payload, last_message, now, ttl)
            && q.transfers == transfers && q.entry.origin is None && (q.entry.user_id is Some
            <==> host.config.user_id@.len() > 0) && (q.entry.user_id is Some
            ==> q.entry.user_id->0@ == host.config.user_id@),
        plain matches Ok(q) ==> q.entry.origin is None && (q.entry.user_id is Some
            <==> host.config.user_id@.len() > 0) && (q.entry.user_id is Some
            ==> q.entry.user_id->0@ == host.config.user_id@),
{
}

/// A command in another name carries that name and that origin.
pub proof fn a_command_in_another_name_is_queued(
    host: &DocHost,
    handle: &ChatDocHandle,
    id: String,
    payload: SessionCommandPayload,
    user_id: Option<String>,
    origin: Option<CommandOrigin>,
    last_message: Option<String>,
    now: i64,
    ttl: i64,
    r: Result<QueuedCommand, DocError>,
)
    requires
        i64::MIN <= now + ttl <= i64::MAX,
        call_ensures(
            DocHost::queue_command_as,
            (host, handle, id, payload, user_id, origin, last_message, now, ttl),
            r,
        ),
    ensures
        r is Ok <==> !handle.generation_frozen && !handle.retired && !handle.purged,
        r matches Ok(q) ==> is_queued(q, *handle, id, payload, last_message, now, ttl)
            && q.entry.user_id == user_id && q.entry.origin == origin && q.transfers@.len() == 0,
        r is Err ==> r->Err_0->Schema_0@ == "chat "@ + handle.chat_id@
            + " is frozen for room-generation cutover"@,
{
}

/// The host opens and publishes by its own fences, nudges by its own edge and device, and
/// falls back to its own agent.
pub proof fn the_host_goes_by_what_it_knows(
    host: &DocHost,
    chat_id: &str,
    cached: Option<&ChatDocHandle>,
    purged: bool,
    opened: OpenStep,
    opens: OpenStep,
    exists: bool,
    published: PublishHandle,
    publishes: PublishHandle,
    chat: Option<Chat>,
    device: &str,
    nudged: Option<Nudge>,
    nudges: Option<Nudge>,
    config: Option<ChatConfig>,
    fallback: &str,
    agent: String,
    runs: String,
    signed_in: bool,
    reference: &str,
    fetched: Result<String, EngineError>,
    fetches: Result<String, EngineError>,
)
    requires
        purged == host.pending.purged.has(chat_id@),
        device@ == host.config.device_id@,
        fallback@ == host.config.default_harness@,
        call_ensures(DocHost::open, (host, chat_id, cached), opened),
        call_ensures(begin_open, (purged, chat_id, cached), opens),
        call_ensures(DocHost::publish_handle, (host, chat_id, exists), published),
        call_ensures(publish_handle, (purged, exists, chat_id), publishes),
        call_ensures(DocHost::nudge_remote_host, (host, &chat, chat_id), nudged),
        call_ensures(nudge_remote_host, (&host.config.edge, &chat, device, chat_id), nudges),
        call_ensures(DocHost::harness_for, (host, &config), agent),
        call_ensures(harness_for, (&config, fallback), runs),
        call_ensures(DocHost::fetch_tool_blob, (host, signed_in, reference), fetched),
        call_ensures(fetch_tool_blob, (&host.config.edge, signed_in, reference), fetches),
    ensures
        opened is Load <==> opens is Load,
        opened is Cached <==> opens is Cached,
        opened is Refused ==> opened->Refused_0.text() == opens->Refused_0.text(),
        published is Insert <==> publishes is Insert,
        published is Existing <==> publishes is Existing,
        nudged is Some <==> nudges is Some,
        nudged is Some ==> nudged->0.url@ == nudges->0.url@ && nudged->0.body@ == nudges->0.body@,
        agent@ == runs@,
        config is Some ==> agent@ == config->0.harness@,
        config is None ==> agent@ == host.config.default_harness@,
        fetched is Ok <==> fetches is Ok,
        fetched is Ok ==> fetched->Ok_0@ == fetches->Ok_0@,
        fetched is Err ==> fetched->Err_0.text() == fetches->Err_0.text(),
{
}

/// The host's sends are those of its limits.
pub proof fn the_host_sends_within_its_limits(
    host: &mut DocHost,
    limits: &mut SendLimits,
    from: &str,
    target: &str,
    message: &str,
    message_id: String,
    sent: Result<AgentSend, EngineError>,
    sends: Result<AgentSend, EngineError>,
)
    requires
        *old(limits) == old(host).limits,
        call_ensures(DocHost::send_to_session, (host, from, target, message, message_id), sent),
        call_ensures(
            SendLimits::send_to_session,
            (limits, from, target, message, message_id),
            sends,
        ),
    ensures
        sent is Ok <==> sends is Ok,
        sent is Err ==> sent->Err_0.text() == sends->Err_0.text(),
        sent matches Ok(send) ==> send.payload is Steer
            && send.payload->prompt@ == sends->Ok_0.payload->prompt@
            && send.payload->Steer_message_id == sends->Ok_0.payload->Steer_message_id
            && send.user_id->0@
            == sends->Ok_0.user_id->0@ && send.origin->0.hops == sends->Ok_0.origin->0.hops
            && send.origin->0.from_chat_id@ == sends->Ok_0.origin->0.from_chat_id@,
        final(host).limits.spent(from@) == final(limits).spent(from@),
        final(host).limits.depth(from@) == final(limits).depth(from@),
        final(host).pending == old(host).pending && final(host).executing == old(host).executing,
        final(host).config == old(host).config && final(host).drain_waiting == old(host).drain_waiting && final(host).connectivity_grace == old(host).connectivity_grace,
{
}

/// A forwarded command is claimed once: where it was claimed, coming again makes it a
/// duplicate.
pub proof fn a_forwarded_command_comes_once(
    host: &mut DocHost,
    missing: usize,
    executor: bool,
    disposition: CommandDisposition,
    id: &str,
    r: Result<RelayClaim, EngineError>,
    later: &mut DocHost,
    disposition_later: CommandDisposition,
    again: Result<RelayClaim, EngineError>,
    other: Seq<char>,
)
    requires
        call_ensures(
            DocHost::ingest_relayed_command,
            (host, missing, executor, disposition, id),
            r,
        ),
        *old(later) == *final(host),
        call_ensures(
            DocHost::ingest_relayed_command,
            (later, 0, true, disposition_later, id),
            again,
        ),
    ensures
        r is Ok <==> missing == 0 && executor,
        missing > 0 ==> r->Err_0.text() == "attachments not landed yet"@,
        missing == 0 && !executor ==> r->Err_0.text() == "executor unavailable"@,
        r is Ok && disposition != CommandDisposition::Skip && !old(host).executing.has(id@)
            ==> r->Ok_0 == RelayClaim::Claimed,
        r is Ok && (disposition == CommandDisposition::Skip || old(host).executing.has(id@))
            ==> r->Ok_0 == RelayClaim::Duplicate,
        r is Ok && r->Ok_0 == RelayClaim::Claimed ==> again is Ok && again->Ok_0
            == RelayClaim::Duplicate,
        final(host).config == old(host).config && final(host).pending == old(host).pending
            && final(host).limits == old(host).limits,
        final(host).drain_waiting == old(host).drain_waiting && final(host).connectivity_grace == old(host).connectivity_grace,
        other != id@ ==> final(host).executing.has(other) == old(host).executing.has(other),
        !(r is Ok && r->Ok_0 == RelayClaim::Claimed) ==> final(host).executing.has(id@) == old(host).executing.has(id@),
{
}

/// A new host has nothing under way, and is the device that it was set up as.
pub proof fn a_new_host_has_nothing_under_way(
    config: DocHostConfig,
    r: DocHost,
    device: &str,
    chat: Seq<char>,
)
    requires
        call_ensures(DocHost::new, (config,), r),
        call_ensures(DocHost::device_id, (&r,), device),
    ensures
        r.config == config,
        device@ == config.device_id@,
        r.pending.queue(chat).len() == 0 && !r.pending.purged.has(chat),
        !r.executing.has(chat) && !r.drain_waiting.has(chat),
        r.limits.depth(chat) == 0 && r.limits.spent(chat) == 0,
        r.connectivity_grace.os_path is None && r.connectivity_grace.registry is None,
        r.connectivity_grace.chats.at(chat) is None,
{
}

/// A deleted chat is fenced off and leaves nothing waiting; its handle takes nothing more,
/// its client is detached, and the document from before is to be deleted too. No other
/// chat is touched.
pub proof fn a_deleted_chat_is_fenced_off(
    host: &mut DocHost,
    handle: &mut ChatDocHandle,
    rollback: String,
    other: Seq<char>,
)
    requires
        old(host).wf(),
        other != old(handle).chat_id@,
        call_ensures(DocHost::purge_chat, (host, handle), rollback),
    ensures
        ({
            let chat = old(handle).chat_id@;
            &&& final(host).pending.purged.has(chat)
            &&& final(host).pending.queue(chat).len() == 0
            &&& rollback@ == chat + ".pre-chat2"@
        }),
        final(handle).purged && final(handle).retired && final(handle).generation_frozen,
        !final(handle).connected && final(handle).sink_generation != old(handle).sink_generation,
        final(host).pending.purged.has(other) == old(host).pending.purged.has(other),
        final(host).pending.queue(other) == old(host).pending.queue(other),
        final(host).limits == old(host).limits && final(host).executing == old(host).executing,
{
}

/// A pass over the commands of a chat begins on its host, where there is an executor and
/// the handle is the open one and not on its way out.
pub proof fn only_a_host_drains(
    host: &DocHost,
    handle: &ChatDocHandle,
    current: bool,
    executor: bool,
    is_host: bool,
    r: bool,
)
    requires
        call_ensures(DocHost::drain_commands, (host, handle, current, executor, is_host), r),
    ensures
        r ==> is_host && executor && current,
        r ==> !handle.generation_frozen && !handle.retired,
        is_host && executor && current && !handle.generation_frozen && !handle.retired ==> r,
{
}

} // verus!
