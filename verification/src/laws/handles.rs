//! Laws of open documents: their handles, their eviction, and what is shown of them.

use vstd::prelude::*;

use crate::chat::sink::Lifecycle;
use crate::host::connectivity::{
    compute_connectivity, Connectivity, ConnectivityState, DegradeGrace, GraceKey, Samples,
};
use crate::host::handle::{
    estimate_of, recovery_part_id, resident_bytes, ChatDocHandle, ClientInstall, DocError, EntryHead,
    InstallPublish, InstallRound, LocalUpdateRoute, MessageRole, MessageStatus, MirrorUpdate,
    UserMessage,
};
use crate::host::lru::{
    begin_eviction, evicted, is_over_budget, pinned_without_drain, total_resident, DocUse, EvictionPass, EvictionStep,
};
use crate::host::order::rows_in_order;
use crate::host::pending::PendingUpdates;
use crate::text::texts;

verus! {

/// A handle takes writes while it is neither frozen nor retired nor deleted; a new one is
/// frozen until it is readied, and has nothing under way.
pub proof fn only_an_open_handle_takes_writes(
    handle: &ChatDocHandle,
    r: Result<(), DocError>,
    writer: Result<(), DocError>,
    chat_id: String,
    device_id: String,
    room_gen: u32,
    bytes: usize,
    purged: bool,
    now: i64,
    new: ChatDocHandle,
)
    requires
        call_ensures(ChatDocHandle::ensure_mutable, (handle,), r),
        call_ensures(ChatDocHandle::writer_doc, (handle,), writer),
        call_ensures(
            ChatDocHandle::new,
            (chat_id, device_id, room_gen, bytes, purged, now),
            new,
        ),
    ensures
        r is Ok <==> !handle.generation_frozen && !handle.retired && !handle.purged,
        writer is Ok <==> !handle.generation_frozen && !handle.retired && !handle.purged,
        r is Err ==> r->Err_0->Schema_0@ == "chat "@ + handle.chat_id@
            + " is frozen for room-generation cutover"@,
        writer is Err ==> writer->Err_0->Schema_0@ == "chat "@ + handle.chat_id@
            + " is frozen for room-generation cutover"@,
        new.chat_id == chat_id && new.device_id == device_id && new.room_gen == room_gen,
        new.generation_frozen && !new.retired && new.purged == purged,
        new.last_access == now && new.snapshot_bytes == bytes && new.mirror_dirty,
        !new.connected && !new.replay_from_zero && !new.local_update_tracking,
        new.local_callbacks_pending == 0 && new.checkpointed_rejections == 0,
        !new.checkpoint.running && !new.checkpoint.requested,
        new.checkpoint.reason@ == "unspecified"@,
        new.sink_generation == 0 && new.local_mutation_epoch == 0,
{
}

/// A message of the user is written once under its id, with its words, its time, its
/// author and this device.
pub proof fn a_message_is_written_once(
    handle: &ChatDocHandle,
    written: &Vec<String>,
    id: &str,
    message: &str,
    at: i64,
    author: Option<String>,
    r: Result<Option<UserMessage>, DocError>,
)
    requires
        call_ensures(
            ChatDocHandle::write_user_message,
            (handle, written, id, message, at, &author),
            r,
        ),
    ensures
        r is Ok <==> !handle.generation_frozen && !handle.retired && !handle.purged,
        r is Err ==> r->Err_0->Schema_0@ == "chat "@ + handle.chat_id@
            + " is frozen for room-generation cutover"@,
        r is Ok ==> (r->Ok_0 is Some <==> !texts(written@).contains(id@)),
        r is Ok && r->Ok_0 is Some ==> {
            let m = r->Ok_0->0;
            m.id@ == id@ && m.text@ == message@ && m.created_at == at
            && m.device_id@ == handle.device_id@ && m.user_id == author
        },
{
}

/// What this device was still writing is stamped, in order, and nothing else: an answer of
/// an agent that streams, from this very device.
pub proof fn only_own_streams_are_abandoned(
    handle: &ChatDocHandle,
    entries: &Vec<EntryHead>,
    more: &Vec<EntryHead>,
    last: EntryHead,
    r: Result<Vec<(String, i64)>, DocError>,
    more_r: Result<Vec<(String, i64)>, DocError>,
)
    requires
        !handle.generation_frozen && !handle.retired && !handle.purged,
        more@ == entries@.push(last),
        call_ensures(ChatDocHandle::mark_abandoned_streams, (handle, entries), r),
        call_ensures(ChatDocHandle::mark_abandoned_streams, (handle, more), more_r),
    ensures
        r is Ok && more_r is Ok,
        entries@.len() == 0 ==> r->Ok_0@.len() == 0,
        last.role == MessageRole::Assistant && last.status == Some(MessageStatus::Streaming)
            && last.device_id@ == handle.device_id@ ==> more_r->Ok_0@ == r->Ok_0@.push(
            (last.id, last.created_at),
        ),
        !(last.role == MessageRole::Assistant && last.status == Some(MessageStatus::Streaming)
            && last.device_id@ == handle.device_id@) ==> more_r->Ok_0@ == r->Ok_0@,
{
    assert(more@.drop_last() =~= entries@);
}

/// A closed handle stamps nothing, and says that its chat is frozen.
pub proof fn a_closed_handle_stamps_nothing(
    handle: &ChatDocHandle,
    entries: &Vec<EntryHead>,
    r: Result<Vec<(String, i64)>, DocError>,
)
    requires
        call_ensures(ChatDocHandle::mark_abandoned_streams, (handle, entries), r),
    ensures
        r is Err <==> handle.generation_frozen || handle.retired || handle.purged,
        r is Err ==> (r->Err_0)->Schema_0@ == "chat "@ + handle.chat_id@
            + " is frozen for room-generation cutover"@,
{
}

/// A commit ends only where one is pending.
pub proof fn no_commit_ends_where_none_is_pending(handle: &mut ChatDocHandle, counted: bool)
    requires
        call_ensures(ChatDocHandle::callback_done, (handle, counted), ()),
    ensures
        old(handle).local_callbacks_pending == 0 ==> *final(handle) == *old(handle),
        counted && old(handle).local_callbacks_pending > 0
            ==> final(handle).local_callbacks_pending + 1 == old(handle).local_callbacks_pending,
        *final(handle) == (ChatDocHandle {
            local_callbacks_pending: final(handle).local_callbacks_pending,
            ..*old(handle)
        }),
{
}

/// The note on an entry is named after it.
pub proof fn a_note_is_named_after_its_entry(id: &str, r: String)
    requires
        call_ensures(recovery_part_id, (id,), r),
    ensures
        r@ == id@ + "-recovery"@,
{
}

/// A mirror that nobody watched is rebuilt for the next one who does, and once.
pub proof fn an_unwatched_mirror_is_rebuilt_once(
    handle: &mut ChatDocHandle,
    watchers: usize,
    r: MirrorUpdate,
    first: &mut ChatDocHandle,
    at: i64,
    rebuild: bool,
    second: &mut ChatDocHandle,
    again: bool,
)
    requires
        call_ensures(ChatDocHandle::publish_messages_if_watched, (handle, watchers), r),
        *old(first) == *final(handle),
        call_ensures(ChatDocHandle::watch_messages, (first, at), rebuild),
        *old(second) == *final(first),
        call_ensures(ChatDocHandle::watch_messages, (second, at), again),
    ensures
        r == MirrorUpdate::Publish <==> watchers > 0,
        rebuild <==> watchers == 0,
        !again,
        final(first).last_access == at,
        *final(handle) == (ChatDocHandle {
            mirror_dirty: final(handle).mirror_dirty,
            ..*old(handle)
        }),
        *final(first) == (ChatDocHandle {
            mirror_dirty: false,
            last_access: at,
            ..*old(first)
        }),
{
}

/// A local commit counts as under way from before it is visible until its update was
/// handed over, and everything is to be replayed from then on.
pub proof fn a_commit_is_under_way_until_handed_over(
    handle: &mut ChatDocHandle,
    later: &mut ChatDocHandle,
)
    requires
        old(handle).local_update_tracking,
        old(handle).local_callbacks_pending < usize::MAX,
        call_ensures(ChatDocHandle::pre_commit, (handle,), ()),
        *old(later) == *final(handle),
        call_ensures(ChatDocHandle::callback_done, (later, true), ()),
    ensures
        final(handle).replay_from_zero,
        final(handle).local_callbacks_pending == old(handle).local_callbacks_pending + 1,
        *final(handle) == (ChatDocHandle {
            replay_from_zero: true,
            local_callbacks_pending: final(handle).local_callbacks_pending,
            local_mutation_epoch: final(handle).local_mutation_epoch,
            ..*old(handle)
        }),
        *final(later) == (ChatDocHandle {
            local_callbacks_pending: old(handle).local_callbacks_pending,
            ..*old(later)
        }),
        final(handle).local_mutation_epoch != old(handle).local_mutation_epoch,
        final(later).local_callbacks_pending == old(handle).local_callbacks_pending,
        final(later).replay_from_zero,
        final(later).local_mutation_epoch == final(handle).local_mutation_epoch,
{
}

/// A handle that does not track commits is left alone by them, and a commit that was not
/// counted ends none.
pub proof fn untracked_commits_do_not_count(handle: &mut ChatDocHandle, later: &mut ChatDocHandle)
    requires
        !old(handle).local_update_tracking,
        call_ensures(ChatDocHandle::pre_commit, (handle,), ()),
        call_ensures(ChatDocHandle::callback_done, (later, false), ()),
    ensures
        *final(handle) == *old(handle),
        *final(later) == *old(later),
{
}

/// A local update goes to the client where there is one, and waits otherwise; a closed
/// handle takes none. What goes anywhere is to be replayed until it is acknowledged.
pub proof fn a_local_update_is_never_left_out(handle: &mut ChatDocHandle, r: LocalUpdateRoute)
    requires
        call_ensures(ChatDocHandle::route_local_update, (handle,), r),
    ensures
        r == LocalUpdateRoute::Drop <==> old(handle).generation_frozen || old(handle).retired
            || old(handle).purged,
        r == LocalUpdateRoute::Client ==> old(handle).connected && final(handle).replay_from_zero,
        r == LocalUpdateRoute::Buffer ==> !old(handle).connected && final(handle).replay_from_zero,
        r == LocalUpdateRoute::Drop ==> *final(handle) == *old(handle),
        r != LocalUpdateRoute::Drop ==> *final(handle) == (ChatDocHandle {
            replay_from_zero: true,
            ..*old(handle)
        }),
        r == LocalUpdateRoute::Client <==> r != LocalUpdateRoute::Drop && old(handle).connected,
{
}

/// A client is installed anew where something waits that it could not take.
pub proof fn what_waits_is_tried_again(
    handle: &mut ChatDocHandle,
    pending: &mut PendingUpdates,
    r: Option<ClientInstall>,
    chat: Seq<char>,
)
    requires
        old(pending).wf(),
        chat == old(handle).chat_id@,
        call_ensures(ChatDocHandle::flush_buffered_chat2_updates, (handle, pending), r),
    ensures
        r is Some <==> !old(handle).purged && old(handle).connected && old(pending).queue(
            chat,
        ).len() > 0,
        r is Some ==> r->0.generation == old(handle).sink_generation && r->0.count == 0 && !final(handle).connected,
        r is None ==> *final(handle) == *old(handle),
        r is Some ==> *final(handle) == (ChatDocHandle { connected: false, ..*old(handle) }),
        old(handle).purged ==> final(pending).queue(chat).len() == 0,
        !old(handle).purged ==> final(pending).queue(chat) == old(pending).queue(chat),
{
}

/// A client is in place only once everything that waited was handed to it, in order: what
/// came first, first. A handle that closed, or got another client, takes none.
pub proof fn a_client_gets_everything_that_waited(
    install: &mut ClientInstall,
    handle: &ChatDocHandle,
    pending: &mut PendingUpdates,
    begun: InstallRound,
    going: &mut ClientInstall,
    target: &mut ChatDocHandle,
    late: &mut PendingUpdates,
    r: InstallPublish,
)
    requires
        old(pending).wf(),
        old(late).wf(),
        old(install).count + old(pending).queue(handle.chat_id@).len() <= usize::MAX,
        old(going).count + old(late).queue(old(target).chat_id@).len() <= usize::MAX,
        call_ensures(ClientInstall::begin, (install, handle, pending), begun),
        call_ensures(ClientInstall::publish, (going, target, late), r),
    ensures
        ({
            let gone = handle.purged || old(pending).purged.has(handle.chat_id@);
            &&& begun is Discard <==> gone
            &&& begun is Enqueue ==> begun->Enqueue_0@ == old(pending).queue(handle.chat_id@)
                && final(install).count == old(install).count + begun->Enqueue_0@.len()
            &&& final(pending).queue(handle.chat_id@).len() == 0
            &&& final(install).generation == old(install).generation
            &&& begun is Discard ==> final(install).count == old(install).count
        }),
        ({
            let chat = old(target).chat_id@;
            let open = !old(target).generation_frozen && !old(target).retired && !old(target).purged && old(target).sink_generation == old(going).generation;
            let more = old(late).queue(chat);
            &&& r is Carry <==> !open
            &&& r is Carry ==> *final(target) == *old(target) && *final(late) == *old(late)
            &&& r is Again <==> open && more.len() > 0
            &&& r is Again ==> r->Again_0@ == more && !(final(target).connected && !old(target).connected) && final(late).queue(chat).len() == 0
            &&& r is Installed <==> open && more.len() == 0
            &&& r is Installed ==> final(target).connected && r->Installed_0 == old(going).count
            &&& r is Installed ==> *final(target) == (ChatDocHandle {
                connected: true,
                ..*old(target)
            })
            &&& r is Again ==> *final(target) == *old(target) && final(going).count == old(going).count + more.len()
            &&& final(going).generation == old(going).generation
        }),
{
}

// ---------------------------------------------------------------------------
// Eviction
// ---------------------------------------------------------------------------

/// What a document takes: six times its snapshot, and half a megabyte at least.
pub open spec fn takes_about(snapshot_bytes: int) -> int {
    if snapshot_bytes * 6 > 524_288 {
        snapshot_bytes * 6
    } else {
        524_288
    }
}

/// What documents take together.
pub open spec fn take_about(sizes: Seq<usize>) -> int
    decreases sizes.len(),
{
    if sizes.len() == 0 {
        0
    } else {
        take_about(sizes.drop_last()) + takes_about(sizes.last() as int)
    }
}

proof fn totals_agree(sizes: Seq<usize>)
    requires
        forall|i: int| 0 <= i < sizes.len() ==> #[trigger] sizes[i] * 6 <= usize::MAX,
    ensures
        total_resident(sizes) == take_about(sizes),
    decreases sizes.len(),
{
    if sizes.len() > 0 {
        let less = sizes.drop_last();
        assert forall|i: int| 0 <= i < less.len() implies #[trigger] less[i] * 6 <= usize::MAX by {
            assert(less[i] == sizes[i]);
        }
        totals_agree(less);
        assert(sizes[sizes.len() - 1] * 6 <= usize::MAX);
        assert(resident_bytes(sizes.last()) == takes_about(sizes.last() as int));
    }
}

/// Documents are too many past twelve, or past what they may take together.
pub proof fn twelve_documents_stay_warm(sizes: &Vec<usize>, budget: usize, r: bool)
    requires
        forall|i: int| 0 <= i < sizes@.len() ==> #[trigger] sizes@[i] * 6 <= usize::MAX,
        total_resident(sizes@) <= usize::MAX,
        call_ensures(is_over_budget, (sizes, budget), r),
    ensures
        r <==> sizes@.len() > 12 || take_about(sizes@) > budget,
{
    totals_agree(sizes@);
}

/// An open document takes up about six times its snapshot, and never less than half a
/// mebibyte.
pub proof fn a_document_takes_six_times_its_snapshot(handle: &ChatDocHandle, r: usize)
    requires
        handle.snapshot_bytes * 6 <= usize::MAX,
        call_ensures(ChatDocHandle::resident_estimate, (handle,), r),
    ensures
        r == takes_about(handle.snapshot_bytes as int),
{
}

/// The first document that is looked at is one of those, and none was used longer ago; it
/// was not used for half a minute, and there are too many. A pass that ends at once had no
/// reason to look, or no document that old.
pub proof fn the_oldest_document_goes_first(
    documents: Vec<(i64, String, ())>,
    pass: EvictionPass,
    going: &mut EvictionPass,
    now: i64,
    over: bool,
    r: EvictionStep,
)
    requires
        call_ensures(EvictionPass::new, (documents,), pass),
        *old(going) == pass,
        call_ensures(EvictionPass::step, (going, now, over), r),
    ensures
        r matches EvictionStep::Consider(chat) ==> {
            &&& over
            &&& exists|i: int|
                0 <= i < documents@.len() && (#[trigger] documents@[i]).1 == chat && now
                    - documents@[i].0 >= 30_000 && forall|j: int|
                    0 <= j < documents@.len() ==> documents@[i].0 <= (#[trigger] documents@[j]).0
        },
        r is Done && over ==> forall|j: int|
            0 <= j < documents@.len() ==> now - (#[trigger] documents@[j]).0 < 30_000,
{
    let order = pass.order@;
    order.to_multiset_ensures();
    documents@.to_multiset_ensures();
    assert(order.len() == documents@.len());
    assert forall|j: int| 0 <= j < documents@.len() implies order.contains(
        #[trigger] documents@[j],
    ) by {
        assert(documents@.contains(documents@[j]));
        assert(documents@.to_multiset().count(documents@[j]) > 0);
        assert(order.to_multiset().count(documents@[j]) > 0);
    }
    assert(rows_in_order(order));
    if order.len() > 0 {
        let first = order[0];
        assert(order.contains(first));
        assert(order.to_multiset().count(first) > 0);
        assert(documents@.to_multiset().count(first) > 0);
        assert(documents@.contains(first));
        let i = choose|i: int| 0 <= i < documents@.len() && documents@[i] == first;
        assert forall|j: int| 0 <= j < documents@.len() implies documents@[i].0 <= (
        #[trigger] documents@[j]).0 by {
            let k = choose|k: int| 0 <= k < order.len() && order[k] == documents@[j];
            if k > 0 {
                assert(!crate::host::order::Ordered::less(order[k], order[0]));
            }
        }
        assert(documents@[i].1 == first.1);
    }
}

/// A document is evicted only where nobody uses it: it is the open one and ready, no
/// executor is at it, nobody watches or writes it, and on its host it is known to owe no
/// work. What goes is to be replayed in full.
pub proof fn a_used_document_stays(
    handle: &mut ChatDocHandle,
    current: bool,
    usage: &DocUse,
    evict: bool,
)
    requires
        call_ensures(begin_eviction, (handle, current, usage), evict),
    ensures
        evict <==> current && !usage.draining && !old(handle).generation_frozen && usage.watchers
            == 0 && usage.writers == 0 && (!usage.is_host || usage.owes_work == Some(false)),
        evict && old(handle).room_gen >= 2 ==> *final(handle) == (ChatDocHandle {
            replay_from_zero: true,
            ..*old(handle)
        }),
        !evict || old(handle).room_gen < 2 ==> *final(handle) == *old(handle),
{
}

/// A document that could not be saved stays open; one that goes takes its client along.
pub proof fn an_unsaved_document_stays(handle: &mut ChatDocHandle, saved: bool, gone: bool)
    requires
        call_ensures(evicted, (handle, saved), gone),
    ensures
        gone <==> saved,
        gone ==> final(handle).retired && !final(handle).connected && final(handle).sink_generation
            != old(handle).sink_generation,
        gone ==> *final(handle) == (ChatDocHandle {
            retired: true,
            connected: false,
            sink_generation: final(handle).sink_generation,
            ..*old(handle)
        }),
        !gone ==> *final(handle) == *old(handle),
{
}

/// A pass looks at its documents one by one, in its order, while there are too many and
/// the next was not used for half a minute, and ends otherwise.
pub proof fn a_pass_goes_on_in_its_order(
    pass: &mut EvictionPass,
    now: i64,
    over: bool,
    r: EvictionStep,
)
    requires
        old(pass).wf(),
        call_ensures(EvictionPass::step, (pass, now, over), r),
    ensures
        final(pass).order == old(pass).order,
        ({
            let next = old(pass).next;
            let order = old(pass).order@;
            &&& r is Consider <==> over && next < order.len() && now - order[next as int].0
                >= 30_000
            &&& r is Consider ==> r->Consider_0 == order[next as int].1 && final(pass).next == next
                + 1
            &&& r is Done ==> final(pass).next == next
        }),
{
}

// ---------------------------------------------------------------------------
// Connectivity
// ---------------------------------------------------------------------------

/// Trouble is reported once it has lasted four seconds, and not after any healthy sample.
pub proof fn trouble_is_reported_after_four_seconds(
    grace: &mut DegradeGrace,
    key: GraceKey,
    raw: bool,
    start: u64,
    r: bool,
    later: &mut DegradeGrace,
    raw_later: bool,
    now: u64,
    r_later: bool,
)
    requires
        old(grace).since(key) is None,
        call_ensures(DegradeGrace::degraded, (grace, key, raw, start), r),
        *old(later) == *final(grace),
        call_ensures(DegradeGrace::degraded, (later, key, raw_later, now), r_later),
    ensures
        !r,
        raw && raw_later ==> (r_later <==> now >= start + 4_000),
        !raw || !raw_later ==> !r_later,
        !raw_later ==> final(later).since(key) is None,
{
}

/// A timer runs from the first bad sample, and is gone with the first good one.
pub open spec fn runs_on(before: Option<u64>, after: Option<u64>, bad: bool, now: u64) -> bool {
    &&& !bad ==> after is None
    &&& bad && before is Some ==> after == before
    &&& bad && before is None ==> after == Some(now)
}

/// A sample of one source moves its own timer, and no other.
pub proof fn each_source_has_its_own_timer(
    grace: &mut DegradeGrace,
    key: GraceKey,
    raw: bool,
    now: u64,
    r: bool,
    new: DegradeGrace,
    chat: Seq<char>,
)
    requires
        call_ensures(DegradeGrace::new, (), new),
        call_ensures(DegradeGrace::degraded, (grace, key, raw, now), r),
        key matches GraceKey::Chat(id) ==> id@ != chat,
    ensures
        new.os_path is None && new.registry is None && new.chats.at(chat) is None,
        key is OsPath ==> runs_on(old(grace).os_path, final(grace).os_path, raw, now),
        key is Registry ==> runs_on(old(grace).registry, final(grace).registry, raw, now),
        key matches GraceKey::Chat(id) ==> runs_on(
            old(grace).chats.at(id@),
            final(grace).chats.at(id@),
            raw,
            now,
        ),
        !(key is OsPath) ==> final(grace).os_path == old(grace).os_path,
        !(key is Registry) ==> final(grace).registry == old(grace).registry,
        final(grace).chats.at(chat) == old(grace).chats.at(chat),
{
}

/// The posture without an edge is none; with one, the path of the machine counts before
/// the registry's room. Each counts once it was bad for four seconds.
pub proof fn the_path_counts_before_the_registry(
    grace: &mut DegradeGrace,
    samples: Samples,
    now: u64,
    r: Connectivity,
)
    requires
        crate::host::connectivity::distinct_chats(samples.statuses@),
        call_ensures(compute_connectivity, (grace, samples, now), r),
    ensures
        ({
            let path = samples.path_offline && old(grace).os_path is Some && now >= old(grace).os_path->0 + 4_000;
            let registry = !samples.registry_connected && old(grace).registry is Some && now >= old(grace).registry->0 + 4_000;
            &&& r.state == ConnectivityState::Disabled <==> !samples.edge_expected
            &&& r.state == ConnectivityState::Offline <==> samples.edge_expected && path
            &&& r.state == ConnectivityState::Reconnecting <==> samples.edge_expected && !path
                && registry
            &&& r.state == ConnectivityState::Connected <==> samples.edge_expected && !path
                && !registry
            &&& r.state == ConnectivityState::Reconnecting && samples.reconnect is Some
                ==> r.retry_at_ms == samples.reconnect->0.retry_at_ms && r.last_failure
                == samples.reconnect->0.last_failure
            &&& r.state == ConnectivityState::Offline && samples.reconnect is Some
                ==> r.retry_at_ms == 0 && r.last_failure == samples.reconnect->0.last_failure
            &&& r.state == ConnectivityState::Disabled || r.state == ConnectivityState::Connected
                || samples.reconnect is None ==> r.retry_at_ms == 0 && r.last_failure is None
            &&& samples.edge_expected ==> r.chats@.len() == samples.statuses@.len()
            &&& !samples.edge_expected ==> r.chats@.len() == 0 && *final(grace) == *old(grace)
        }),
        samples.edge_expected ==> runs_on(
            old(grace).os_path,
            final(grace).os_path,
            samples.path_offline,
            now,
        ),
        samples.edge_expected ==> runs_on(
            old(grace).registry,
            final(grace).registry,
            !samples.registry_connected,
            now,
        ),
{
}

/// Each open chat is shown in its place: as connected unless its room was down for four
/// seconds, with what it has not delivered.
pub proof fn each_chat_is_shown(
    grace: &mut DegradeGrace,
    samples: Samples,
    now: u64,
    r: Connectivity,
    i: int,
    gone: Seq<char>,
)
    requires
        crate::host::connectivity::distinct_chats(samples.statuses@),
        call_ensures(compute_connectivity, (grace, samples, now), r),
        samples.edge_expected,
        0 <= i < samples.statuses@.len(),
    ensures
        ({
            let (chat, stats) = samples.statuses@[i];
            let since = old(grace).chats.at(chat@);
            let down = !(stats is Some && stats->0.connected);
            &&& r.chats@[i].chat_id == chat
            &&& r.chats@[i].connected <==> !(down && since is Some && now >= since->0 + 4_000)
            &&& stats is Some ==> r.chats@[i].pending_pushes == stats->0.pending_pushes
            &&& stats is None ==> r.chats@[i].pending_pushes == 0
            &&& runs_on(since, final(grace).chats.at(chat@), down, now)
        }),
        (forall|j: int| 0 <= j < samples.statuses@.len() ==> (#[trigger] samples.statuses@[j]).0@
            != gone) ==> final(grace).chats.at(gone) is None,
{
    let row = samples.statuses@[i];
    assert(row.0@ == samples.statuses@[i].0@);
    if forall|j: int|
        0 <= j < samples.statuses@.len() ==> (#[trigger] samples.statuses@[j]).0@ != gone {
        let all = crate::host::connectivity::chats_of(samples.statuses@);
        assert(!all.contains(gone)) by {
            if all.contains(gone) {
                let j = choose|j: int| 0 <= j < all.len() && all[j] == gone;
                assert(samples.statuses@[j].0@ == gone);
            }
        }
    }
}

/// A touch says when a handle was used last and nothing else; a detached client is no
/// longer connected, and its late calls count for nothing; a deleted chat has a closed
/// handle. The fence of a handle is what its sinks are held to.
pub proof fn a_handle_is_touched_detached_and_closed(
    touching: &mut ChatDocHandle,
    now: i64,
    detaching: &mut ChatDocHandle,
    purging: &mut ChatDocHandle,
    closed: bool,
    life: Lifecycle,
    id: &str,
    connected: bool,
)
    requires
        call_ensures(ChatDocHandle::touch, (touching, now), ()),
        call_ensures(ChatDocHandle::detach_client, (detaching,), ()),
        call_ensures(ChatDocHandle::purge, (purging,), ()),
        call_ensures(ChatDocHandle::is_closed, (&*final(purging),), closed),
        call_ensures(ChatDocHandle::lifecycle, (&*final(detaching),), life),
        call_ensures(ChatDocHandle::chat_id, (&*final(detaching),), id),
        call_ensures(ChatDocHandle::connected, (&*final(detaching),), connected),
    ensures
        *final(touching) == (ChatDocHandle { last_access: now, ..*old(touching) }),
        !connected,
        id@ == old(detaching).chat_id@,
        final(detaching).sink_generation != old(detaching).sink_generation,
        final(detaching).generation_frozen == old(detaching).generation_frozen && final(detaching).retired
            == old(detaching).retired && final(detaching).purged == old(detaching).purged,
        life.generation == final(detaching).sink_generation,
        life.frozen == old(detaching).generation_frozen,
        life.replay_from_zero == old(detaching).replay_from_zero,
        closed,
        final(purging).purged && final(purging).retired && final(purging).generation_frozen,
        !final(purging).connected,
        final(purging).sink_generation != old(purging).sink_generation,
        final(purging).chat_id == old(purging).chat_id,
{
}

/// A handle is closed while it is frozen, retired or deleted, and open otherwise.
pub proof fn a_handle_is_closed_while_anything_closes_it(handle: &ChatDocHandle, r: bool)
    requires
        call_ensures(ChatDocHandle::is_closed, (handle,), r),
    ensures
        r <==> handle.generation_frozen || handle.retired || handle.purged,
{
}

/// A document stays while it is frozen, watched or written to, and on its host while it
/// has work to do or that cannot be told.
pub proof fn what_is_in_use_is_pinned(handle: &ChatDocHandle, usage: &DocUse, r: bool)
    requires
        call_ensures(pinned_without_drain, (handle, usage), r),
    ensures
        handle.generation_frozen ==> r,
        usage.watchers > 0 || usage.writers > 0 ==> r,
        usage.is_host && (usage.owes_work is None || usage.owes_work->0) ==> r,
        r ==> handle.generation_frozen || usage.watchers > 0 || usage.writers > 0 || (usage.is_host
            && (usage.owes_work is None || usage.owes_work->0)),
{
}

/// A snapshot is taken to need six times its size in memory, and no less than half
/// a mebibyte.
pub proof fn an_estimate_has_a_floor(bytes: usize, r: usize)
    requires
        bytes * 6 <= usize::MAX,
        call_ensures(estimate_of, (bytes,), r),
    ensures
        bytes * 6 >= 524_288 ==> r == bytes * 6,
        bytes * 6 < 524_288 ==> r == 524_288,
{
}

} // verus!
