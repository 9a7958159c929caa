//! What the user is shown of the connection: trouble is reported once it has lasted,
//! and recovery at once.

use vstd::prelude::*;

use super::maps::TextMap;
use super::order::{rows_in_order, sort_rows};
use super::snapshots::ClientStats;
use crate::text::texts;

verus! {

/// How long raw degradation must persist before connectivity reports it. Room joins,
/// idle-link wakes, and navigation dials resolve well under a second on healthy
/// networks; real outages outlive this comfortably. Recovery is never delayed.
pub const DEGRADE_GRACE_MS: u64 = 4_000;

/// One tracked source of degradation.
#[derive(Debug, Clone, Copy)]
pub enum GraceKey<'a> {
    OsPath,
    Registry,
    Chat(&'a str),
}

/// Show-slow / hide-fast hysteresis over raw connectivity signals: since when each
/// source has been degraded, in milliseconds of a clock that never goes back.
#[derive(Debug)]
pub struct DegradeGrace {
    pub os_path: Option<u64>,
    pub registry: Option<u64>,
    pub chats: TextMap<u64>,
}

/// Since when a source counts as degraded, after a sample.
pub open spec fn degraded_since(since: Option<u64>, raw: bool, now: u64) -> Option<u64> {
    if raw {
        match since {
            Some(t) => Some(t),
            None => Some(now),
        }
    } else {
        None
    }
}

/// Degradation that began at some time is reported at another.
pub open spec fn reports(since: Option<u64>, now: u64) -> bool {
    since is Some && now >= since->0 + DEGRADE_GRACE_MS
}

fn report(since: u64, now: u64) -> (r: bool)
    ensures
        r == reports(Some(since), now),
{
    now >= since && now - since >= DEGRADE_GRACE_MS
}

impl DegradeGrace {
    /// Since when a source has been degraded.
    pub open spec fn since(self, key: GraceKey) -> Option<u64> {
        match key {
            GraceKey::OsPath => self.os_path,
            GraceKey::Registry => self.registry,
            GraceKey::Chat(id) => self.chats.at(id@),
        }
    }

    pub fn new() -> (r: Self)
        ensures
            r.os_path is None,
            r.registry is None,
            forall|k: Seq<char>| #[trigger] r.chats.at(k) is None,
    {
        DegradeGrace { os_path: None, registry: None, chats: TextMap::new() }
    }

    /// Feed one raw sample; returns whether to REPORT the source as degraded. Healthy
    /// clears the timer instantly; degraded reports only once it has persisted for the
    /// grace. The other sources keep their timers.
    pub fn degraded(&mut self, key: GraceKey, raw: bool, now: u64) -> (r: bool)
        ensures
            final(self).since(key) == degraded_since(old(self).since(key), raw, now),
            r == reports(degraded_since(old(self).since(key), raw, now), now),
            !(key is OsPath) ==> final(self).os_path == old(self).os_path,
            !(key is Registry) ==> final(self).registry == old(self).registry,
            !(key is Chat) ==> final(self).chats == old(self).chats,
            key is Chat ==> forall|k: Seq<char>|
                k != key->Chat_0@ ==> #[trigger] final(self).chats.at(k) == old(self).chats.at(k),
    {
        match key {
            GraceKey::Chat(id) => {
                if !raw {
                    let _ = self.chats.remove(id);
                    return false;
                }
                let since: u64 = match self.chats.get(id) {
                    Some(since) => *since,
                    None => now,
                };
                if !self.chats.contains(id) {
                    self.chats.insert(id.to_owned(), now);
                }
                report(since, now)
            },
            GraceKey::OsPath => {
                if !raw {
                    self.os_path = None;
                    return false;
                }
                let since: u64 = match self.os_path {
                    Some(since) => since,
                    None => now,
                };
                self.os_path = Some(since);
                report(since, now)
            },
            GraceKey::Registry => {
                if !raw {
                    self.registry = None;
                    return false;
                }
                let since: u64 = match self.registry {
                    Some(since) => since,
                    None => now,
                };
                self.registry = Some(since);
                report(since, now)
            },
        }
    }

    /// Drop timers for chats that no longer have open docs.
    pub fn retain_chats(&mut self, open: &Vec<String>)
        ensures
            final(self).os_path == old(self).os_path,
            final(self).registry == old(self).registry,
            forall|k: Seq<char>| #[trigger]
                final(self).chats.at(k) == (if texts(open@).contains(k) {
                    old(self).chats.at(k)
                } else {
                    None
                }),
    {
        self.chats.retain(open);
    }
}

#[derive(Debug, Clone, Copy, PartialEq, Eq, Structural)]
pub enum ConnectivityState {
    /// No edge is expected: a local profile.
    Disabled,
    Connected,
    Reconnecting,
    Offline,
}

#[derive(Debug)]
pub struct ChatConnectivity {
    pub chat_id: String,
    pub connected: bool,
    pub pending_pushes: u64,
}

/// The posture of the edge connection.
#[derive(Debug)]
pub struct Connectivity {
    pub state: ConnectivityState,
    pub retry_at_ms: i64,
    pub last_failure: Option<String>,
    pub chats: Vec<ChatConnectivity>,
}

/// How the registry room reconnects.
#[derive(Debug)]
pub struct ReconnectState {
    pub retry_at_ms: i64,
    pub last_failure: Option<String>,
}

/// The samples that a posture is made of.
#[derive(Debug)]
pub struct Samples {
    /// An edge is configured, or the registry expects one.
    pub edge_expected: bool,
    /// The open chats, each once, with what is known of their room clients.
    pub statuses: Vec<(String, Option<ClientStats>)>,
    pub reconnect: Option<ReconnectState>,
    pub registry_connected: bool,
    pub path_offline: bool,
}

/// What is known of the rooms of the open chats, in the order of their ids.
pub fn sync_statuses(rows: Vec<(String, Option<ClientStats>)>) -> (r: Vec<
    (String, Option<ClientStats>),
>)
    ensures
        rows_in_order(r@),
        r@.to_multiset() == rows@.to_multiset(),
{
    sort_rows(rows)
}

/// No two rows are about the same chat.
pub open spec fn distinct_chats(rows: Seq<(String, Option<ClientStats>)>) -> bool {
    forall|i: int, j: int|
        0 <= i < j < rows.len() ==> #[trigger] rows[i].0@ != #[trigger] rows[j].0@
}

/// The chats of some rows.
pub open spec fn chats_of(rows: Seq<(String, Option<ClientStats>)>) -> Seq<Seq<char>> {
    rows.map_values(|row: (String, Option<ClientStats>)| row.0@)
}

/// A chat's room is connected; a client that says nothing is not.
pub open spec fn row_connected(row: (String, Option<ClientStats>)) -> bool {
    row.1 is Some && row.1->0.connected
}

/// What is shown of a chat.
pub open spec fn shown(
    row: (String, Option<ClientStats>),
    since: Option<u64>,
    now: u64,
    out: ChatConnectivity,
) -> bool {
    &&& out.chat_id == row.0
    &&& out.connected == !reports(degraded_since(since, !row_connected(row), now), now)
    &&& out.pending_pushes == (match row.1 {
        Some(s) => s.pending_pushes,
        None => 0,
    })
}

fn ids_of(rows: &Vec<(String, Option<ClientStats>)>) -> (r: Vec<String>)
    ensures
        texts(r@) == chats_of(rows@),
{
    let mut out: Vec<String> = Vec::new();
    let mut i: usize = 0;
    while i < rows.len()
        invariant
            i <= rows@.len(),
            texts(out@) == chats_of(rows@).take(i as int),
        decreases rows@.len() - i,
    {
        let ghost before = out@;
        out.push(rows[i].0.clone());
        assert(texts(out@) =~= texts(before).push(rows@[i as int].0@));
        assert(chats_of(rows@).take(i + 1) =~= chats_of(rows@).take(i as int).push(
            rows@[i as int].0@,
        ));
        i = i + 1;
    }
    assert(chats_of(rows@).take(i as int) =~= chats_of(rows@));
    out
}

/// One snapshot of the edge posture: the OS path beats the registry room beats the
/// rooms of the chats. Without an edge there is none, and no timer moves.
pub fn compute_connectivity(grace: &mut DegradeGrace, samples: Samples, now: u64) -> (r:
    Connectivity)
    requires
        distinct_chats(samples.statuses@),
    ensures
        !samples.edge_expected ==> r.state == ConnectivityState::Disabled && r.retry_at_ms == 0
            && r.last_failure is None && r.chats@.len() == 0 && *final(grace) == *old(grace),
        samples.edge_expected ==> {
            let os = degraded_since(old(grace).os_path, samples.path_offline, now);
            let registry = degraded_since(old(grace).registry, !samples.registry_connected, now);
            &&& final(grace).os_path == os
            &&& final(grace).registry == registry
            &&& r.chats@.len() == samples.statuses@.len()
            &&& forall|i: int|
                0 <= i < r.chats@.len() ==> shown(
                    samples.statuses@[i],
                    old(grace).chats.at(samples.statuses@[i].0@),
                    now,
                    #[trigger] r.chats@[i],
                )
            &&& forall|i: int|
                0 <= i < samples.statuses@.len() ==> final(grace).chats.at(
                    #[trigger] samples.statuses@[i].0@,
                ) == degraded_since(
                    old(grace).chats.at(samples.statuses@[i].0@),
                    !row_connected(samples.statuses@[i]),
                    now,
                )
            &&& forall|k: Seq<char>|
                !chats_of(samples.statuses@).contains(k) ==> #[trigger] final(grace).chats.at(
                    k,
                ) is None
            &&& if reports(os, now) {
                &&& r.state == ConnectivityState::Offline
                &&& r.retry_at_ms == 0
                &&& r.last_failure == (match samples.reconnect {
                    Some(c) => c.last_failure,
                    None => None,
                })
            } else if !reports(registry, now) {
                &&& r.state == ConnectivityState::Connected
                &&& r.retry_at_ms == 0
                &&& r.last_failure is None
            } else {
                &&& r.state == ConnectivityState::Reconnecting
                &&& r.retry_at_ms == (match samples.reconnect {
                    Some(c) => c.retry_at_ms,
                    None => 0,
                })
                &&& r.last_failure == (match samples.reconnect {
                    Some(c) => c.last_failure,
                    None => None,
                })
            }
        },
{
    if !samples.edge_expected {
        return Connectivity {
            state: ConnectivityState::Disabled,
            retry_at_ms: 0,
            last_failure: None,
            chats: Vec::new(),
        };
    }
    let ghost rows = samples.statuses@;
    let ghost timers = grace.chats;
    let open = ids_of(&samples.statuses);
    grace.retain_chats(&open);
    assert forall|i: int| 0 <= i < rows.len() implies chats_of(rows).contains(
        #[trigger] rows[i].0@,
    ) by {
        assert(chats_of(rows)[i] == rows[i].0@);
    }
    let mut chats: Vec<ChatConnectivity> = Vec::new();
    let mut i: usize = 0;
    while i < samples.statuses.len()
        invariant
            i <= samples.statuses@.len(),
            rows == samples.statuses@,
            distinct_chats(rows),
            chats@.len() == i,
            grace.os_path == old(grace).os_path,
            grace.registry == old(grace).registry,
            forall|j: int|
                0 <= j < i ==> shown(rows[j], timers.at(rows[j].0@), now, #[trigger] chats@[j]),
            forall|j: int|
                0 <= j < i ==> grace.chats.at(#[trigger] rows[j].0@) == degraded_since(
                    timers.at(rows[j].0@),
                    !row_connected(rows[j]),
                    now,
                ),
            forall|j: int|
                i <= j < rows.len() ==> grace.chats.at(#[trigger] rows[j].0@) == timers.at(
                    rows[j].0@,
                ),
            forall|k: Seq<char>|
                !chats_of(rows).contains(k) ==> #[trigger] grace.chats.at(k) is None,
            forall|j: int| 0 <= j < rows.len() ==> chats_of(rows).contains(#[trigger] rows[j].0@),
        decreases samples.statuses@.len() - i,
    {
        let row = &samples.statuses[i];
        let (raw_connected, pending): (bool, u64) = match row.1 {
            Some(s) => (s.connected, s.pending_pushes),
            None => (false, 0),
        };
        let ghost before = grace.chats;
        let degraded = grace.degraded(GraceKey::Chat(row.0.as_str()), !raw_connected, now);
        assert(rows[i as int].0@ == row.0@);
        assert forall|j: int| 0 <= j < rows.len() && j != i implies rows[j].0@ != row.0@ by {
            if j < i {
                assert(rows[j].0@ != rows[i as int].0@);
            } else {
                assert(rows[i as int].0@ != rows[j].0@);
            }
        }
        chats.push(
            ChatConnectivity {
                chat_id: row.0.clone(),
                connected: !degraded,
                pending_pushes: pending,
            },
        );
        i = i + 1;
    }
    let path_offline = grace.degraded(GraceKey::OsPath, samples.path_offline, now);
    let registry_down = grace.degraded(GraceKey::Registry, !samples.registry_connected, now);
    let (retry_at, last_failure): (i64, Option<String>) = match samples.reconnect {
        Some(c) => (c.retry_at_ms, c.last_failure),
        None => (0, None),
    };
    if path_offline {
        Connectivity { state: ConnectivityState::Offline, retry_at_ms: 0, last_failure, chats }
    } else if !registry_down {
        Connectivity {
            state: ConnectivityState::Connected,
            retry_at_ms: 0,
            last_failure: None,
            chats,
        }
    } else {
        Connectivity {
            state: ConnectivityState::Reconnecting,
            retry_at_ms: retry_at,
            last_failure,
            chats,
        }
    }
}

/// A source that is degraded from one time on is reported exactly when the grace has
/// passed, however often it is sampled in between; one healthy sample takes the report
/// back at once.
pub proof fn trouble_shows_slowly_and_hides_fast(start: u64, between: Seq<u64>, now: u64)
    ensures
        reports(
            degraded_since(sampled(Some(start), between), true, now),
            now,
        ) == (now >= start + DEGRADE_GRACE_MS),
        degraded_since(sampled(Some(start), between), false, now) is None,
    decreases between.len(),
{
    if between.len() > 0 {
        trouble_shows_slowly_and_hides_fast(start, between.drop_last(), now);
    }
}

/// Since when a source counts as degraded, after degraded samples at some times.
pub open spec fn sampled(since: Option<u64>, times: Seq<u64>) -> Option<u64>
    decreases times.len(),
{
    if times.len() == 0 {
        since
    } else {
        degraded_since(sampled(since, times.drop_last()), true, times.last())
    }
}

} // verus!
