//! Run-time state of the application: which services it tracks as
//! connected, and the statistics shown on the dashboard with the rule for
//! refreshing them.
use vstd::prelude::*;
use crate::keyed::{keys_unique, to_map, KeyedList};
use crate::aggregator::AggregatorStatistics;

verus! {

/// A tracked connection to a service. Times are milliseconds since the
/// Unix epoch.
#[derive(Debug)]
pub struct ConnectionInfo {
    /// The service.
    pub service_id: String,
    /// When tracking started.
    pub connected_at: u64,
    /// Whether the connection is in use.
    pub is_active: bool,
}

/// A connection tracked since `connected_at` is older than `max_age` ms at
/// `now`; a clock reading before it counts as age zero.
pub open spec fn too_old(connected_at: u64, now: u64, max_age: u64) -> bool {
    now > connected_at && now - connected_at > max_age
}

/// How many entries are active.
pub open spec fn count_active(s: Seq<(String, ConnectionInfo)>) -> nat
    decreases s.len(),
{
    if s.len() == 0 {
        0
    } else {
        count_active(s.drop_last()) + if s.last().1.is_active {
            1nat
        } else {
            0nat
        }
    }
}

/// How many entries are older than `max_age` at `now`.
pub open spec fn count_old(s: Seq<(String, ConnectionInfo)>, now: u64, max_age: u64) -> nat
    decreases s.len(),
{
    if s.len() == 0 {
        0
    } else {
        count_old(s.drop_last(), now, max_age) + if too_old(s.last().1.connected_at, now, max_age) {
            1nat
        } else {
            0nat
        }
    }
}

proof fn lemma_count_le(s: Seq<(String, ConnectionInfo)>, now: u64, max_age: u64)
    ensures
        count_old(s, now, max_age) <= s.len(),
        count_active(s) <= s.len(),
    decreases s.len(),
{
    if s.len() > 0 {
        lemma_count_le(s.drop_last(), now, max_age);
    }
}

/// What a cleanup at `now` of connections older than `max_age` ms leaves
/// and reports: the count of entries it drops, and the connections not too
/// old, unchanged.
pub open spec fn cleanup_outcome(
    before: ConnectionTracker,
    after: ConnectionTracker,
    removed: usize,
    max_age: u64,
    now: u64,
) -> bool {
    &&& removed == count_old(before.entries(), now, max_age)
    &&& forall|k: Seq<char>|
        #[trigger] after.connections().contains_key(k) <==> (before.connections().contains_key(k) && !too_old(
            before.connections()[k].connected_at,
            now,
            max_age,
        ))
    &&& forall|k: Seq<char>|
        #[trigger] after.connections().contains_key(k) ==> after.connections()[k] == before.connections()[k]
}

/// The connections the application tracks, one per service.
pub struct ConnectionTracker {
    active_connections: KeyedList<ConnectionInfo>,
}

impl ConnectionTracker {
    /// The tracked connection of each service.
    pub closed spec fn connections(&self) -> Map<Seq<char>, ConnectionInfo> {
        self.active_connections@
    }

    /// The tracked entries, in the order services were first tracked.
    pub closed spec fn entries(&self) -> Seq<(String, ConnectionInfo)> {
        self.active_connections.entry_seq()
    }

    /// Tracks nothing.
    pub fn new() -> (r: Self)
        ensures
            r.connections() == Map::<Seq<char>, ConnectionInfo>::empty(),
    {
        ConnectionTracker { active_connections: KeyedList::new() }
    }

    /// Starts or renews tracking of a service at `now` (ms).
    pub fn track_connection_at(&mut self, service_id: String, is_active: bool, now: u64)
        ensures
            final(self).connections() == old(self).connections().insert(
                service_id@,
                ConnectionInfo { service_id, connected_at: now, is_active },
            ),
    {
        let info = ConnectionInfo { service_id: service_id.clone(), connected_at: now, is_active };
        self.active_connections.insert(service_id, info);
    }

    /// Starts or renews tracking of a service now.
    pub fn track_connection(&mut self, service_id: String, is_active: bool)
        ensures
            final(self).connections().dom() == old(self).connections().dom().insert(service_id@),
            final(self).connections()[service_id@].is_active == is_active,
    {
        let now = crate::clock::system_now_millis();
        self.track_connection_at(service_id, is_active, now);
    }

    /// Stops tracking a service.
    pub fn remove_connection_tracking(&mut self, service_id: &str)
        ensures
            final(self).connections() == old(self).connections().remove(service_id@),
    {
        let _ = self.active_connections.remove(service_id);
    }

    /// How many tracked connections are active.
    pub fn get_active_connection_count(&self) -> (r: usize)
        ensures
            r == count_active(self.entries()),
    {
        let entries = self.active_connections.entries();
        let mut n: usize = 0;
        let mut i: usize = 0;
        while i < entries.len()
            invariant
                i <= entries@.len(),
                entries@ == self.active_connections.entry_seq(),
                n == count_active(entries@.take(i as int)),
            decreases entries@.len() - i,
        {
            assert(entries@.take(i + 1).drop_last() =~= entries@.take(i as int));
            proof {
                lemma_count_le(entries@.take(i as int), 0, 0);
            }
            if entries[i].1.is_active {
                n = n + 1;
            }
            i += 1;
        }
        assert(entries@.take(entries@.len() as int) =~= entries@);
        n
    }

    /// Stops tracking every connection older than `max_age` ms at `now`,
    /// and says how many were dropped.
    pub fn cleanup_old_connections_at(&mut self, max_age: u64, now: u64) -> (r: usize)
        ensures
            r == count_old(old(self).entries(), now, max_age),
            forall|k: Seq<char>|
                #[trigger] final(self).connections().contains_key(k) <==> (old(self).connections().contains_key(k)
                    && !too_old(old(self).connections()[k].connected_at, now, max_age)),
            forall|k: Seq<char>|
                #[trigger] final(self).connections().contains_key(k) ==> final(self).connections()[k] == old(
                    self,
                ).connections()[k],
    {
        let mut old_list = KeyedList::new();
        std::mem::swap(&mut old_list, &mut self.active_connections);
        let ghost om = old_list@;
        let entries = old_list.entries();
        let ghost es = entries@;
        let mut kept: KeyedList<ConnectionInfo> = KeyedList::new();
        let mut removed: usize = 0;
        let mut i: usize = 0;
        while i < entries.len()
            invariant
                i <= es.len(),
                es == entries@,
                keys_unique(es),
                om == to_map(es),
                removed == count_old(es.take(i as int), now, max_age),
                forall|k: Seq<char>|
                    #[trigger] kept@.contains_key(k) <==> (exists|j: int|
                        0 <= j < i && #[trigger] es[j].0@ == k && !too_old(es[j].1.connected_at, now, max_age)),
                forall|k: Seq<char>| #[trigger] kept@.contains_key(k) ==> kept@[k] == om[k],
            decreases es.len() - i,
        {
            assert(es.take(i + 1).drop_last() =~= es.take(i as int));
            proof {
                lemma_count_le(es.take(i as int), now, max_age);
                crate::keyed::lemma_entry_is_mapped(es, i as int);
            }
            let e = &entries[i];
            let old_enough = now > e.1.connected_at && now - e.1.connected_at > max_age;
            if old_enough {
                removed = removed + 1;
            } else {
                let info = ConnectionInfo {
                    service_id: e.1.service_id.clone(),
                    connected_at: e.1.connected_at,
                    is_active: e.1.is_active,
                };
                kept.insert(e.0.clone(), info);
            }
            proof {
                assert forall|k: Seq<char>| #[trigger] kept@.contains_key(k) <==> (exists|j: int|
                    0 <= j < i + 1 && #[trigger] es[j].0@ == k && !too_old(es[j].1.connected_at, now, max_age)) by {
                    if exists|j: int| 0 <= j < i + 1 && #[trigger] es[j].0@ == k && !too_old(es[j].1.connected_at, now, max_age) {
                        let j = choose|j: int| 0 <= j < i + 1 && #[trigger] es[j].0@ == k && !too_old(es[j].1.connected_at, now, max_age);
                        if j < i {
                        } else {
                            assert(j == i);
                        }
                    }
                }
            }
            i += 1;
        }
        assert(es.take(es.len() as int) =~= es);
        proof {
            assert forall|k: Seq<char>| #[trigger] kept@.contains_key(k) <==> (om.contains_key(k) && !too_old(
                om[k].connected_at,
                now,
                max_age,
            )) by {
                if om.contains_key(k) {
                    let j = crate::keyed::key_index(es, k);
                    crate::keyed::lemma_entry_is_mapped(es, j);
                    if exists|j2: int| 0 <= j2 < es.len() && #[trigger] es[j2].0@ == k && !too_old(es[j2].1.connected_at, now, max_age) {
                        let j2 = choose|j2: int| 0 <= j2 < es.len() && #[trigger] es[j2].0@ == k && !too_old(es[j2].1.connected_at, now, max_age);
                        crate::keyed::lemma_entry_is_mapped(es, j2);
                    }
                } else {
                    if exists|j2: int| 0 <= j2 < es.len() && #[trigger] es[j2].0@ == k && !too_old(es[j2].1.connected_at, now, max_age) {
                        let j2 = choose|j2: int| 0 <= j2 < es.len() && #[trigger] es[j2].0@ == k && !too_old(es[j2].1.connected_at, now, max_age);
                        crate::keyed::lemma_entry_is_mapped(es, j2);
                    }
                }
            }
        }
        self.active_connections = kept;
        removed
    }

    /// Stops tracking every connection older than `max_age` ms, and says
    /// how many were dropped: what `cleanup_old_connections_at` does at the
    /// clock's reading, whatever it is.
    pub fn cleanup_old_connections(&mut self, max_age: u64) -> (r: usize)
        ensures
            exists|now: u64| cleanup_outcome(*old(self), *final(self), r, max_age, now),
    {
        let now = crate::clock::system_now_millis();
        let r = self.cleanup_old_connections_at(max_age, now);
        assert(cleanup_outcome(*old(self), *self, r, max_age, now));
        r
    }
}

/// The operating system the application runs on.
#[derive(Debug)]
pub struct OsInfo {
    /// Platform name.
    pub platform: String,
    /// Family (the `type` field).
    pub os_type: String,
    /// Version.
    pub version: String,
    /// Architecture.
    pub arch: String,
}

/// Counts of configured servers.
#[derive(Debug)]
pub struct ServiceStats {
    /// All servers.
    pub total: usize,
    /// Enabled servers.
    pub enabled: usize,
    /// Disabled servers.
    pub disabled: usize,
}

/// Tool figures.
#[derive(Debug)]
pub struct ToolStats {
    /// Tools over all servers.
    pub total_count: u32,
}

/// Connection figures.
#[derive(Debug)]
pub struct ConnectionStats {
    /// Open client connections.
    pub active_clients: usize,
    /// Services connected to the aggregator.
    pub active_services: usize,
}

/// Aggregator figures.
#[derive(Debug)]
pub struct AggregatorStats {
    /// The endpoint.
    pub endpoint: String,
    /// Whether it serves.
    pub is_running: bool,
    /// Services it reaches.
    pub connected_services: usize,
    /// Its connection limit.
    pub max_connections: usize,
    /// Its timeout in seconds.
    pub timeout_seconds: u64,
}

/// The dashboard's statistics.
#[derive(Debug)]
pub struct DashboardStats {
    /// All servers.
    pub total_servers: usize,
    /// Enabled servers.
    pub enabled_servers: usize,
    /// Disabled servers.
    pub disabled_servers: usize,
    /// Services the aggregator reaches.
    pub connected_services: usize,
    /// Tools over all servers.
    pub total_tools: u32,
    /// Open client connections.
    pub active_clients: usize,
    /// When the application started (RFC 3339).
    pub startup_time: String,
    /// The operating system.
    pub os_info: OsInfo,
    /// Server counts.
    pub services: ServiceStats,
    /// Tool figures.
    pub tools: ToolStats,
    /// Connection figures.
    pub connections: ConnectionStats,
    /// Aggregator figures.
    pub aggregator: AggregatorStats,
}

/// How long, in milliseconds, computed statistics are reused.
pub const DASHBOARD_CACHE_MILLIS: u64 = 5000;

/// Statistics are recomputed when asked to, when none are cached, or when
/// the cached ones are older than five seconds at `now` (ms).
pub open spec fn needs_refresh(force: bool, has_cache: bool, last_update: Option<u64>, now: u64) -> bool {
    force || !has_cache || match last_update {
        Some(t) => now > t && now - t > DASHBOARD_CACHE_MILLIS,
        None => true,
    }
}

/// Whether the dashboard statistics must be recomputed.
pub fn dashboard_needs_refresh(force: bool, has_cache: bool, last_update: Option<u64>, now: u64) -> (r: bool)
    ensures
        r == needs_refresh(force, has_cache, last_update, now),
{
    force || !has_cache || match last_update {
        Some(t) => now > t && now - t > DASHBOARD_CACHE_MILLIS,
        None => true,
    }
}

/// The aggregator's statistics as read from its report; missing figures
/// take their defaults (`unknown`, not running, 0, 0, 30 s).
#[derive(Debug)]
pub struct AggregatorReport {
    /// The endpoint, if reported.
    pub endpoint: Option<String>,
    /// Whether it serves, if reported.
    pub is_running: Option<bool>,
    /// Services it reaches, if reported.
    pub connected_services: Option<u64>,
    /// Its connection limit, if reported.
    pub max_connections: Option<u64>,
    /// Its timeout, if reported.
    pub timeout_seconds: Option<u64>,
}

/// Assembles the dashboard statistics from the counts gathered. The
/// numbers the aggregator reports keep their low bits as a cast does.
pub fn build_dashboard_stats(
    total_servers: usize,
    enabled_servers: usize,
    total_tools: u32,
    active_clients: usize,
    startup_time: String,
    os_info: OsInfo,
    report: AggregatorReport,
) -> (r: DashboardStats)
    requires
        enabled_servers <= total_servers,
    ensures
        r.total_servers == total_servers,
        r.enabled_servers == enabled_servers,
        r.disabled_servers == total_servers - enabled_servers,
        r.connected_services == (match report.connected_services {
            Some(n) => n,
            None => 0,
        }) as usize,
        r.total_tools == total_tools,
        r.active_clients == active_clients,
        r.startup_time == startup_time,
        r.os_info == os_info,
        r.services == (ServiceStats {
            total: total_servers,
            enabled: enabled_servers,
            disabled: (total_servers - enabled_servers) as usize,
        }),
        r.tools == (ToolStats { total_count: total_tools }),
        r.connections == (ConnectionStats { active_clients, active_services: r.connected_services }),
        r.aggregator.endpoint@ == (match report.endpoint {
            Some(e) => e@,
            None => "unknown"@,
        }),
        r.aggregator.is_running == (match report.is_running {
            Some(b) => b,
            None => false,
        }),
        r.aggregator.connected_services == r.connected_services,
        r.aggregator.max_connections == (match report.max_connections {
            Some(n) => n,
            None => 0,
        }) as usize,
        r.aggregator.timeout_seconds == (match report.timeout_seconds {
            Some(n) => n,
            None => 30,
        }),
{
    let connected: u64 = match report.connected_services {
        Some(n) => n,
        None => 0,
    };
    let connected_services = connected as usize;
    let max_conn: u64 = match report.max_connections {
        Some(n) => n,
        None => 0,
    };
    let disabled = total_servers - enabled_servers;
    DashboardStats {
        total_servers,
        enabled_servers,
        disabled_servers: disabled,
        connected_services,
        total_tools,
        active_clients,
        startup_time,
        os_info,
        services: ServiceStats { total: total_servers, enabled: enabled_servers, disabled },
        tools: ToolStats { total_count: total_tools },
        connections: ConnectionStats { active_clients, active_services: connected_services },
        aggregator: AggregatorStats {
            endpoint: match report.endpoint {
                Some(e) => e,
                None => "unknown".to_owned(),
            },
            is_running: match report.is_running {
                Some(b) => b,
                None => false,
            },
            connected_services,
            max_connections: max_conn as usize,
            timeout_seconds: match report.timeout_seconds {
                Some(n) => n,
                None => 30,
            },
        },
    }
}

/// Whether the database pool handed out a connection.
#[derive(Debug)]
pub enum DatabaseHealth {
    /// It did; the pool holds this many connections.
    Healthy {
        /// Connections in the pool.
        connections: u32,
    },
    /// It did not, for this reason.
    Unhealthy {
        /// The pool's error.
        error: String,
    },
}

/// A component's health as reports show it: its status word and the
/// figure reported with it.
#[derive(Debug)]
pub struct ComponentHealth {
    /// The status word.
    pub status: String,
    /// The figure: services, active or tracked connections.
    pub count: usize,
}

/// A health report of the application's components.
#[derive(Debug)]
pub struct HealthReport {
    /// The database pool.
    pub database: DatabaseHealth,
    /// The server manager and the services it lists (full check only).
    pub mcp_server_manager: Option<ComponentHealth>,
    /// The client connections and how many are open.
    pub mcp_connections: ComponentHealth,
    /// The aggregator's status word.
    pub aggregator_status: String,
    /// The aggregator's statistics.
    pub aggregator: AggregatorStatistics,
    /// The connection tracking and how many connections it tracks (status
    /// report only).
    pub connection_tracking: Option<ComponentHealth>,
}

/// The full health check: every component that answered is `healthy`.
pub fn health_check(
    database: DatabaseHealth,
    services: usize,
    active_connections: usize,
    aggregator: AggregatorStatistics,
) -> (r: HealthReport)
    ensures
        r.database == database,
        r.mcp_server_manager matches Some(c) && c.status@ == "healthy"@ && c.count == services,
        r.mcp_connections.status@ == "healthy"@,
        r.mcp_connections.count == active_connections,
        r.aggregator_status@ == "healthy"@,
        r.aggregator == aggregator,
        r.connection_tracking is None,
{
    HealthReport {
        database,
        mcp_server_manager: Some(ComponentHealth { status: "healthy".to_owned(), count: services }),
        mcp_connections: ComponentHealth { status: "healthy".to_owned(), count: active_connections },
        aggregator_status: "healthy".to_owned(),
        aggregator,
        connection_tracking: None,
    }
}

/// The health status: connections are `healthy` when some are open and
/// `idle` otherwise, the aggregator `running`, the tracking `active`.
pub fn get_health_status(
    database: DatabaseHealth,
    active_connections: usize,
    aggregator: AggregatorStatistics,
    tracked_connections: usize,
) -> (r: HealthReport)
    ensures
        r.database == database,
        r.mcp_server_manager is None,
        r.mcp_connections.status@ == (if active_connections > 0 {
            "healthy"@
        } else {
            "idle"@
        }),
        r.mcp_connections.count == active_connections,
        r.aggregator_status@ == "running"@,
        r.aggregator == aggregator,
        r.connection_tracking matches Some(c) && c.status@ == "active"@ && c.count == tracked_connections,
{
    HealthReport {
        database,
        mcp_server_manager: None,
        mcp_connections: ComponentHealth {
            status: if active_connections > 0 {
                "healthy".to_owned()
            } else {
                "idle".to_owned()
            },
            count: active_connections,
        },
        aggregator_status: "running".to_owned(),
        aggregator,
        connection_tracking: Some(ComponentHealth { status: "active".to_owned(), count: tracked_connections }),
    }
}

} // verus!
