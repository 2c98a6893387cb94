//! Registry statistics and health reporting shapes, and the in-process
//! request metrics collector.

use vstd::prelude::*;

verus! {

/// One package in the most-downloaded list.
#[derive(Debug)]
pub struct TopCrateStats {
    pub name: String,
    pub total_downloads: i64,
    pub downloads_last_30_days: i64,
    pub latest_version: String,
    pub description: Option<String>,
}

/// Aggregate statistics of the registry.
#[derive(Debug)]
pub struct RegistryStats {
    pub total_crates: i64,
    pub total_versions: i64,
    pub total_downloads: i64,
    pub total_users: i64,
    pub total_organizations: i64,
    pub downloads_last_30_days: i64,
    pub new_crates_last_30_days: i64,
    pub new_users_last_30_days: i64,
    pub storage_size_bytes: i64,
    pub top_crates: Vec<TopCrateStats>,
}

/// Downloads of one day.
#[derive(Debug)]
pub struct DailyDownload {
    pub date: String,
    pub downloads: i64,
}

/// Downloads from one country.
#[derive(Debug)]
pub struct CountryDownload {
    pub country: String,
    pub downloads: i64,
}

/// Direction of a download trend.
#[derive(Debug, Clone, Copy, PartialEq, Eq, Structural)]
pub enum TrendDirection {
    Up,
    Down,
    Stable,
}

/// Health of one component.
#[derive(Debug, Clone, Copy, PartialEq, Eq, Structural)]
pub enum ComponentStatus {
    Healthy,
    Degraded,
    Unhealthy,
}

/// Health report of one component.
#[derive(Debug)]
pub struct HealthComponent {
    pub status: ComponentStatus,
    pub response_time_ms: Option<u64>,
    pub details: Option<String>,
}

/// The health surface's response body.
#[derive(Debug)]
pub struct HealthStatus {
    pub status: String,
    pub version: String,
    pub database: HealthComponent,
    pub storage: HealthComponent,
    pub uptime_seconds: u64,
    pub memory_usage_mb: u64,
}

/// In-process request metrics: counters and a bounded window of response
/// times.
#[derive(Debug)]
pub struct MetricsCollector {
    pub registry_stats: RegistryStats,
    pub request_count: u64,
    pub response_times: Vec<u64>,
    pub error_count: u64,
    pub active_connections: u64,
}

impl MetricsCollector {
    /// A collector with all counters at zero.
    pub fn new() -> (r: MetricsCollector)
        ensures
            r.request_count == 0,
            r.response_times@.len() == 0,
            r.error_count == 0,
            r.active_connections == 0,
            r.registry_stats.total_crates == 0,
            r.registry_stats.total_versions == 0,
            r.registry_stats.total_downloads == 0,
            r.registry_stats.total_users == 0,
            r.registry_stats.total_organizations == 0,
            r.registry_stats.downloads_last_30_days == 0,
            r.registry_stats.new_crates_last_30_days == 0,
            r.registry_stats.new_users_last_30_days == 0,
            r.registry_stats.storage_size_bytes == 0,
            r.registry_stats.top_crates@.len() == 0,
    {
        MetricsCollector {
            registry_stats: RegistryStats {
                total_crates: 0,
                total_versions: 0,
                total_downloads: 0,
                total_users: 0,
                total_organizations: 0,
                downloads_last_30_days: 0,
                new_crates_last_30_days: 0,
                new_users_last_30_days: 0,
                storage_size_bytes: 0,
                top_crates: Vec::new(),
            },
            request_count: 0,
            response_times: Vec::new(),
            error_count: 0,
            active_connections: 0,
        }
    }

    /// Records one request: bumps the counters and appends the response
    /// time, shedding the oldest hundred entries once the window exceeds a
    /// thousand.
    #[verifier::loop_isolation(false)]
    pub fn record_request(&mut self, response_time_ms: u64, is_error: bool)
        requires
            old(self).request_count < u64::MAX,
            is_error ==> old(self).error_count < u64::MAX,
        ensures
            final(self).request_count == old(self).request_count + 1,
            final(self).error_count == old(self).error_count + if is_error {
                1int
            } else {
                0int
            },
            final(self).active_connections == old(self).active_connections,
            final(self).registry_stats == old(self).registry_stats,
            final(self).response_times@ == {
                let pushed = old(self).response_times@.push(response_time_ms);
                if pushed.len() > 1000 {
                    pushed.subrange(100, pushed.len() as int)
                } else {
                    pushed
                }
            },
    {
        self.request_count = self.request_count + 1;
        self.response_times.push(response_time_ms);
        if is_error {
            self.error_count = self.error_count + 1;
        }
        let ghost pushed = self.response_times@;
        if self.response_times.len() > 1000 {
            let mut dropped: usize = 0;
            while dropped < 100
                invariant
                    0 <= dropped <= 100,
                    pushed.len() > 1000,
                    self.response_times@ == pushed.subrange(
                        dropped as int,
                        pushed.len() as int,
                    ),
                    self.request_count == old(self).request_count + 1,
                    self.error_count == old(self).error_count + if is_error {
                        1int
                    } else {
                        0int
                    },
                    self.active_connections == old(self).active_connections,
                    self.registry_stats == old(self).registry_stats,
                decreases 100 - dropped,
            {
                let _ = self.response_times.remove(0);
                proof {
                    assert(self.response_times@ =~= pushed.subrange(
                        dropped + 1,
                        pushed.len() as int,
                    ));
                }
                dropped = dropped + 1;
            }
        }
    }
}

} // verus!
