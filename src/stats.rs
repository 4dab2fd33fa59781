//! Connection statistics: counters that only grow, and the time spent
//! connected. Times are milliseconds on a clock the caller chooses.

use vstd::prelude::*;

verus! {

/// Accumulated connection statistics.
#[derive(Debug, Clone, Copy, PartialEq, Eq, Structural)]
pub struct ConnectionStats {
    /// Connection attempts started.
    pub total_connections: u64,
    /// Attempts that ended with an open session.
    pub successful_connections: u64,
    /// Attempts that failed.
    pub failed_connections: u64,
    /// When the last attempt started.
    pub last_connection_time: Option<u64>,
    /// When the last session ended.
    pub last_disconnection_time: Option<u64>,
    /// Time spent in finished sessions.
    pub total_uptime_ms: u64,
    /// When the current session's attempt started, if one is under way.
    pub current_start: Option<u64>,
}

/// A summary of the statistics, ready to be printed.
#[derive(Debug, Clone, Copy, PartialEq, Eq, Structural)]
pub struct UptimeStats {
    /// Connection attempts started.
    pub total_connections: u64,
    /// Share of successful attempts, in tenths of a percent, rounded to the
    /// nearest with halves rounded up; zero when there was no attempt.
    pub success_rate_permille: u128,
    /// Whole hours of accumulated uptime.
    pub total_hours: u64,
    /// Whole minutes of accumulated uptime beyond the hours.
    pub total_minutes: u64,
}

/// `a + b`, or `u64::MAX` where that does not fit.
pub open spec fn saturated(a: int, b: int) -> u64 {
    if a + b > u64::MAX {
        u64::MAX
    } else {
        (a + b) as u64
    }
}

/// Time from `start` to `now`, or zero if the clock went backwards.
pub open spec fn elapsed(start: u64, now: u64) -> u64 {
    if now >= start {
        (now - start) as u64
    } else {
        0
    }
}

/// `1000 * part / whole`, rounded to the nearest, halves up; zero for an
/// empty whole.
pub open spec fn permille(part: nat, whole: nat) -> nat {
    if whole == 0 {
        0
    } else {
        ((2000 * part + whole) / (2 * whole)) as nat
    }
}

impl ConnectionStats {
    /// The statistics before any connection attempt.
    pub open spec fn new_stats() -> ConnectionStats {
        ConnectionStats {
            total_connections: 0,
            successful_connections: 0,
            failed_connections: 0,
            last_connection_time: None,
            last_disconnection_time: None,
            total_uptime_ms: 0,
            current_start: None,
        }
    }

    /// The statistics after an attempt starts at `now`.
    pub open spec fn spec_started(self, now: u64) -> ConnectionStats {
        ConnectionStats {
            total_connections: saturated(self.total_connections as int, 1),
            last_connection_time: Some(now),
            current_start: Some(now),
            ..self
        }
    }

    /// The statistics after an attempt ends with an open session.
    pub open spec fn spec_succeeded(self) -> ConnectionStats {
        ConnectionStats {
            successful_connections: saturated(self.successful_connections as int, 1),
            ..self
        }
    }

    /// The statistics after an attempt fails.
    pub open spec fn spec_failed(self) -> ConnectionStats {
        ConnectionStats { failed_connections: saturated(self.failed_connections as int, 1), ..self }
    }

    /// The statistics after the current session ends at `now`; unchanged
    /// when no session is under way.
    pub open spec fn spec_disconnected(self, now: u64) -> ConnectionStats {
        match self.current_start {
            Some(start) => ConnectionStats {
                total_uptime_ms: saturated(self.total_uptime_ms as int, elapsed(start, now) as int),
                last_disconnection_time: Some(now),
                current_start: None,
                ..self
            },
            None => self,
        }
    }

    /// Statistics before any connection attempt.
    pub fn new() -> (r: ConnectionStats)
        ensures
            r == ConnectionStats::new_stats(),
    {
        ConnectionStats {
            total_connections: 0,
            successful_connections: 0,
            failed_connections: 0,
            last_connection_time: None,
            last_disconnection_time: None,
            total_uptime_ms: 0,
            current_start: None,
        }
    }

    /// Records that an attempt starts at `now`.
    pub fn on_connection_start(&mut self, now: u64)
        ensures
            *final(self) == old(self).spec_started(now),
    {
        self.total_connections = self.total_connections.saturating_add(1);
        self.last_connection_time = Some(now);
        self.current_start = Some(now);
    }

    /// Records that an attempt ended with an open session.
    pub fn on_connection_success(&mut self)
        ensures
            *final(self) == old(self).spec_succeeded(),
    {
        self.successful_connections = self.successful_connections.saturating_add(1);
    }

    /// Records that an attempt failed.
    pub fn on_connection_failure(&mut self)
        ensures
            *final(self) == old(self).spec_failed(),
    {
        self.failed_connections = self.failed_connections.saturating_add(1);
    }

    /// Records that the current session ended at `now`, and returns how long
    /// it lasted. Without a session under way nothing changes and the result
    /// is `None`.
    pub fn on_disconnection(&mut self, now: u64) -> (r: Option<u64>)
        ensures
            *final(self) == old(self).spec_disconnected(now),
            r == match old(self).current_start {
                Some(start) => Some(elapsed(start, now)),
                None => None,
            },
    {
        match self.current_start {
            Some(start) => {
                let duration: u64 = if now >= start {
                    now - start
                } else {
                    0
                };
                self.total_uptime_ms = self.total_uptime_ms.saturating_add(duration);
                self.last_disconnection_time = Some(now);
                self.current_start = None;
                Some(duration)
            },
            None => None,
        }
    }

    /// The summary: attempts, success rate and accumulated uptime.
    pub fn get_uptime_stats(&self) -> (r: UptimeStats)
        ensures
            r.total_connections == self.total_connections,
            r.success_rate_permille == permille(
                self.successful_connections as nat,
                self.total_connections as nat,
            ),
            r.total_hours == self.total_uptime_ms / 1000 / 3600,
            r.total_minutes == self.total_uptime_ms / 1000 % 3600 / 60,
    {
        let secs = self.total_uptime_ms / 1000;
        let total = self.total_connections;
        let rate: u128 = if total > 0 {
            let part = self.successful_connections as u128;
            let whole = total as u128;
            (2000 * part + whole) / (2 * whole)
        } else {
            0
        };
        UptimeStats {
            total_connections: total,
            success_rate_permille: rate,
            total_hours: secs / 3600,
            total_minutes: secs % 3600 / 60,
        }
    }
}

} // verus!
