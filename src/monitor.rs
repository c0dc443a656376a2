//! The continuous-monitoring loop as a state machine.
//!
//! Whoever drives the loop asks `begin_tick` before each cycle, runs the cycle,
//! hands its outcome to `finish_tick`, sleeps `interval_secs` while watching for
//! cancellation, and reports it to `after_sleep`. A failed cycle is reported
//! and the loop goes on; only cancellation stops it.
use vstd::prelude::*;
use crate::audit::{is_severe, SecurityAudit};
use crate::cycle::AuditError;
use crate::gate::{alert_len, decide, lists_top, AlertEntry, GateMode};

verus! {

/// The default pause between two cycles, in seconds.
pub const DEFAULT_INTERVAL_SECS: u64 = 3600;

#[derive(Clone, Copy, Debug, PartialEq, Eq, Structural)]
pub enum MonitorState {
    Running,
    Stopped,
}

/// The loop's state, the pause between cycles, and how many cycles it has
/// started and seen fail.
#[derive(Clone, Copy, Debug, PartialEq, Eq, Structural)]
pub struct MonitorLoop {
    pub state: MonitorState,
    pub interval_secs: u64,
    pub ticks: u64,
    pub failed_ticks: u64,
}

/// What one finished cycle leads to.
#[derive(Debug)]
pub enum TickReport {
    /// High or critical risk: the score (in tenths) and the first findings.
    Alert { risk_score: u32, entries: Vec<AlertEntry> },
    /// The audit succeeded below the alerting threshold.
    Quiet,
    /// The cycle failed; the error is logged and the loop goes on.
    Failed(AuditError),
}

pub open spec fn bump(n: u64) -> u64 {
    if n < u64::MAX { (n + 1) as u64 } else { n }
}

/// The loop after the check before a tick.
pub open spec fn started(m: MonitorLoop, cancelled: bool) -> MonitorLoop {
    if cancelled {
        MonitorLoop { state: MonitorState::Stopped, ..m }
    } else if m.state == MonitorState::Running {
        MonitorLoop { ticks: bump(m.ticks), ..m }
    } else {
        m
    }
}

/// Whether a cycle runs after the check before a tick.
pub open spec fn runs_cycle(m: MonitorLoop, cancelled: bool) -> bool {
    m.state == MonitorState::Running && !cancelled
}

/// The loop after a cycle that ended in an error.
pub open spec fn after_failure(m: MonitorLoop) -> MonitorLoop {
    MonitorLoop { failed_ticks: bump(m.failed_ticks), ..m }
}

/// The loop after the pause between cycles.
pub open spec fn slept(m: MonitorLoop, cancelled: bool) -> MonitorLoop {
    if cancelled {
        MonitorLoop { state: MonitorState::Stopped, ..m }
    } else {
        m
    }
}

impl MonitorLoop {
    /// A running loop that pauses `interval_secs` between cycles.
    pub fn new(interval_secs: u64) -> (r: MonitorLoop)
        ensures
            r == (MonitorLoop { state: MonitorState::Running, interval_secs, ticks: 0, failed_ticks: 0 }),
    {
        MonitorLoop { state: MonitorState::Running, interval_secs, ticks: 0, failed_ticks: 0 }
    }

    /// The check before a tick: cancellation stops the loop, otherwise a
    /// running loop starts a cycle.
    pub fn begin_tick(&mut self, cancelled: bool) -> (run: bool)
        ensures
            *final(self) == started(*old(self), cancelled),
            run == runs_cycle(*old(self), cancelled),
    {
        if cancelled {
            self.state = MonitorState::Stopped;
            false
        } else if self.state == MonitorState::Running {
            if self.ticks < u64::MAX {
                self.ticks = self.ticks + 1;
            }
            true
        } else {
            false
        }
    }

    /// Takes the outcome of a cycle. A failure is counted and reported, and
    /// the loop stays running; a severe audit raises an alert with its first
    /// five findings.
    pub fn finish_tick(&mut self, outcome: &Result<SecurityAudit, AuditError>) -> (r: TickReport)
        requires
            old(self).state == MonitorState::Running,
        ensures
            final(self).state == MonitorState::Running,
            match outcome {
                Err(e) => *final(self) == after_failure(*old(self)) && r == TickReport::Failed(*e),
                Ok(a) => *final(self) == *old(self) && if is_severe(a.risk_level) {
                    r matches TickReport::Alert { risk_score, entries } && risk_score == a.risk_score
                        && lists_top(entries@, a.vulnerabilities@, alert_len(a.vulnerabilities@.len()))
                } else {
                    r matches TickReport::Quiet
                },
            },
    {
        match outcome {
            Err(e) => {
                if self.failed_ticks < u64::MAX {
                    self.failed_ticks = self.failed_ticks + 1;
                }
                TickReport::Failed(*e)
            },
            Ok(a) => {
                let d = decide(a, GateMode::Monitor);
                if d.alert {
                    TickReport::Alert { risk_score: a.risk_score, entries: d.payload }
                } else {
                    TickReport::Quiet
                }
            },
        }
    }

    /// The check after the pause: cancellation during it stops the loop.
    pub fn after_sleep(&mut self, cancelled: bool)
        ensures
            *final(self) == slept(*old(self), cancelled),
    {
        if cancelled {
            self.state = MonitorState::Stopped;
        }
    }

    /// Whether the loop is still running.
    pub fn is_running(&self) -> (r: bool)
        ensures
            r == (self.state == MonitorState::Running),
    {
        self.state == MonitorState::Running
    }
}

/// A cycle that fails does not stop the loop: with no cancellation, the
/// failure is counted once, the loop is still running after the pause, and
/// the next tick runs a cycle again.
pub proof fn failed_tick_keeps_running(m: MonitorLoop)
    requires
        m.state == MonitorState::Running,
        m.failed_ticks < u64::MAX,
    ensures
        runs_cycle(m, false),
        after_failure(started(m, false)).state == MonitorState::Running,
        after_failure(started(m, false)).failed_ticks == m.failed_ticks + 1,
        runs_cycle(slept(after_failure(started(m, false)), false), false),
{
}

/// Only cancellation stops the loop: cancelled before a tick or during the
/// pause, it stops and runs no further cycle.
pub proof fn cancellation_stops(m: MonitorLoop)
    ensures
        started(m, true).state == MonitorState::Stopped,
        !runs_cycle(m, true),
        slept(m, true).state == MonitorState::Stopped,
        !runs_cycle(slept(m, true), false),
        forall|c: bool| !runs_cycle(started(m, true), c),
{
}

} // verus!
