//! The WeChat health monitor's decisions: when a vanished client is started
//! again (with back-off after a crash loop) and when an unresponsive one is
//! killed. Times are milliseconds on a monotonic clock, read by the caller.
use vstd::prelude::*;

verus! {

/// Seconds without an identified state before the client is killed.
pub const UNRESPONSIVE_TIMEOUT_SECS: u64 = 60;

/// Seconds to wait before restarting a crashed client.
pub const RESTART_DELAY_SECS: u64 = 3;

/// Restarts within the window after which the monitor backs off.
pub const MAX_RAPID_RESTARTS: u32 = 5;

/// The window, in seconds, in which restarts are counted.
pub const RAPID_WINDOW_SECS: u64 = 60;

/// The restart delay, in seconds, once backing off.
pub const BACKOFF_DELAY_SECS: u64 = 30;

/// What the monitor remembers between scans.
#[derive(Clone, Copy, Debug, PartialEq, Eq, Structural)]
pub struct Monitor {
    /// When a state was last identified (or the monitor had nothing to check).
    pub last_identified: u64,
    pub was_running: bool,
    pub restart_count: u32,
    pub window_start: u64,
    /// When the client was found gone and a restart became due.
    pub waiting_restart_since: Option<u64>,
}

/// A new monitor at time `now`.
pub fn monitor_start(now: u64) -> (m: Monitor)
    ensures
        m == (Monitor {
            last_identified: now,
            was_running: false,
            restart_count: 0,
            window_start: now,
            waiting_restart_since: None,
        }),
{
    Monitor {
        last_identified: now,
        was_running: false,
        restart_count: 0,
        window_start: now,
        waiting_restart_since: None,
    }
}

/// Whole seconds from `since` to `now`; zero when the clock reads earlier.
pub open spec fn secs_since(now: u64, since: u64) -> int {
    if now >= since {
        (now - since) / 1000
    } else {
        0
    }
}

fn secs(now: u64, since: u64) -> (r: u64)
    ensures
        r == secs_since(now, since),
{
    if now >= since {
        (now - since) / 1000
    } else {
        0
    }
}

/// A scan that had nothing to check (monitoring paused, or no running
/// session) only restarts the unresponsiveness clock.
pub fn idle_scan(m: Monitor, now: u64) -> (r: Monitor)
    ensures
        r == (Monitor { last_identified: now, ..m }),
{
    Monitor { last_identified: now, ..m }
}

/// What a scan does after looking for the client's process.
#[derive(Clone, Copy, Debug, PartialEq, Eq, Structural)]
pub enum ProcessStep {
    /// Nothing more this scan.
    Wait,
    /// Start the client.
    Spawn,
    /// Read the accessibility tree of the running client.
    Probe,
}

/// The monitor after finding the process present or gone.
pub open spec fn process_next(m: Monitor, now: u64, present: bool) -> (Monitor, ProcessStep) {
    if present {
        (
            if !m.was_running {
                Monitor { was_running: true, waiting_restart_since: None, ..m }
            } else {
                m
            },
            ProcessStep::Probe,
        )
    } else {
        let m1 = if m.was_running {
            Monitor { was_running: false, waiting_restart_since: Some(now), ..m }
        } else {
            m
        };
        match m1.waiting_restart_since {
            None => (Monitor { last_identified: now, ..m1 }, ProcessStep::Wait),
            Some(since) => {
                let m2 = if secs_since(now, m1.window_start) > RAPID_WINDOW_SECS {
                    Monitor { restart_count: 0, window_start: now, ..m1 }
                } else {
                    m1
                };
                let delay = if m2.restart_count >= MAX_RAPID_RESTARTS {
                    BACKOFF_DELAY_SECS
                } else {
                    RESTART_DELAY_SECS
                };
                if secs_since(now, since) >= delay {
                    (
                        Monitor {
                            restart_count: if m2.restart_count < u32::MAX {
                                (m2.restart_count + 1) as u32
                            } else {
                                m2.restart_count
                            },
                            waiting_restart_since: None,
                            last_identified: now,
                            ..m2
                        },
                        ProcessStep::Spawn,
                    )
                } else {
                    (Monitor { last_identified: now, ..m2 }, ProcessStep::Wait)
                }
            },
        }
    }
}

/// One scan's reaction to whether the client's process is present.
pub fn process_scan(m: Monitor, now: u64, present: bool) -> (r: (Monitor, ProcessStep))
    ensures
        r == process_next(m, now, present),
{
    if present {
        let m1 = if !m.was_running {
            Monitor { was_running: true, waiting_restart_since: None, ..m }
        } else {
            m
        };
        return (m1, ProcessStep::Probe);
    }
    let m1 = if m.was_running {
        Monitor { was_running: false, waiting_restart_since: Some(now), ..m }
    } else {
        m
    };
    match m1.waiting_restart_since {
        None => (Monitor { last_identified: now, ..m1 }, ProcessStep::Wait),
        Some(since) => {
            let m2 = if secs(now, m1.window_start) > RAPID_WINDOW_SECS {
                Monitor { restart_count: 0, window_start: now, ..m1 }
            } else {
                m1
            };
            let delay = if m2.restart_count >= MAX_RAPID_RESTARTS {
                BACKOFF_DELAY_SECS
            } else {
                RESTART_DELAY_SECS
            };
            if secs(now, since) >= delay {
                let count = if m2.restart_count < u32::MAX {
                    m2.restart_count + 1
                } else {
                    m2.restart_count
                };
                (
                    Monitor {
                        restart_count: count,
                        waiting_restart_since: None,
                        last_identified: now,
                        ..m2
                    },
                    ProcessStep::Spawn,
                )
            } else {
                (Monitor { last_identified: now, ..m2 }, ProcessStep::Wait)
            }
        },
    }
}

/// After probing a running client: an identified state restarts the clock;
/// a failed read or no state kills the client once it has been unresponsive
/// for the timeout.
pub open spec fn probe_next(m: Monitor, now: u64, identified: bool) -> (Monitor, bool) {
    if identified {
        (Monitor { last_identified: now, ..m }, false)
    } else {
        (m, secs_since(now, m.last_identified) >= UNRESPONSIVE_TIMEOUT_SECS)
    }
}

/// The monitor after a probe, and whether to kill the client.
pub fn probe_scan(m: Monitor, now: u64, identified: bool) -> (r: (Monitor, bool))
    ensures
        r == probe_next(m, now, identified),
{
    if identified {
        (Monitor { last_identified: now, ..m }, false)
    } else {
        (m, secs(now, m.last_identified) >= UNRESPONSIVE_TIMEOUT_SECS)
    }
}

/// The client is never restarted sooner than the restart delay after it was
/// found gone, and never sooner than the back-off delay once the crash limit
/// was reached within the window.
pub proof fn lemma_restart_waits(m: Monitor, now: u64)
    requires
        !m.was_running,
        m.waiting_restart_since is Some,
    ensures
        process_next(m, now, false).1 == ProcessStep::Spawn ==> secs_since(
            now,
            m.waiting_restart_since.unwrap(),
        ) >= RESTART_DELAY_SECS,
        (process_next(m, now, false).1 == ProcessStep::Spawn && m.restart_count >= MAX_RAPID_RESTARTS
            && secs_since(now, m.window_start) <= RAPID_WINDOW_SECS) ==> secs_since(
            now,
            m.waiting_restart_since.unwrap(),
        ) >= BACKOFF_DELAY_SECS,
{
}

/// A client that was running and vanished is not restarted in the same scan:
/// the restart waits at least the restart delay.
pub proof fn lemma_no_instant_restart(m: Monitor, now: u64)
    requires
        m.was_running,
    ensures
        process_next(m, now, false).1 == ProcessStep::Wait,
        process_next(m, now, false).0.waiting_restart_since == Some(now),
{
}

} // verus!
