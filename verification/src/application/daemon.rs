//! The observe-only daemon's settings and what it promises: it runs only
//! when enabled, never writes, and never listens remotely.
use std::sync::atomic::{AtomicBool, Ordering};
use std::sync::Arc;
use vstd::prelude::*;

verus! {

/// The daemon's configuration: whether it runs, and how often it wakes.
#[derive(Debug, Clone, Copy, PartialEq, Eq, Structural)]
pub struct DaemonConfig {
    pub enabled: bool,
    pub poll_interval_ms: u64,
}

/// What a started daemon reports of itself; the task that it runs is kept
/// beside it by whoever started it.
#[derive(Debug, Clone, Copy, PartialEq, Eq, Structural)]
pub struct DaemonHandle {
    enabled: bool,
    poll_interval_ms: u64,
}

impl DaemonHandle {
    /// Whether the daemon was configured to run.
    pub closed spec fn spec_enabled(&self) -> bool {
        self.enabled
    }

    /// How often the daemon wakes, in milliseconds.
    pub closed spec fn spec_poll_interval_ms(&self) -> u64 {
        self.poll_interval_ms
    }

    /// The report of a daemon started with `config`.
    pub fn from_config(config: &DaemonConfig) -> (r: DaemonHandle)
        ensures
            r.spec_enabled() == config.enabled,
            r.spec_poll_interval_ms() == config.poll_interval_ms,
    {
        DaemonHandle { enabled: config.enabled, poll_interval_ms: config.poll_interval_ms }
    }

    /// Whether the daemon was configured to run; a disabled daemon's task
    /// ends at once.
    pub fn config_enabled(&self) -> (r: bool)
        ensures
            r == self.spec_enabled(),
    {
        self.enabled
    }

    /// `observe_only` for an enabled daemon, `disabled` otherwise.
    pub fn mode(&self) -> (r: &'static str)
        ensures
            r@ == (if self.spec_enabled() {
                "observe_only"@
            } else {
                "disabled"@
            }),
    {
        if self.enabled {
            "observe_only"
        } else {
            "disabled"
        }
    }

    /// How often the daemon wakes, in milliseconds.
    pub fn poll_interval_ms(&self) -> (r: u64)
        ensures
            r == self.spec_poll_interval_ms(),
    {
        self.poll_interval_ms
    }

    /// The daemon never writes.
    pub fn writes_allowed(&self) -> (r: bool)
        ensures
            !r,
    {
        false
    }

    /// The daemon never listens for remote connections.
    pub fn remote_listener_enabled(&self) -> (r: bool)
        ensures
            !r,
    {
        false
    }
}

/// Whether the daemon task is running: a flag shared with the task, which
/// sets it when it starts and clears it when it ends.
#[derive(Clone)]
pub struct DaemonLifecycleProbe {
    running: Arc<AtomicBool>,
}

impl DaemonLifecycleProbe {
    /// The flag the probe reads.
    pub closed spec fn spec_flag(&self) -> Arc<AtomicBool> {
        self.running
    }

    /// A probe that reads the given flag.
    pub fn from_flag(running: Arc<AtomicBool>) -> (r: DaemonLifecycleProbe)
        ensures
            r.spec_flag() == running,
    {
        DaemonLifecycleProbe { running }
    }

    /// Whether the daemon task is running now. Another thread may change the
    /// flag at any moment, so nothing is stated of the answer.
    pub fn is_running(&self) -> (r: bool) {
        self.running.load(Ordering::SeqCst)
    }
}

/// A daemon is started only when its configuration enables it.
pub fn should_start_daemon(config: &DaemonConfig) -> (r: bool)
    ensures
        r == config.enabled,
{
    config.enabled
}

} // verus!
