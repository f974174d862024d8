//! Notification by Unix signal.

use crate::arguments::CheckerResult;
use crate::signals::{default_critical_signal, default_warning_signal, nix_signal_named};
use vstd::prelude::*;

verus! {

/// Sends one signal at the warning watermark and another at the critical one.
#[derive(Debug, Clone, Copy)]
pub struct UnixSignalSender {
    pub warning: i32,
    pub critical: i32,
}

impl UnixSignalSender {
    /// A sender of the given signals.
    pub fn new(warning: i32, critical: i32) -> (r: Self)
        ensures
            r.warning == warning,
            r.critical == critical,
    {
        Self { warning, critical }
    }

    /// A sender of `SIGUSR1` at warning and `SIGUSR2` at critical.
    pub fn default() -> (r: Self)
        ensures
            Some(r.warning) == nix_signal_named("SIGUSR1"@),
            Some(r.critical) == nix_signal_named("SIGUSR2"@),
    {
        Self { warning: default_warning_signal(), critical: default_critical_signal() }
    }

    /// The signal to send for `severity`; none when no watermark is crossed.
    pub fn signal_for(&self, severity: CheckerResult) -> (r: Option<i32>)
        ensures
            r == match severity {
                CheckerResult::NoMatch => None,
                CheckerResult::Warning => Some(self.warning),
                CheckerResult::Critical => Some(self.critical),
            },
    {
        match severity {
            CheckerResult::NoMatch => None,
            CheckerResult::Warning => Some(self.warning),
            CheckerResult::Critical => Some(self.critical),
        }
    }
}

} // verus!
