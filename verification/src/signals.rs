//! Signals, by number, and the senders that deliver a notification for a severity.

use crate::http_signals_sender::{HttpNotificationConfig, HttpSignalSender};
use crate::unix_signals_sender::UnixSignalSender;
use vstd::prelude::*;

verus! {

/// The number of the signal that nix names `name` (`SIGHUP`, `SIGUSR1`, ...), on the
/// platform the crate is built for; `None` for a name nix does not know.
pub uninterp spec fn nix_signal_named(name: Seq<char>) -> Option<i32>;

/// The number of the signal called `name`.
///
/// Calls `<nix::sys::signal::Signal as FromStr>::from_str` and converts the signal to its
/// number. The result is named, as a function of the name; beside it the contract states
/// what nix's source shows for the two default signals: `SIGUSR1` and `SIGUSR2` are
/// known names.
#[verifier::external_body]
pub(crate) fn signal_number(name: &str) -> (r: Option<i32>)
    ensures
        r == nix_signal_named(name@),
        name@ == "SIGUSR1"@ ==> r is Some,
        name@ == "SIGUSR2"@ ==> r is Some,
{
    match name.parse::<nix::sys::signal::Signal>() {
        Ok(sig) => Some(sig as i32),
        Err(_) => None,
    }
}

/// The signal sent at the warning watermark unless configured otherwise: `SIGUSR1`.
pub fn default_warning_signal() -> (r: i32)
    ensures
        Some(r) == nix_signal_named("SIGUSR1"@),
{
    match signal_number("SIGUSR1") {
        Some(s) => s,
        None => 0,
    }
}

/// The signal sent at the critical watermark unless configured otherwise: `SIGUSR2`.
pub fn default_critical_signal() -> (r: i32)
    ensures
        Some(r) == nix_signal_named("SIGUSR2"@),
{
    match signal_number("SIGUSR2") {
        Some(s) => s,
        None => 0,
    }
}

/// The way notifications are delivered: Unix signals, or HTTP requests when a
/// notification configuration is given.
pub enum SignalSenders {
    Unix(UnixSignalSender),
    Http(HttpSignalSender),
}

impl SignalSenders {
    /// HTTP notifications when `http` holds a configuration, otherwise Unix signals with the
    /// given numbers.
    pub fn new(http: Option<HttpNotificationConfig>, warning_signal: i32, critical_signal: i32) -> (r:
        Self)
        ensures
            match http {
                None => r matches SignalSenders::Unix(u) && u.warning == warning_signal
                    && u.critical == critical_signal,
                Some(c) => r matches SignalSenders::Http(h) && h.config == c,
            },
    {
        match http {
            None => SignalSenders::Unix(UnixSignalSender::new(warning_signal, critical_signal)),
            Some(config) => SignalSenders::Http(HttpSignalSender::new(config)),
        }
    }
}

} // verus!
