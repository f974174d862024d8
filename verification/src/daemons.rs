//! The decisions of the process monitor.
//!
//! The monitor scans the processes of the pod in a loop. Each pass, every process but the
//! pause container (pid 1) and the monitor itself is assessed against the warning and
//! critical expressions; a process that crosses one is sent the configured signal, unless
//! the same signal was sent to it less than the cooldown interval ago. The monitor keeps the
//! last signal sent to each process in a bounded cache.
//!
//! Times are nanoseconds on a monotonic clock chosen by the caller; intervals are
//! nanoseconds too. Listing processes, reading their files, evaluating the expressions,
//! sleeping and sending signals are the caller's.

use crate::arguments::CheckerResult;
use crate::signals::{default_critical_signal, default_warning_signal, nix_signal_named};
use moka::sync::Cache;
use vstd::prelude::*;

verus! {

/// The bounded, concurrent cache of the moka crate.
#[verifier::external_type_specification]
#[verifier::external_body]
#[verifier::reject_recursive_types(K)]
#[verifier::reject_recursive_types(V)]
#[verifier::reject_recursive_types(S)]
pub struct ExCache<K, V, S>(Cache<K, V, S>);

/// What the monitor remembers of the last signal sent to a process: when it was sent and
/// the signal's number.
pub type SignalRecord = (u128, i32);

/// The cache of the last signal sent to each process.
pub type SignalCache = Cache<i32, SignalRecord>;

/// The entries a signal cache holds: for each process id, when its last signal was sent
/// and the signal's number.
pub uninterp spec fn signal_records(c: SignalCache) -> Map<i32, SignalRecord>;

/// The maximum capacity a signal cache was made with: with moka's default weigher each
/// entry weighs one, so this is a number of entries.
pub uninterp spec fn signal_capacity(c: SignalCache) -> u64;

/// A cache of at most `capacity` entries (by moka's own eviction policy).
///
/// Calls `moka::sync::Cache::new`, which starts empty with `capacity` as its maximum
/// capacity.
#[verifier::external_body]
fn new_signal_cache(capacity: u64) -> (r: SignalCache)
    ensures
        signal_records(r).is_empty(),
        signal_capacity(r) == capacity,
{
    Cache::new(capacity)
}

/// Looks up the record of `pid`.
///
/// Calls `moka::sync::Cache::get`, which reads the entry of the concurrent map before it
/// records the read; recording may run the cache's housekeeping. Housekeeping admits
/// pending writes while the weighted size leaves room for them and evicts only while the
/// weighted size exceeds the maximum capacity; with every entry weighing one and nothing
/// removed otherwise (no expiry, no invalidation), neither happens while the cache holds
/// fewer entries than its capacity. So the contract claims that the result is the entry
/// held before the call, that afterwards the cache holds a part of what it held, and all of
/// it when it held fewer entries than its capacity, and that the capacity stays.
#[verifier::external_body]
fn signal_cache_get(c: &mut SignalCache, pid: i32) -> (r: Option<SignalRecord>)
    ensures
        r == (if signal_records(*old(c)).contains_key(pid) {
            Some(signal_records(*old(c))[pid])
        } else {
            None
        }),
        signal_records(*final(c)).submap_of(signal_records(*old(c))),
        signal_records(*old(c)).dom().finite() && signal_records(*old(c)).len() < signal_capacity(
            *old(c),
        ) ==> signal_records(*final(c)) == signal_records(*old(c)),
        signal_records(*final(c)).dom().finite(),
        signal_capacity(*final(c)) == signal_capacity(*old(c)),
{
    c.get(&pid)
}

/// Records `record` for `pid`.
///
/// Calls `moka::sync::Cache::insert`, which writes the entry into the concurrent map and
/// then schedules its admission. Housekeeping admits an entry whenever the weighted size
/// plus its weight stays within the maximum capacity, and evicts only while the weighted
/// size exceeds it; over capacity it may evict any entry, the new one included. So the
/// contract claims that afterwards the cache holds a part of what it held with `pid` set to
/// `record`, all of it when it held fewer entries than its capacity, and that the capacity
/// stays. moka panics here only when its internal write channel is gone, which the cache's
/// own handle prevents.
#[verifier::external_body]
fn signal_cache_insert(c: &mut SignalCache, pid: i32, record: SignalRecord)
    ensures
        signal_records(*final(c)).submap_of(signal_records(*old(c)).insert(pid, record)),
        signal_records(*old(c)).dom().finite() && signal_records(*old(c)).len() < signal_capacity(
            *old(c),
        ) ==> signal_records(*final(c)) == signal_records(*old(c)).insert(pid, record),
        signal_records(*final(c)).dom().finite(),
        signal_capacity(*final(c)) == signal_capacity(*old(c)),
{
    c.insert(pid, record)
}

/// The number of processes whose last signal the monitor remembers.
pub const SIGNAL_HISTORY: u64 = 1000;

/// What to do with an assessed process.
#[derive(Debug, Clone, Copy, PartialEq, Eq, Structural)]
pub enum Decision {
    /// It crosses no watermark: report it as within limits.
    WithinLimits,
    /// It crosses a watermark, but the same signal went to it within the cooldown.
    CoolingDown { signal: i32, severity: CheckerResult },
    /// Send it `signal`.
    Send { signal: i32, severity: CheckerResult },
}

/// The decisions and memory of the process monitor. Its fields are its own: they are read
/// and written only through its methods.
pub struct Monitor {
    loop_interval: u128,
    cooldown_interval: u128,
    warning_signal: i32,
    critical_signal: i32,
    last_signals: SignalCache,
}

/// What a monitor is: its settings, the last signal sent to each process it still
/// remembers, and how many processes it can remember before its cache evicts.
pub struct MonitorView {
    pub loop_interval: u128,
    pub cooldown_interval: u128,
    pub warning_signal: i32,
    pub critical_signal: i32,
    pub records: Map<i32, SignalRecord>,
    pub capacity: u64,
}

impl View for Monitor {
    type V = MonitorView;

    closed spec fn view(&self) -> MonitorView {
        MonitorView {
            loop_interval: self.loop_interval,
            cooldown_interval: self.cooldown_interval,
            warning_signal: self.warning_signal,
            critical_signal: self.critical_signal,
            records: signal_records(self.last_signals),
            capacity: signal_capacity(self.last_signals),
        }
    }
}

/// The same settings in two monitor views.
pub open spec fn same_settings(a: MonitorView, b: MonitorView) -> bool {
    &&& a.loop_interval == b.loop_interval
    &&& a.cooldown_interval == b.cooldown_interval
    &&& a.warning_signal == b.warning_signal
    &&& a.critical_signal == b.critical_signal
    &&& a.capacity == b.capacity
}

/// Whether a process is assessed at all: not the pause container (pid 1) and not the
/// monitor itself.
pub open spec fn monitored(pid: i32, own_pid: i32) -> bool {
    pid != 1 && pid != own_pid
}

/// The time from `since` to `now`, or zero when `now` is earlier.
pub open spec fn elapsed(since: u128, now: u128) -> int {
    if now >= since {
        now - since
    } else {
        0
    }
}

/// Whether the records hold, for `pid`, the same `signal` sent less than `cooldown` before
/// `now`.
pub open spec fn cooling_down(
    records: Map<i32, (u128, i32)>,
    pid: i32,
    signal: i32,
    now: u128,
    cooldown: u128,
) -> bool {
    &&& records.contains_key(pid)
    &&& records[pid].1 == signal
    &&& elapsed(records[pid].0, now) < cooldown
}

/// The decision for a process that matches the warning and critical expressions as given,
/// at `now`: critical takes precedence, and a signal is held back while cooling down.
pub open spec fn decide(
    records: Map<i32, (u128, i32)>,
    warning_signal: i32,
    critical_signal: i32,
    cooldown: u128,
    pid: i32,
    warning: bool,
    critical: bool,
    now: u128,
) -> Decision {
    if !warning && !critical {
        Decision::WithinLimits
    } else {
        let severity = if critical {
            CheckerResult::Critical
        } else {
            CheckerResult::Warning
        };
        let signal = if critical {
            critical_signal
        } else {
            warning_signal
        };
        if cooling_down(records, pid, signal, now, cooldown) {
            Decision::CoolingDown { signal, severity }
        } else {
            Decision::Send { signal, severity }
        }
    }
}

impl Monitor {
    /// The records are a finite map and the cache has the monitor's capacity.
    pub open spec fn well_formed(&self) -> bool {
        &&& self@.records.dom().finite()
        &&& self@.capacity == SIGNAL_HISTORY
    }

    /// The monitor remembers fewer processes than it can hold, so its cache evicts nothing.
    pub open spec fn below_capacity(&self) -> bool {
        self.well_formed() && self@.records.len() < SIGNAL_HISTORY
    }

    /// A monitor that scans every 100ms, with a cooldown of 30s, `SIGUSR1` at warning,
    /// `SIGUSR2` at critical, and no signal sent yet.
    pub fn new() -> (r: Self)
        ensures
            r@.loop_interval == 100_000_000,
            r@.cooldown_interval == 30_000_000_000,
            Some(r@.warning_signal) == nix_signal_named("SIGUSR1"@),
            Some(r@.critical_signal) == nix_signal_named("SIGUSR2"@),
            r@.records == Map::<i32, SignalRecord>::empty(),
            r.well_formed(),
    {
        Monitor {
            loop_interval: 100_000_000,
            cooldown_interval: 30_000_000_000,
            warning_signal: default_warning_signal(),
            critical_signal: default_critical_signal(),
            last_signals: new_signal_cache(SIGNAL_HISTORY),
        }
    }

    /// The same monitor, pausing `loop_interval` nanoseconds between scans.
    pub fn with_loop_interval(self, loop_interval: u128) -> (r: Self)
        ensures
            r@ == (MonitorView { loop_interval, ..self@ }),
    {
        Monitor { loop_interval, ..self }
    }

    /// The same monitor, waiting at least `cooldown_interval` nanoseconds before sending the
    /// same signal to the same process again.
    pub fn with_cooldown_interval(self, cooldown_interval: u128) -> (r: Self)
        ensures
            r@ == (MonitorView { cooldown_interval, ..self@ }),
    {
        Monitor { cooldown_interval, ..self }
    }

    /// The same monitor, sending `warning_signal` at the warning watermark.
    pub fn with_warning_signal(self, warning_signal: i32) -> (r: Self)
        ensures
            r@ == (MonitorView { warning_signal, ..self@ }),
    {
        Monitor { warning_signal, ..self }
    }

    /// The same monitor, sending `critical_signal` at the critical watermark.
    pub fn with_critical_signal(self, critical_signal: i32) -> (r: Self)
        ensures
            r@ == (MonitorView { critical_signal, ..self@ }),
    {
        Monitor { critical_signal, ..self }
    }

    /// The pause between two scans, in nanoseconds.
    pub fn loop_interval(&self) -> (r: u128)
        ensures
            r == self@.loop_interval,
    {
        self.loop_interval
    }

    /// The time before the same signal goes to the same process again, in nanoseconds.
    pub fn cooldown_interval(&self) -> (r: u128)
        ensures
            r == self@.cooldown_interval,
    {
        self.cooldown_interval
    }

    /// The signal sent at the warning watermark.
    pub fn warning_signal(&self) -> (r: i32)
        ensures
            r == self@.warning_signal,
    {
        self.warning_signal
    }

    /// The signal sent at the critical watermark.
    pub fn critical_signal(&self) -> (r: i32)
        ensures
            r == self@.critical_signal,
    {
        self.critical_signal
    }

    /// Whether the process `pid` is assessed, for a monitor whose own process id is
    /// `own_pid`.
    pub fn is_monitored(&self, pid: i32, own_pid: i32) -> (r: bool)
        ensures
            r == monitored(pid, own_pid),
    {
        pid != 1 && pid != own_pid
    }

    /// Decides what to do with process `pid` at `now`, given whether it matches the warning
    /// and the critical expressions. Looking up the process's record leaves the records as
    /// they were while the monitor is below its capacity; above it, the cache may drop
    /// entries, and nothing else.
    pub fn assess(&mut self, pid: i32, warning: bool, critical: bool, now: u128) -> (r: Decision)
        ensures
            r == decide(
                old(self)@.records,
                old(self)@.warning_signal,
                old(self)@.critical_signal,
                old(self)@.cooldown_interval,
                pid,
                warning,
                critical,
                now,
            ),
            final(self)@.records.submap_of(old(self)@.records),
            old(self).below_capacity() ==> final(self)@.records == old(self)@.records,
            old(self).well_formed() ==> final(self).well_formed(),
            same_settings(final(self)@, old(self)@),
    {
        if !warning && !critical {
            return Decision::WithinLimits;
        }
        let severity = CheckerResult::from_matches(warning, critical);
        let signal = if critical {
            self.critical_signal
        } else {
            self.warning_signal
        };
        let last = signal_cache_get(&mut self.last_signals, pid);
        match last {
            Some((when, kind)) => {
                if kind == signal {
                    let since: u128 = if now >= when {
                        now - when
                    } else {
                        0
                    };
                    if since < self.cooldown_interval {
                        return Decision::CoolingDown { signal, severity };
                    }
                }
                Decision::Send { signal, severity }
            },
            None => Decision::Send { signal, severity },
        }
    }

    /// Remembers that `signal` was sent to `pid` at `now`. Below its capacity the monitor
    /// keeps every record and this one; above it, the cache may drop entries, the new one
    /// included, but holds no other record for `pid`.
    pub fn signal_sent(&mut self, pid: i32, signal: i32, now: u128)
        ensures
            final(self)@.records.submap_of(old(self)@.records.insert(pid, (now, signal))),
            old(self).below_capacity() ==> final(self)@.records == old(self)@.records.insert(
                pid,
                (now, signal),
            ),
            old(self).well_formed() ==> final(self).well_formed(),
            same_settings(final(self)@, old(self)@),
    {
        signal_cache_insert(&mut self.last_signals, pid, (now, signal));
    }

    /// Ends an attempt to send `signal` to `pid` at `now`: a signal that went out is
    /// remembered, so its cooldown starts; a failed attempt leaves the monitor as it was, so
    /// the next pass tries again.
    pub fn send_finished(&mut self, pid: i32, signal: i32, now: u128, succeeded: bool)
        ensures
            succeeded ==> final(self)@.records.submap_of(
                old(self)@.records.insert(pid, (now, signal)),
            ),
            succeeded && old(self).below_capacity() ==> final(self)@.records == old(
                self,
            )@.records.insert(pid, (now, signal)),
            !succeeded ==> final(self)@ == old(self)@,
            old(self).well_formed() ==> final(self).well_formed(),
            same_settings(final(self)@, old(self)@),
    {
        if succeeded {
            self.signal_sent(pid, signal, now);
        }
    }
}

/// Counts scans to report how many the monitor makes per second, once a minute.
#[derive(Debug, Clone, Copy)]
pub struct ScanStats {
    pub passes: i64,
    pub last_report: u128,
}

/// Nanoseconds in a second.
pub const NANOS_PER_SEC: u128 = 1_000_000_000;

/// The number of whole seconds from `since` to `now`.
pub open spec fn elapsed_secs(since: u128, now: u128) -> int {
    elapsed(since, now) / NANOS_PER_SEC as int
}

impl ScanStats {
    /// No scan yet, counting from `now`.
    pub fn new(now: u128) -> (r: Self)
        ensures
            r.passes == 0,
            r.last_report == now,
    {
        ScanStats { passes: 0, last_report: now }
    }

    /// Counts a finished scan at `now`. Once a minute or more has passed since the last
    /// report, gives the scans per second over that time (whole scans over whole seconds)
    /// and starts counting anew from `now`.
    pub fn scan_finished(&mut self, now: u128) -> (r: Option<i64>)
        requires
            old(self).passes < i64::MAX,
            old(self).passes >= 0,
        ensures
            elapsed_secs(old(self).last_report, now) < 60 ==> r is None && final(self).passes
                == old(self).passes + 1 && final(self).last_report == old(self).last_report,
            elapsed_secs(old(self).last_report, now) >= 60 ==> r == Some(
                ((old(self).passes + 1) / elapsed_secs(old(self).last_report, now)) as i64,
            ) && final(self).passes == 0 && final(self).last_report == now,
    {
        self.passes = self.passes + 1;
        let since: u128 = if now >= self.last_report {
            now - self.last_report
        } else {
            0
        };
        let secs: u128 = since / NANOS_PER_SEC;
        if secs < 60 {
            return None;
        }
        let p: u128 = self.passes as u128;
        let per_second: u128 = p / secs;
        assert(p / secs <= p) by (nonlinear_arith)
            requires
                secs >= 60,
        ;
        self.passes = 0;
        self.last_report = now;
        Some(per_second as i64)
    }
}

// ---------------------------------------------------------------------------------------
// Laws

/// A process that crosses the critical watermark is due the critical signal, whether or not
/// it also crosses the warning one.
pub proof fn law_critical_takes_precedence(
    records: Map<i32, SignalRecord>,
    warning_signal: i32,
    critical_signal: i32,
    cooldown: u128,
    pid: i32,
    warning: bool,
    now: u128,
)
    ensures
        match decide(records, warning_signal, critical_signal, cooldown, pid, warning, true, now) {
            Decision::Send { signal, severity } => signal == critical_signal && severity
                == CheckerResult::Critical,
            Decision::CoolingDown { signal, severity } => signal == critical_signal && severity
                == CheckerResult::Critical,
            Decision::WithinLimits => false,
        },
{
}

/// A process that crosses no watermark is never due a signal.
pub proof fn law_no_watermark_no_signal(
    records: Map<i32, SignalRecord>,
    warning_signal: i32,
    critical_signal: i32,
    cooldown: u128,
    pid: i32,
    now: u128,
)
    ensures
        decide(records, warning_signal, critical_signal, cooldown, pid, false, false, now)
            == Decision::WithinLimits,
{
}

/// Once a signal has been sent to a process and recorded, the same signal is held back
/// from it until the cooldown interval has passed. (A monitor below its capacity records
/// every signal it is told of, and looking records up keeps them.)
pub proof fn law_cooldown_after_send(
    records: Map<i32, SignalRecord>,
    warning_signal: i32,
    critical_signal: i32,
    cooldown: u128,
    pid: i32,
    warning: bool,
    critical: bool,
    sent_at: u128,
    now: u128,
)
    requires
        warning || critical,
        sent_at <= now,
        now - sent_at < cooldown,
    ensures
        decide(
            records.insert(
                pid,
                (sent_at, if critical {
                    critical_signal
                } else {
                    warning_signal
                }),
            ),
            warning_signal,
            critical_signal,
            cooldown,
            pid,
            warning,
            critical,
            now,
        ) is CoolingDown,
{
}

/// Once the cooldown interval has passed since the recorded signal, the process is due its
/// signal again.
pub proof fn law_cooldown_expires(
    records: Map<i32, SignalRecord>,
    warning_signal: i32,
    critical_signal: i32,
    cooldown: u128,
    pid: i32,
    warning: bool,
    critical: bool,
    now: u128,
)
    requires
        warning || critical,
        records.contains_key(pid),
        records[pid].0 <= now,
        now - records[pid].0 >= cooldown,
    ensures
        decide(records, warning_signal, critical_signal, cooldown, pid, warning, critical, now) is Send,
{
}

/// A record of the warning signal does not hold back a critical signal that differs from
/// it: a process that escalates is signalled at once.
pub proof fn law_escalation_not_held_back(
    records: Map<i32, SignalRecord>,
    warning_signal: i32,
    critical_signal: i32,
    cooldown: u128,
    pid: i32,
    warning: bool,
    now: u128,
)
    requires
        records.contains_key(pid),
        records[pid].1 == warning_signal,
        warning_signal != critical_signal,
    ensures
        decide(records, warning_signal, critical_signal, cooldown, pid, warning, true, now)
            == (Decision::Send { signal: critical_signal, severity: CheckerResult::Critical }),
{
}

/// Only a record of the very signal a process is due holds it back: with no record for the
/// process, or a record of another signal, the due signal goes out at once, however recent
/// the record.
pub proof fn law_other_signal_not_held_back(
    records: Map<i32, SignalRecord>,
    warning_signal: i32,
    critical_signal: i32,
    cooldown: u128,
    pid: i32,
    warning: bool,
    critical: bool,
    now: u128,
)
    requires
        warning || critical,
        !(records.contains_key(pid) && records[pid].1 == (if critical {
            critical_signal
        } else {
            warning_signal
        })),
    ensures
        decide(records, warning_signal, critical_signal, cooldown, pid, warning, critical, now) == (
        Decision::Send {
            signal: if critical {
                critical_signal
            } else {
                warning_signal
            },
            severity: if critical {
                CheckerResult::Critical
            } else {
                CheckerResult::Warning
            },
        }),
{
}

/// A process that falls back from the critical watermark to the warning one is sent the
/// warning signal at once, though the critical signal went to it within the cooldown.
pub proof fn law_deescalation_not_held_back(
    records: Map<i32, SignalRecord>,
    warning_signal: i32,
    critical_signal: i32,
    cooldown: u128,
    pid: i32,
    now: u128,
)
    requires
        records.contains_key(pid),
        records[pid].1 != warning_signal,
    ensures
        decide(records, warning_signal, critical_signal, cooldown, pid, true, false, now)
            == (Decision::Send { signal: warning_signal, severity: CheckerResult::Warning }),
{
}

/// The pause container and the monitor itself are never assessed.
pub proof fn law_excluded_processes(own_pid: i32)
    ensures
        !monitored(1, own_pid),
        !monitored(own_pid, own_pid),
{
}

} // verus!
