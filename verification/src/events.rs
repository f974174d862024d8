//! How relevant an event of the monitor is, and how the event logger deals with it.

use vstd::prelude::*;

verus! {

/// The relevance of an event; receivers choose how to deal with each.
#[derive(Debug, Clone, Copy, PartialEq, Eq, Structural)]
pub enum Priority {
    Low,
    High,
}

impl Default for Priority {
    fn default() -> (r: Self)
        ensures
            r == Priority::Low,
    {
        Priority::Low
    }
}

/// What the event logger does with an event. An event that is logged becomes the last one
/// logged for its process.
#[derive(Debug, Clone, Copy, PartialEq, Eq, Structural)]
pub enum LogAction {
    /// Log it as a warning.
    Warn,
    /// Log it as information.
    Info,
    /// Drop it.
    Skip,
}

/// The event logger's choice for an event of `priority`, given how it compares with the last
/// event logged for its process: `None` when there is none, otherwise whether the event
/// deviates significantly from it. High priority events are always logged as warnings; a
/// low priority event is logged only when it is the first of its process or deviates.
pub fn log_action(priority: Priority, deviation: Option<bool>) -> (r: LogAction)
    ensures
        r == match priority {
            Priority::High => LogAction::Warn,
            Priority::Low => match deviation {
                Some(false) => LogAction::Skip,
                _ => LogAction::Info,
            },
        },
{
    match priority {
        Priority::High => LogAction::Warn,
        Priority::Low => match deviation {
            Some(false) => LogAction::Skip,
            _ => LogAction::Info,
        },
    }
}

} // verus!
