//! Progress of long operations: the levels and states of a tracked
//! operation, how an update moves its state, and the console reporter's
//! throttling and time rendering.

use vstd::prelude::*;
use std::time::Instant;
use crate::text::{dec, decimal, push_decimal};
use crate::tools::{clock_elapsed, clock_now, duration_millis};

verus! {

/// What a progress report is about.
#[derive(Debug, Clone, Copy, PartialEq, Eq, Structural)]
pub enum ProgressLevel {
    Task,
    Batch,
    File,
    Operation,
    AIPrediction,
}

/// The state of a tracked operation.
#[derive(Debug, Clone, Copy, PartialEq, Eq, Structural)]
pub enum ProgressState {
    Preparing,
    Running,
    Paused,
    Completed,
    Failed,
    Cancelled,
    Queued,
    Retrying,
}

/// The state after an update to `completed` of `total` units: completed
/// once the count reaches the total, running when it was preparing, else
/// unchanged.
pub open spec fn state_after_update_spec(state: ProgressState, completed: u64, total: u64) -> ProgressState {
    if completed >= total {
        ProgressState::Completed
    } else if state == ProgressState::Preparing {
        ProgressState::Running
    } else {
        state
    }
}

/// The state after an update to `completed` of `total` units.
pub fn state_after_update(state: ProgressState, completed: u64, total: u64) -> (res: ProgressState)
    ensures
        res == state_after_update_spec(state, completed, total),
{
    if completed >= total {
        ProgressState::Completed
    } else if state == ProgressState::Preparing {
        ProgressState::Running
    } else {
        state
    }
}

/// An update reaches the completed state exactly when the count reaches
/// the total, and an operation still in preparation starts running
/// otherwise.
pub proof fn law_update_completes_at_total(state: ProgressState, completed: u64, total: u64)
    ensures
        (state_after_update_spec(state, completed, total) == ProgressState::Completed) <==> (completed >= total
            || state == ProgressState::Completed),
        completed < total && state == ProgressState::Preparing ==> state_after_update_spec(state, completed, total)
            == ProgressState::Running,
{
}

/// The symbol shown for a level.
pub fn level_emoji(level: ProgressLevel) -> (res: &'static str)
    ensures
        res@ == match level {
            ProgressLevel::Task => "🎯"@,
            ProgressLevel::Batch => "📦"@,
            ProgressLevel::File => "📄"@,
            ProgressLevel::Operation => "⚙️"@,
            ProgressLevel::AIPrediction => "🤖"@,
        },
{
    match level {
        ProgressLevel::Task => "🎯",
        ProgressLevel::Batch => "📦",
        ProgressLevel::File => "📄",
        ProgressLevel::Operation => "⚙️",
        ProgressLevel::AIPrediction => "🤖",
    }
}

/// The symbol shown for a state.
pub fn state_emoji(state: ProgressState) -> (res: &'static str)
    ensures
        res@ == match state {
            ProgressState::Preparing => "🔄"@,
            ProgressState::Running => "▶️"@,
            ProgressState::Paused => "⏸️"@,
            ProgressState::Completed => "✅"@,
            ProgressState::Failed => "❌"@,
            ProgressState::Cancelled => "🚫"@,
            ProgressState::Queued => "⏳"@,
            ProgressState::Retrying => "🔁"@,
        },
{
    match state {
        ProgressState::Preparing => "🔄",
        ProgressState::Running => "▶️",
        ProgressState::Paused => "⏸️",
        ProgressState::Completed => "✅",
        ProgressState::Failed => "❌",
        ProgressState::Cancelled => "🚫",
        ProgressState::Queued => "⏳",
        ProgressState::Retrying => "🔁",
    }
}

/// A remaining time of `ms` milliseconds as the console shows it: hours
/// and minutes ("1h5m"), else minutes and seconds ("2m3s"), else seconds.
pub open spec fn duration_text(ms: nat) -> Seq<char> {
    let seconds = ms / 1000;
    let minutes = seconds / 60;
    let hours = minutes / 60;
    if hours > 0 {
        dec(hours) + "h"@ + dec(minutes % 60) + "m"@
    } else if minutes > 0 {
        dec(minutes) + "m"@ + dec(seconds % 60) + "s"@
    } else {
        dec(seconds) + "s"@
    }
}

/// Reports progress on the console, at most once per interval while an
/// operation runs.
pub struct ConsoleProgressCallback {
    verbose: bool,
    last_update: Instant,
    update_interval_ms: u64,
}

impl ConsoleProgressCallback {
    /// Whether throughput and time left are shown.
    pub closed spec fn spec_verbose(&self) -> bool {
        self.verbose
    }

    /// The least time between two reports of a running operation.
    pub closed spec fn spec_interval_ms(&self) -> u64 {
        self.update_interval_ms
    }

    /// When the current interval started.
    pub closed spec fn spec_interval_start(&self) -> Instant {
        self.last_update
    }

    /// A reporter whose interval is 100 ms, counted from now.
    pub fn new(verbose: bool) -> (res: Self)
        ensures
            res.spec_verbose() == verbose,
            res.spec_interval_ms() == 100,
    {
        ConsoleProgressCallback { verbose, last_update: clock_now(), update_interval_ms: 100 }
    }

    /// Whether throughput and time left are shown.
    pub fn verbose(&self) -> (res: bool)
        ensures
            res == self.spec_verbose(),
    {
        self.verbose
    }

    /// Whether the interval has passed since the last report; when it has,
    /// the interval starts again now, and when it has not, the interval
    /// keeps its start. The answer depends on the clock.
    pub fn should_update(&mut self) -> (res: bool)
        ensures
            final(self).spec_verbose() == old(self).spec_verbose(),
            final(self).spec_interval_ms() == old(self).spec_interval_ms(),
            !res ==> final(self).spec_interval_start() == old(self).spec_interval_start(),
    {
        let elapsed = clock_elapsed(&self.last_update);
        if Self::interval_passed(duration_millis(&elapsed), self.update_interval_ms) {
            self.last_update = clock_now();
            true
        } else {
            false
        }
    }

    /// Whether `elapsed_ms` milliseconds reach an interval of `interval_ms`.
    pub fn interval_passed(elapsed_ms: u128, interval_ms: u64) -> (res: bool)
        ensures
            res == (elapsed_ms >= interval_ms),
    {
        elapsed_ms >= interval_ms as u128
    }

    /// A remaining time as the console shows it.
    pub fn format_duration(ms: u64) -> (res: String)
        ensures
            res@ == duration_text(ms as nat),
    {
        let seconds = ms / 1000;
        let minutes = seconds / 60;
        let hours = minutes / 60;
        if hours > 0 {
            let mut s = decimal(hours);
            s.append("h");
            push_decimal(&mut s, minutes % 60);
            s.append("m");
            assert(s@ =~= dec(hours as nat) + "h"@ + dec((minutes % 60) as nat) + "m"@);
            s
        } else if minutes > 0 {
            let mut s = decimal(minutes);
            s.append("m");
            push_decimal(&mut s, seconds % 60);
            s.append("s");
            assert(s@ =~= dec(minutes as nat) + "m"@ + dec((seconds % 60) as nat) + "s"@);
            s
        } else {
            let mut s = decimal(seconds);
            s.append("s");
            assert(s@ =~= dec(seconds as nat) + "s"@);
            s
        }
    }
}

} // verus!
