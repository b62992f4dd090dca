//! The single shared countdown and the tray title that shows it.
//!
//! `TimerState` is a plain owned value: the application keeps one behind a
//! lock, calls these methods under it, and pushes the returned title to the
//! tray after the state has changed.

use vstd::prelude::*;
use vstd::string::*;
use crate::text::{clock, format_clock};

verus! {

/// Longest label, in characters, shown before the time.
pub const LABEL_MAX_CHARS: usize = 12;

/// What the tray shows while no timer is attached to a task.
pub open spec fn idle_title() -> Seq<char> {
    "미루미"@
}

/// A label cut to `LABEL_MAX_CHARS` characters, with an ellipsis when cut.
pub open spec fn shown_label(label: Seq<char>) -> Seq<char> {
    if label.len() > LABEL_MAX_CHARS {
        label.subrange(0, LABEL_MAX_CHARS as int).push('…')
    } else {
        label
    }
}

/// The tray title for a label and a remaining time.
pub open spec fn tray_title(label: Seq<char>, seconds: nat) -> Seq<char> {
    if label.len() > 0 {
        shown_label(label) + seq![' '] + clock(seconds)
    } else {
        seq!['⏱', ' '] + clock(seconds)
    }
}

/// Renders the tray title: the label (cut to `LABEL_MAX_CHARS` characters)
/// and `MM:SS`, or a stopwatch glyph and `MM:SS` when there is no label.
pub fn format_tray_title(task_title: &str, seconds: u64) -> (r: String)
    ensures
        r@ == tray_title(task_title@, seconds as nat),
{
    let time = format_clock(seconds);
    let n = task_title.unicode_len();
    if n > 0 {
        let mut s = if n > LABEL_MAX_CHARS {
            let mut cut = String::from_str(task_title.substring_char(0, LABEL_MAX_CHARS));
            proof {
                reveal_strlit("…");
            }
            cut.append("…");
            cut
        } else {
            String::from_str(task_title)
        };
        proof {
            reveal_strlit(" ");
        }
        s.append(" ");
        s.append(time.as_str());
        s
    } else {
        let mut s = String::from_str("⏱ ");
        proof {
            reveal_strlit("⏱ ");
        }
        s.append(time.as_str());
        s
    }
}

/// The idle tray title as a value.
pub fn idle_tray_title() -> (r: String)
    ensures
        r@ == idle_title(),
{
    String::from_str("미루미")
}

/// The countdown as the contracts see it.
pub struct TimerView {
    pub remaining: nat,
    pub label: Seq<char>,
    pub running: bool,
}

/// The countdown after one tick of the driver.
pub open spec fn ticked(v: TimerView) -> TimerView {
    if v.running && v.remaining > 0 {
        TimerView {
            remaining: (v.remaining - 1) as nat,
            label: v.label,
            running: v.remaining > 1,
        }
    } else {
        v
    }
}

/// Whether a tick from this countdown raises the end-of-timer notification.
pub open spec fn tick_ends(v: TimerView) -> bool {
    v.running && v.remaining == 1
}

/// The title a tick pushes, if it pushes one.
pub open spec fn tick_title(v: TimerView) -> Option<Seq<char>> {
    if v.running && v.remaining > 0 {
        if v.remaining == 1 {
            Some(idle_title())
        } else {
            Some(tray_title(v.label, (v.remaining - 1) as nat))
        }
    } else {
        None
    }
}

/// The countdown after `k` ticks.
pub open spec fn ticked_n(v: TimerView, k: nat) -> TimerView
    decreases k,
{
    if k == 0 {
        v
    } else {
        ticked(ticked_n(v, (k - 1) as nat))
    }
}

/// How many end-of-timer notifications `k` ticks raise.
pub open spec fn ends_in(v: TimerView, k: nat) -> nat
    decreases k,
{
    if k == 0 {
        0
    } else {
        ends_in(v, (k - 1) as nat) + if tick_ends(ticked_n(v, (k - 1) as nat)) {
            1nat
        } else {
            0nat
        }
    }
}

/// A running countdown from `n > 0` counts down one second per tick, stops at
/// zero after exactly `n` ticks, raises the end-of-timer notification once, on
/// the `n`-th tick, and stays stopped at zero on every later tick.
pub proof fn lemma_countdown_ends_once(v: TimerView, k: nat)
    requires
        v.running,
        v.remaining > 0,
    ensures
        k < v.remaining ==> ticked_n(v, k) == (TimerView {
            remaining: (v.remaining - k) as nat,
            label: v.label,
            running: true,
        }) && ends_in(v, k) == 0,
        k >= v.remaining ==> ticked_n(v, k) == (TimerView {
            remaining: 0,
            label: v.label,
            running: false,
        }) && ends_in(v, k) == 1,
    decreases k,
{
    if k > 0 {
        lemma_countdown_ends_once(v, (k - 1) as nat);
    }
}

/// What one tick did: the title to push, if any, and whether the countdown
/// ended on it.
pub struct TickOutcome {
    pub shown: Option<String>,
    pub ended: bool,
}

/// What a stop did: the remaining time at the moment of the stop and the
/// title to push.
pub struct StopOutcome {
    pub remaining_secs: u64,
    pub shown: String,
}

/// The shared countdown: remaining seconds, the label of the task it runs for,
/// and whether it is running.
pub struct TimerState {
    remaining_secs: u64,
    task_title: String,
    is_running: bool,
}

impl View for TimerState {
    type V = TimerView;

    closed spec fn view(&self) -> TimerView {
        TimerView {
            remaining: self.remaining_secs as nat,
            label: self.task_title@,
            running: self.is_running,
        }
    }
}

impl Default for TimerState {
    fn default() -> (r: Self)
        ensures
            r@ == (TimerView { remaining: 0, label: Seq::empty(), running: false }),
    {
        TimerState::new()
    }
}

impl TimerState {
    /// A stopped countdown at zero with no label.
    pub fn new() -> (r: Self)
        ensures
            r@ == (TimerView { remaining: 0, label: Seq::empty(), running: false }),
    {
        TimerState { remaining_secs: 0, task_title: String::new(), is_running: false }
    }

    /// Starts counting down from `remaining_secs` for `task_title`; returns the
    /// title to push.
    pub fn start(&mut self, remaining_secs: u64, task_title: String) -> (shown: String)
        ensures
            final(self)@ == (TimerView {
                remaining: remaining_secs as nat,
                label: task_title@,
                running: true,
            }),
            shown@ == tray_title(task_title@, remaining_secs as nat),
    {
        let shown = format_tray_title(task_title.as_str(), remaining_secs);
        self.remaining_secs = remaining_secs;
        self.task_title = task_title;
        self.is_running = true;
        shown
    }

    /// Retargets the running countdown to another task without a stop in
    /// between; the same as `start`.
    pub fn update(&mut self, remaining_secs: u64, task_title: String) -> (shown: String)
        ensures
            final(self)@ == (TimerView {
                remaining: remaining_secs as nat,
                label: task_title@,
                running: true,
            }),
            shown@ == tray_title(task_title@, remaining_secs as nat),
    {
        self.start(remaining_secs, task_title)
    }

    /// Stops the countdown and returns the remaining time. With `reset_label`
    /// the tray goes back to idle; without it, it keeps the label and the
    /// frozen remaining time.
    pub fn stop(&mut self, reset_label: bool) -> (r: StopOutcome)
        ensures
            final(self)@ == (TimerView { running: false, ..old(self)@ }),
            r.remaining_secs as nat == old(self)@.remaining,
            r.shown@ == if reset_label {
                idle_title()
            } else {
                tray_title(old(self)@.label, old(self)@.remaining)
            },
    {
        self.is_running = false;
        let shown = if reset_label {
            idle_tray_title()
        } else {
            format_tray_title(self.task_title.as_str(), self.remaining_secs)
        };
        StopOutcome { remaining_secs: self.remaining_secs, shown }
    }

    /// Overwrites the remaining time only; returns the title to push when the
    /// countdown is running.
    pub fn sync(&mut self, remaining_secs: u64) -> (shown: Option<String>)
        ensures
            final(self)@ == (TimerView { remaining: remaining_secs as nat, ..old(self)@ }),
            shown.is_some() == old(self)@.running,
            shown matches Some(t) ==> t@ == tray_title(old(self)@.label, remaining_secs as nat),
    {
        self.remaining_secs = remaining_secs;
        if self.is_running {
            Some(format_tray_title(self.task_title.as_str(), remaining_secs))
        } else {
            None
        }
    }

    /// The remaining time and whether the countdown runs.
    pub fn query(&self) -> (r: (u64, bool))
        ensures
            r.0 as nat == self@.remaining,
            r.1 == self@.running,
    {
        (self.remaining_secs, self.is_running)
    }

    /// One tick of the driver: counts down by one second while running and
    /// above zero, and stops at zero, raising the end-of-timer notification.
    pub fn tick(&mut self) -> (r: TickOutcome)
        ensures
            final(self)@ == ticked(old(self)@),
            r.ended == tick_ends(old(self)@),
            r.shown.is_some() == tick_title(old(self)@).is_some(),
            r.shown matches Some(t) ==> tick_title(old(self)@) == Some(t@),
    {
        if self.is_running && self.remaining_secs > 0 {
            self.remaining_secs = self.remaining_secs - 1;
            if self.remaining_secs == 0 {
                self.is_running = false;
                TickOutcome { shown: Some(idle_tray_title()), ended: true }
            } else {
                let t = format_tray_title(self.task_title.as_str(), self.remaining_secs);
                TickOutcome { shown: Some(t), ended: false }
            }
        } else {
            TickOutcome { shown: None, ended: false }
        }
    }
}

} // verus!
