//! A pausable countdown timer.
//!
//! Time is read from a monotonic clock as nanoseconds elapsed since an anchor
//! instant that every timer takes when it is created; each reading is no
//! earlier than the latest one the timer has taken. All decisions of the
//! timer are made by the `*_at` methods, which take the clock reading as an
//! argument; the methods without that suffix read the clock and delegate.

use std::time::Instant;
use vstd::prelude::*;

verus! {

#[verifier::external_type_specification]
#[verifier::external_body]
pub struct ExInstant(Instant);

/// Calls `std::time::Instant::now`. Nothing is claimed of the instant it
/// returns: it depends on the time of the call.
#[verifier::external_body]
fn instant_now() -> Instant {
    Instant::now()
}

/// A monotonic clock: nanoseconds elapsed since an anchor instant, together
/// with the latest reading taken from it. `latest` is 0 when the clock is
/// made and is afterwards only ever set to a reading of the same anchor.
pub struct Clock {
    anchor: Instant,
    latest: u128,
}

/// Calls `Instant::elapsed` on the clock's anchor and converts the duration to
/// whole nanoseconds with `Duration::as_nanos`. Claimed, as the documentation
/// of `Instant` says (an instant is never less than any instant measured
/// before it, and `elapsed` is the time from the anchor to now, saturating
/// at zero): the reading is no less than `latest`, which `Clock` keeps at 0
/// or at an earlier reading of the same anchor. Nothing more is claimed: the
/// value depends on the time of the call.
#[verifier::external_body]
fn nanos_since(clock: &Clock) -> (r: u128)
    ensures
        r >= clock.latest,
{
    clock.anchor.elapsed().as_nanos()
}

impl Clock {
    /// The latest reading taken from this clock; 0 before the first.
    pub closed spec fn latest(&self) -> u128 {
        self.latest
    }

    /// A clock anchored at the current instant, with no reading taken yet.
    fn new() -> (c: Clock)
        ensures
            c.latest() == 0,
    {
        Clock { anchor: instant_now(), latest: 0 }
    }

    /// The current reading, without recording it.
    fn peek(&self) -> (r: u128)
        ensures
            r >= self.latest(),
    {
        nanos_since(self)
    }

    /// The current reading, recorded as the latest.
    fn read(&mut self) -> (r: u128)
        ensures
            r >= old(self).latest(),
            final(self).latest() == r,
    {
        let r = nanos_since(self);
        self.latest = r;
        r
    }
}

/// Nanoseconds in one second.
pub const NANOS_PER_SEC: u128 = 1_000_000_000;

/// The abstract state of a timer: every clock value is a reading of the
/// timer's clock in nanoseconds.
pub ghost struct TimerModel {
    /// Clock reading at which the current run started, shifted forward by
    /// the length of every pause since.
    pub start: u128,
    /// Length of one run, in seconds.
    pub duration: u64,
    pub running: bool,
    /// Clock reading at which the timer was paused, if it is paused.
    pub paused_at: Option<u128>,
}

impl TimerModel {
    /// Length of one run, in nanoseconds.
    pub open spec fn total_nanos(self) -> int {
        self.duration * NANOS_PER_SEC
    }

    /// Neither running nor paused: the timer shows its full length.
    pub open spec fn idle(self) -> bool {
        !self.running && self.paused_at is None
    }

    /// Nanoseconds that count as elapsed at clock reading `now`.
    pub open spec fn elapsed_at(self, now: u128) -> int {
        if self.running {
            now.saturating_sub(self.start) as int
        } else {
            match self.paused_at {
                Some(p) => p.saturating_sub(self.start) as int,
                None => 0,
            }
        }
    }

    /// Nanoseconds left at clock reading `now`; never negative.
    pub open spec fn remaining_at(self, now: u128) -> int {
        if self.idle() {
            self.total_nanos()
        } else if self.elapsed_at(now) >= self.total_nanos() {
            0
        } else {
            self.total_nanos() - self.elapsed_at(now)
        }
    }

    /// The state after a start (or resume) at clock reading `now`: a paused
    /// timer keeps its elapsed time, any other timer starts afresh at `now`.
    pub open spec fn started(self, now: u128) -> TimerModel {
        TimerModel {
            start: match self.paused_at {
                Some(p) => self.start.saturating_add(now.saturating_sub(p)),
                None => now,
            },
            running: true,
            paused_at: None,
            ..self
        }
    }

    /// The state after a pause at clock reading `now`.
    pub open spec fn paused(self, now: u128) -> TimerModel {
        TimerModel { running: false, paused_at: Some(now), ..self }
    }

    /// The state after a reset at clock reading `now`.
    pub open spec fn reset(self, now: u128) -> TimerModel {
        TimerModel { start: now, running: false, paused_at: None, ..self }
    }
}

/// A fresh start counts down exactly: `d` nanoseconds after an idle timer is
/// started, `total - d` nanoseconds are left (and never less than zero).
pub proof fn lemma_fresh_run_counts_down(m: TimerModel, t: u128, d: u128)
    requires
        m.idle(),
        t + d <= u128::MAX,
    ensures
        m.started(t).remaining_at((t + d) as u128) == if d >= m.total_nanos() {
            0
        } else {
            m.total_nanos() - d
        },
{
}

/// Pausing freezes the timer: while paused, the time left is the same at every
/// clock reading, and it is what was left at the moment of the pause.
pub proof fn lemma_pause_freezes(m: TimerModel, t_pause: u128, t: u128)
    requires
        m.running,
    ensures
        m.paused(t_pause).remaining_at(t) == m.remaining_at(t_pause),
{
}

/// A pause does not eat into the run: after pausing at `t_pause` and resuming
/// at `t_resume`, the time left `d` nanoseconds later is what would have been
/// left `d` nanoseconds after `t_pause` without the pause.
pub proof fn lemma_resume_keeps_remaining(m: TimerModel, t_pause: u128, t_resume: u128, d: u128)
    requires
        m.running,
        t_pause <= t_resume,
        t_resume + d <= u128::MAX,
        m.start + (t_resume - t_pause) <= u128::MAX,
    ensures
        m.paused(t_pause).started(t_resume).remaining_at((t_resume + d) as u128)
            == m.remaining_at((t_pause + d) as u128),
{
}

/// The time left is never more than the length of a run.
pub proof fn lemma_remaining_bounded(m: TimerModel, now: u128)
    ensures
        0 <= m.remaining_at(now) <= m.total_nanos(),
{
}

/// While running, the time left never goes up as the clock advances.
pub proof fn lemma_running_never_gains_time(m: TimerModel, t1: u128, t2: u128)
    requires
        m.running,
        t1 <= t2,
    ensures
        m.remaining_at(t2) <= m.remaining_at(t1),
{
}

/// A running timer has run out once its whole length has elapsed since its
/// (shifted) start: from then on nothing is left.
pub proof fn lemma_runs_out(m: TimerModel, now: u128)
    requires
        m.running,
        now >= m.start + m.total_nanos(),
    ensures
        m.remaining_at(now) == 0,
{
}

/// Starting a timer that is not running takes no time off it: at the clock
/// reading of the start, an idle timer has its full length left and a paused
/// one what it had left when it was paused (the start comes no earlier than
/// the pause).
pub proof fn lemma_start_keeps_remaining(m: TimerModel, t: u128)
    requires
        !m.running,
        m.paused_at matches Some(p) ==> p <= t && m.start + (t - p) <= u128::MAX,
    ensures
        m.started(t).running,
        m.started(t).remaining_at(t) == m.remaining_at(t),
        m.idle() ==> m.started(t).remaining_at(t) == m.total_nanos(),
{
}

/// A reset brings the timer back to idle with its full length left, whatever
/// its state before and whatever the clock reads afterwards.
pub proof fn lemma_reset_restores_full_length(m: TimerModel, now: u128, t: u128)
    ensures
        m.reset(now).idle(),
        m.reset(now).remaining_at(t) == m.total_nanos(),
        m.reset(now).duration == m.duration,
{
}

/// Starting always leaves the timer running and no longer idle; pausing always
/// leaves it stopped and not idle.
pub proof fn lemma_start_pause_states(m: TimerModel, now: u128)
    ensures
        m.started(now).running,
        !m.started(now).idle(),
        !m.paused(now).running,
        !m.paused(now).idle(),
{
}

pub struct Timer {
    clock: Clock,
    start_time: u128,
    duration: u64,
    is_running: bool,
    paused_at: Option<u128>,
}

impl View for Timer {
    type V = TimerModel;

    closed spec fn view(&self) -> TimerModel {
        TimerModel {
            start: self.start_time,
            duration: self.duration,
            running: self.is_running,
            paused_at: self.paused_at,
        }
    }
}

impl Timer {
    /// The latest reading of this timer's clock that the timer has taken (by
    /// `read`, `start`, `pause` or `reset`); 0 before the first. Every later
    /// reading is at least this.
    pub closed spec fn clock(&self) -> u128 {
        self.clock.latest()
    }

    /// A stopped timer of `duration` seconds, anchored at the current instant.
    pub fn new(duration: u64) -> (t: Timer)
        ensures
            t@.duration == duration,
            !t@.running,
            t@.paused_at is None,
            t@.start == 0,
            t.clock() == 0,
    {
        Timer { clock: Clock::new(), start_time: 0, duration, is_running: false, paused_at: None }
    }

    /// The current reading of this timer's clock, in nanoseconds: never
    /// earlier than the latest reading the timer has taken.
    pub fn now(&self) -> (r: u128)
        ensures
            r >= self.clock(),
    {
        self.clock.peek()
    }

    /// The current reading of this timer's clock, recorded as its latest:
    /// never earlier than the latest reading before.
    pub fn read(&mut self) -> (r: u128)
        ensures
            r >= old(self).clock(),
            final(self).clock() == r,
            final(self)@ == old(self)@,
    {
        self.clock.read()
    }

    /// Starts or resumes the timer at clock reading `now`.
    pub fn start_at(&mut self, now: u128)
        ensures
            final(self)@ == old(self)@.started(now),
            final(self).clock() == old(self).clock(),
    {
        match self.paused_at {
            Some(p) => {
                let pause_len = now.saturating_sub(p);
                self.start_time = self.start_time.saturating_add(pause_len);
            },
            None => {
                self.start_time = now;
            },
        }
        self.paused_at = None;
        self.is_running = true;
    }

    /// Pauses the timer at clock reading `now`.
    pub fn pause_at(&mut self, now: u128)
        ensures
            final(self)@ == old(self)@.paused(now),
            final(self).clock() == old(self).clock(),
    {
        self.is_running = false;
        self.paused_at = Some(now);
    }

    /// Stops the timer and rewinds it to its full length at clock reading `now`.
    pub fn reset_at(&mut self, now: u128)
        ensures
            final(self)@ == old(self)@.reset(now),
            final(self).clock() == old(self).clock(),
    {
        self.start_time = now;
        self.is_running = false;
        self.paused_at = None;
    }

    /// Nanoseconds left at clock reading `now`.
    pub fn remaining_at(&self, now: u128) -> (r: u128)
        ensures
            r == self@.remaining_at(now),
    {
        let total: u128 = (self.duration as u128) * NANOS_PER_SEC;
        if !self.is_running && self.paused_at.is_none() {
            return total;
        }
        let elapsed: u128 = if self.is_running {
            now.saturating_sub(self.start_time)
        } else {
            match self.paused_at {
                Some(p) => p.saturating_sub(self.start_time),
                None => 0,
            }
        };
        total.saturating_sub(elapsed)
    }

    /// Starts or resumes the timer now.
    pub fn start(&mut self)
        ensures
            final(self).clock() >= old(self).clock(),
            final(self)@ == old(self)@.started(final(self).clock()),
    {
        let now = self.read();
        self.start_at(now);
    }

    /// Pauses the timer now.
    pub fn pause(&mut self)
        ensures
            final(self).clock() >= old(self).clock(),
            final(self)@ == old(self)@.paused(final(self).clock()),
    {
        let now = self.read();
        self.pause_at(now);
    }

    /// Stops the timer and rewinds it to its full length.
    pub fn reset(&mut self)
        ensures
            final(self).clock() >= old(self).clock(),
            final(self)@ == old(self)@.reset(final(self).clock()),
    {
        let now = self.read();
        self.reset_at(now);
    }

    /// Nanoseconds left now.
    pub fn check_time(&self) -> (r: u128)
        ensures
            exists|t: u128| t >= self.clock() && r == #[trigger] self@.remaining_at(t),
            r <= self@.total_nanos(),
            r <= self@.remaining_at(self.clock()),
            !self@.running ==> r == self@.remaining_at(self.clock()),
            self@.idle() ==> r == self@.total_nanos(),
            self@.running && self.clock() >= self@.start + self@.total_nanos() ==> r == 0,
    {
        let now = self.now();
        self.remaining_at(now)
    }

    pub fn is_running(&self) -> (r: bool)
        ensures
            r == self@.running,
    {
        self.is_running
    }

    pub fn is_idle(&self) -> (r: bool)
        ensures
            r == self@.idle(),
    {
        !self.is_running && self.paused_at.is_none()
    }

    /// Length of one run, in seconds.
    pub fn total_time(&self) -> (r: u64)
        ensures
            r == self@.duration,
    {
        self.duration
    }
}

} // verus!
