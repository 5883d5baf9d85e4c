//! The session state machine: work and break sessions alternate, each timed
//! by its own timer. Every operation changes the session and returns the
//! effects that the application is to carry out, in order: music, sounds,
//! and the timer ring's animation and background.

use vstd::prelude::*;
use crate::timer::{Timer, TimerModel};

verus! {

/// The two kinds of session.
#[derive(Clone, Copy, PartialEq, Eq, Debug, Structural)]
pub enum Mode {
    Work,
    Break,
}

/// What the application is to do after an operation of the session.
#[derive(Clone, Copy, PartialEq, Eq, Debug, Structural)]
pub enum Effect {
    /// Rewind the ring animation to empty.
    ResetRing,
    /// Drop the background picture of the current track.
    ClearBackground,
    /// Show the picture of the current track behind the timer.
    RefreshBackground,
    /// Start or resume the music of a session (not if its track is a video).
    PlayMusic(Mode),
    /// Pause the music of a session.
    PauseMusic(Mode),
    /// Stop the music of a session.
    StopMusic(Mode),
    /// Play the countdown sound.
    PlayCountdown,
    /// Stop the countdown sound.
    StopCountdown,
    /// Play the bell.
    PlayBell,
    /// Move a session's music to the previous track.
    PreviousTrack(Mode),
    /// Move a session's music to the next track.
    NextTrack(Mode),
}

/// The state of the session machine.
pub ghost struct SessionModel {
    pub in_break: bool,
    pub work: TimerModel,
    pub rest: TimerModel,
    pub awaiting_countdown: bool,
    pub music_enabled: bool,
}

/// A timer started afresh at clock reading `t`.
pub open spec fn fresh_run(m: TimerModel, t: u128) -> TimerModel {
    TimerModel { start: t, running: true, paused_at: None, duration: m.duration }
}

/// The mode of a session state.
pub open spec fn mode_of(in_break: bool) -> Mode {
    if in_break {
        Mode::Break
    } else {
        Mode::Work
    }
}

impl SessionModel {
    pub open spec fn mode(self) -> Mode {
        mode_of(self.in_break)
    }

    /// The timer of the current session.
    pub open spec fn current(self) -> TimerModel {
        if self.in_break {
            self.rest
        } else {
            self.work
        }
    }

    /// The state after switching to the other kind of session, whose timer
    /// starts afresh at clock reading `t`.
    pub open spec fn switched(self, t: u128) -> SessionModel {
        if self.in_break {
            SessionModel { in_break: false, work: fresh_run(self.work, t), ..self }
        } else {
            SessionModel { in_break: true, rest: fresh_run(self.rest, t), ..self }
        }
    }

    /// What switching sessions asks of the application.
    pub open spec fn switch_effects(self) -> Seq<Effect> {
        let after = mode_of(!self.in_break);
        seq![Effect::ResetRing, Effect::ClearBackground, Effect::StopMusic(self.mode())]
            + (if self.music_enabled {
            seq![Effect::PlayMusic(after)]
        } else {
            Seq::empty()
        }) + seq![Effect::RefreshBackground]
    }

    /// What finishing a session asks of the application: switching, then the
    /// bell.
    pub open spec fn finish_effects(self) -> Seq<Effect> {
        self.switch_effects().push(Effect::PlayBell)
    }

    /// The current session's timer has run out.
    pub open spec fn done(self, remaining: u128) -> bool {
        remaining == 0 && self.current().running
    }

    /// The outcome of a tick: the new state and the effects, when the current
    /// timer has `remaining` nanoseconds left, the countdown sound has ended
    /// or not, a countdown sound is configured or not, and a switch would
    /// start the next timer at clock reading `t`.
    pub open spec fn tick_result(
        self,
        remaining: u128,
        countdown_done: bool,
        countdown_configured: bool,
        t: u128,
    ) -> (SessionModel, Seq<Effect>) {
        if self.awaiting_countdown {
            if countdown_done {
                (SessionModel { awaiting_countdown: false, ..self }.switched(t), self.finish_effects())
            } else {
                (self, Seq::empty())
            }
        } else if self.done(remaining) {
            if countdown_configured {
                (
                    SessionModel { awaiting_countdown: true, ..self },
                    seq![Effect::PauseMusic(self.mode()), Effect::PlayCountdown],
                )
            } else {
                (self.switched(t), self.finish_effects())
            }
        } else {
            (self, Seq::empty())
        }
    }

    /// The state with the current timer replaced by `m`.
    pub open spec fn with_current(self, m: TimerModel) -> SessionModel {
        if self.in_break {
            SessionModel { rest: m, ..self }
        } else {
            SessionModel { work: m, ..self }
        }
    }

    /// What starting the current session asks of the application.
    pub open spec fn start_effects(self) -> Seq<Effect> {
        (if self.current().idle() {
            seq![Effect::ResetRing]
        } else {
            Seq::empty()
        }) + (if self.music_enabled {
            seq![Effect::PlayMusic(self.mode())]
        } else {
            Seq::empty()
        }) + seq![Effect::RefreshBackground]
    }

    /// The state after a reset, the timers rewound at readings `t1` and `t2`
    /// of their clocks: a work session that has not started.
    pub open spec fn reset_state(self, t1: u128, t2: u128) -> SessionModel {
        SessionModel {
            in_break: false,
            work: self.work.reset(t1),
            rest: self.rest.reset(t2),
            awaiting_countdown: false,
            music_enabled: self.music_enabled,
        }
    }

    /// What a reset asks of the application.
    pub open spec fn reset_effects(self) -> Seq<Effect> {
        seq![
            Effect::ResetRing,
            Effect::StopCountdown,
            Effect::StopMusic(Mode::Work),
            Effect::StopMusic(Mode::Break),
            Effect::ClearBackground,
        ]
    }
}

/// Work and break alternate: a switch changes the kind of session, and two
/// switches come back to it.
pub proof fn lemma_sessions_alternate(m: SessionModel, t1: u128, t2: u128)
    ensures
        m.switched(t1).in_break == !m.in_break,
        m.switched(t1).switched(t2).in_break == m.in_break,
{
}

/// A switch starts the next session's timer afresh, so that it counts down
/// its full length, and leaves the finished session's timer as it was.
pub proof fn lemma_switch_starts_next_timer_afresh(m: SessionModel, t: u128, d: u128)
    requires
        t + d <= u128::MAX,
    ensures
        m.switched(t).current().running,
        m.switched(t).current().duration == (if m.in_break { m.work.duration } else { m.rest.duration }),
        m.switched(t).current().remaining_at((t + d) as u128) == if d >= m.switched(t).current().total_nanos() {
            0
        } else {
            m.switched(t).current().total_nanos() - d
        },
        m.in_break ==> m.switched(t).rest == m.rest,
        !m.in_break ==> m.switched(t).work == m.work,
        m.switched(t).awaiting_countdown == m.awaiting_countdown,
        m.switched(t).music_enabled == m.music_enabled,
{
}

/// A session ends only when its timer has run out (or, after the countdown
/// sound, when that sound has ended): a tick that changes the kind of
/// session had one of these reasons.
pub proof fn lemma_session_ends_only_when_due(
    m: SessionModel,
    remaining: u128,
    countdown_done: bool,
    countdown_configured: bool,
    t: u128,
)
    ensures
        m.tick_result(remaining, countdown_done, countdown_configured, t).0.in_break != m.in_break
            ==> (m.awaiting_countdown && countdown_done) || (!m.awaiting_countdown && m.done(remaining)
            && !countdown_configured),
{
}

/// A tick at a clock reading by which the running current session's whole
/// length has elapsed ends that session: without a countdown sound it
/// switches to the other kind of session (starting its timer at `t` with its
/// full length) and rings the bell; with one, it pauses the music and plays
/// the countdown first.
pub proof fn lemma_tick_ends_an_expired_session(m: SessionModel, now: u128, countdown_done: bool, t: u128)
    requires
        !m.awaiting_countdown,
        m.current().running,
        now >= m.current().start + m.current().total_nanos(),
    ensures
        m.tick_result(m.current().remaining_at(now) as u128, countdown_done, false, t) == (
            m.switched(t),
            m.finish_effects(),
        ),
        m.switched(t).in_break != m.in_break,
        m.switched(t).current().remaining_at(t) == m.switched(t).current().total_nanos(),
        m.tick_result(m.current().remaining_at(now) as u128, countdown_done, true, t).0.awaiting_countdown,
{
    crate::timer::lemma_runs_out(m.current(), now);
}

/// A switch at clock reading `t` gives the next session its whole length at
/// `t`.
pub proof fn lemma_switch_gives_full_length(m: SessionModel, t: u128)
    ensures
        m.switched(t).current().remaining_at(t) == m.switched(t).current().total_nanos(),
        m.switched(t).current().running,
{
}

/// Starting the current session takes no time off it: at the reading of the
/// start, the session has what it had just before (its full length if it had
/// not started, what was left at the pause if it was paused no later).
pub proof fn lemma_start_keeps_session_time(m: SessionModel, t: u128)
    requires
        !m.current().running,
        m.current().paused_at matches Some(p) ==> p <= t && m.current().start + (t - p) <= u128::MAX,
    ensures
        m.with_current(m.current().started(t)).in_break == m.in_break,
        m.with_current(m.current().started(t)).current().remaining_at(t) == m.current().remaining_at(t),
{
    crate::timer::lemma_start_keeps_remaining(m.current(), t);
}

/// While the current timer has time left and no countdown is under way, a
/// tick changes nothing and asks nothing.
pub proof fn lemma_tick_with_time_left_is_quiet(
    m: SessionModel,
    remaining: u128,
    countdown_done: bool,
    countdown_configured: bool,
    t: u128,
)
    requires
        !m.awaiting_countdown,
        !m.done(remaining),
    ensures
        m.tick_result(remaining, countdown_done, countdown_configured, t) == (m, Seq::<Effect>::empty()),
{
}

/// With a countdown sound configured, a session that runs out first pauses
/// its music and plays the countdown, staying in the same kind of session;
/// the switch, with the bell, comes on the first tick after the countdown
/// sound has ended, and not before.
pub proof fn lemma_countdown_precedes_switch(m: SessionModel, t: u128, t2: u128)
    requires
        !m.awaiting_countdown,
        m.current().running,
    ensures
        ({
            let (m1, e1) = m.tick_result(0, false, true, t);
            &&& m1.awaiting_countdown
            &&& m1.in_break == m.in_break
            &&& e1 == seq![Effect::PauseMusic(m.mode()), Effect::PlayCountdown]
            &&& m1.tick_result(0, false, true, t2) == (m1, Seq::<Effect>::empty())
            &&& m1.tick_result(0, true, true, t2).0.in_break == !m.in_break
            &&& !m1.tick_result(0, true, true, t2).0.awaiting_countdown
            &&& m1.tick_result(0, true, true, t2).1.last() == Effect::PlayBell
        }),
{
}

/// Finishing a session rings the bell once, as its last effect, and plays
/// the next session's music exactly when music is enabled.
pub proof fn lemma_finish_rings_bell_and_plays_music(m: SessionModel)
    ensures
        m.finish_effects().last() == Effect::PlayBell,
        m.finish_effects().contains(Effect::PlayMusic(mode_of(!m.in_break))) <==> m.music_enabled,
{
    let e = m.finish_effects();
    let target = Effect::PlayMusic(mode_of(!m.in_break));
    if m.music_enabled {
        assert(e[3] == target);
    } else {
        assert(e == seq![Effect::ResetRing, Effect::ClearBackground, Effect::StopMusic(m.mode()),
            Effect::RefreshBackground, Effect::PlayBell]);
        assert forall|i: int| 0 <= i < e.len() implies e[i] != target by {}
    }
}

/// A reset always brings back a work session that has not started, with the
/// full length on both timers and no countdown under way.
pub proof fn lemma_reset_restores_a_fresh_work_session(m: SessionModel, t1: u128, t2: u128, t: u128)
    ensures
        !m.reset_state(t1, t2).in_break,
        !m.reset_state(t1, t2).awaiting_countdown,
        m.reset_state(t1, t2).work.idle(),
        m.reset_state(t1, t2).rest.idle(),
        m.reset_state(t1, t2).work.remaining_at(t) == m.work.total_nanos(),
        m.reset_state(t1, t2).rest.remaining_at(t) == m.rest.total_nanos(),
{
}

/// Pausing the current session and starting it again loses no time: `d`
/// nanoseconds after the restart, the session has as much left as it would
/// have had `d` nanoseconds after the pause.
pub proof fn lemma_pause_and_resume_lose_no_time(m: SessionModel, t_pause: u128, t_resume: u128, d: u128)
    requires
        m.current().running,
        t_pause <= t_resume,
        t_resume + d <= u128::MAX,
        m.current().start + (t_resume - t_pause) <= u128::MAX,
    ensures
        ({
            let m1 = m.with_current(m.current().paused(t_pause));
            let m2 = m1.with_current(m1.current().started(t_resume));
            &&& m2.in_break == m.in_break
            &&& m2.current().remaining_at((t_resume + d) as u128) == m.current().remaining_at(
                (t_pause + d) as u128,
            )
        }),
{
    crate::timer::lemma_resume_keeps_remaining(m.current(), t_pause, t_resume, d);
}

pub struct Session {
    in_break: bool,
    timer: Timer,
    break_timer: Timer,
    awaiting_countdown: bool,
    music_enabled: bool,
}

impl View for Session {
    type V = SessionModel;

    closed spec fn view(&self) -> SessionModel {
        SessionModel {
            in_break: self.in_break,
            work: self.timer@,
            rest: self.break_timer@,
            awaiting_countdown: self.awaiting_countdown,
            music_enabled: self.music_enabled,
        }
    }
}

impl Session {
    /// A work session, not started, with sessions of `work_secs` and breaks of
    /// `break_secs` seconds.
    pub fn new(work_secs: u64, break_secs: u64, music_enabled: bool) -> (s: Session)
        ensures
            !s@.in_break,
            s@.work.duration == work_secs && s@.work.idle(),
            s@.rest.duration == break_secs && s@.rest.idle(),
            !s@.awaiting_countdown,
            s@.music_enabled == music_enabled,
            s.clock_of(false) == 0 && s.clock_of(true) == 0,
    {
        Session {
            in_break: false,
            timer: Timer::new(work_secs),
            break_timer: Timer::new(break_secs),
            awaiting_countdown: false,
            music_enabled,
        }
    }

    /// The latest clock reading taken by the break timer (`in_break`) or by
    /// the work timer (see `Timer::clock`).
    pub closed spec fn clock_of(&self, in_break: bool) -> u128 {
        if in_break {
            self.break_timer.clock()
        } else {
            self.timer.clock()
        }
    }

    /// Whether the break session is the current one.
    pub fn in_break(&self) -> (r: bool)
        ensures
            r == self@.in_break,
    {
        self.in_break
    }

    /// The kind of the current session.
    pub fn mode(&self) -> (r: Mode)
        ensures
            r == self@.mode(),
    {
        if self.in_break {
            Mode::Break
        } else {
            Mode::Work
        }
    }

    /// The timer of the current session.
    pub fn current_timer(&self) -> (r: &Timer)
        ensures
            r@ == self@.current(),
    {
        if self.in_break {
            &self.break_timer
        } else {
            &self.timer
        }
    }

    /// The timer of the work session.
    pub fn work_timer(&self) -> (r: &Timer)
        ensures
            r@ == self@.work,
    {
        &self.timer
    }

    /// The timer of the break session.
    pub fn break_timer(&self) -> (r: &Timer)
        ensures
            r@ == self@.rest,
    {
        &self.break_timer
    }

    /// Whether the session waits for the countdown sound to end.
    pub fn awaiting_countdown(&self) -> (r: bool)
        ensures
            r == self@.awaiting_countdown,
    {
        self.awaiting_countdown
    }

    /// Whether the music plays with the sessions.
    pub fn music_enabled(&self) -> (r: bool)
        ensures
            r == self@.music_enabled,
    {
        self.music_enabled
    }


    /// The decision of a tick, given the time left on the current timer.
    pub fn tick_with(&mut self, remaining: u128, countdown_done: bool, countdown_configured: bool) -> (r: Vec<Effect>)
        ensures
            exists|t: u128|
                (final(self)@, r@) == #[trigger] old(self)@.tick_result(
                    remaining,
                    countdown_done,
                    countdown_configured,
                    t,
                ),
            final(self).clock_of(old(self)@.in_break) == old(self).clock_of(old(self)@.in_break),
            final(self).clock_of(!old(self)@.in_break) >= old(self).clock_of(!old(self)@.in_break),
            (final(self)@, r@) == old(self)@.tick_result(
                remaining,
                countdown_done,
                countdown_configured,
                final(self).clock_of(!old(self)@.in_break),
            ),
    {
        let ghost before = self@;
        if self.awaiting_countdown {
            if countdown_done {
                self.awaiting_countdown = false;
                let ghost mid = self@;
                let r = self.finish_session();
                proof {
                    let t = choose|t: u128| self@ == #[trigger] mid.switched(t);
                    assert((self@, r@) == before.tick_result(remaining, countdown_done, countdown_configured, t));
                }
                return r;
            }
            let r = Vec::new();
            assert((self@, r@) == before.tick_result(remaining, countdown_done, countdown_configured, 0));
            return r;
        }
        let running = if self.in_break { self.break_timer.is_running() } else { self.timer.is_running() };
        if remaining == 0 && running {
            if countdown_configured {
                let m = self.mode();
                let mut r: Vec<Effect> = Vec::new();
                r.push(Effect::PauseMusic(m));
                r.push(Effect::PlayCountdown);
                self.awaiting_countdown = true;
                assert((self@, r@) == before.tick_result(remaining, countdown_done, countdown_configured, 0));
                return r;
            }
            let r = self.finish_session();
            proof {
                let t = choose|t: u128| self@ == #[trigger] before.switched(t);
                assert((self@, r@) == before.tick_result(remaining, countdown_done, countdown_configured, t));
            }
            return r;
        }
        let r = Vec::new();
        assert((self@, r@) == before.tick_result(remaining, countdown_done, countdown_configured, 0));
        r
    }

    /// A tick of the clock: finishes the current session when its timer has
    /// run out, first playing the countdown sound if one is configured.
    pub fn tick(&mut self, countdown_done: bool, countdown_configured: bool) -> (r: Vec<Effect>)
        ensures
            exists|now: u128, t: u128|
                (final(self)@, r@) == #[trigger] old(self)@.tick_result(
                    old(self)@.current().remaining_at(now) as u128,
                    countdown_done,
                    countdown_configured,
                    t,
                ),
            final(self).clock_of(old(self)@.in_break) >= old(self).clock_of(old(self)@.in_break),
            final(self).clock_of(!old(self)@.in_break) >= old(self).clock_of(!old(self)@.in_break),
            (final(self)@, r@) == old(self)@.tick_result(
                old(self)@.current().remaining_at(final(self).clock_of(old(self)@.in_break)) as u128,
                countdown_done,
                countdown_configured,
                final(self).clock_of(!old(self)@.in_break),
            ),
    {
        let ghost before = self@;
        let now: u128 = if self.in_break {
            self.break_timer.read()
        } else {
            self.timer.read()
        };
        let remaining = if self.in_break { self.break_timer.remaining_at(now) } else { self.timer.remaining_at(now) };
        let r = self.tick_with(remaining, countdown_done, countdown_configured);
        proof {
            let t = choose|t: u128| (self@, r@) == #[trigger] before.tick_result(remaining, countdown_done, countdown_configured, t);
            assert(remaining == before.current().remaining_at(now) as u128);
            assert((self@, r@) == before.tick_result(
                before.current().remaining_at(now) as u128, countdown_done, countdown_configured, t));
        }
        r
    }

    /// Starts or resumes the current session.
    pub fn start(&mut self) -> (r: Vec<Effect>)
        ensures
            exists|t: u128| final(self)@ == #[trigger] old(self)@.with_current(old(self)@.current().started(t)),
            r@ == old(self)@.start_effects(),
            final(self).clock_of(old(self)@.in_break) >= old(self).clock_of(old(self)@.in_break),
            final(self).clock_of(!old(self)@.in_break) == old(self).clock_of(!old(self)@.in_break),
            final(self)@ == old(self)@.with_current(
                old(self)@.current().started(final(self).clock_of(old(self)@.in_break)),
            ),
    {
        let ghost before = self@;
        let mut r: Vec<Effect> = Vec::new();
        let fresh = if self.in_break { self.break_timer.is_idle() } else { self.timer.is_idle() };
        if fresh {
            r.push(Effect::ResetRing);
        }
        let t: u128;
        if self.in_break {
            t = self.break_timer.read();
            self.break_timer.start_at(t);
        } else {
            t = self.timer.read();
            self.timer.start_at(t);
        }
        if self.music_enabled {
            let m = self.mode();
            r.push(Effect::PlayMusic(m));
        }
        r.push(Effect::RefreshBackground);
        assert(self@ == before.with_current(before.current().started(t)));
        assert(r@ == before.start_effects());
        r
    }

    /// Pauses the current session.
    pub fn pause(&mut self) -> (r: Vec<Effect>)
        ensures
            exists|t: u128| final(self)@ == #[trigger] old(self)@.with_current(old(self)@.current().paused(t)),
            r@ == seq![Effect::PauseMusic(old(self)@.mode())],
            final(self).clock_of(old(self)@.in_break) >= old(self).clock_of(old(self)@.in_break),
            final(self).clock_of(!old(self)@.in_break) == old(self).clock_of(!old(self)@.in_break),
            final(self)@ == old(self)@.with_current(
                old(self)@.current().paused(final(self).clock_of(old(self)@.in_break)),
            ),
    {
        let ghost before = self@;
        let t: u128;
        if self.in_break {
            t = self.break_timer.read();
            self.break_timer.pause_at(t);
        } else {
            t = self.timer.read();
            self.timer.pause_at(t);
        }
        let mut r: Vec<Effect> = Vec::new();
        let m = self.mode();
        r.push(Effect::PauseMusic(m));
        assert(self@ == before.with_current(before.current().paused(t)));
        r
    }

    /// Stops everything and goes back to a work session that has not started.
    pub fn reset(&mut self) -> (r: Vec<Effect>)
        ensures
            exists|t1: u128, t2: u128| final(self)@ == #[trigger] old(self)@.reset_state(t1, t2),
            r@ == old(self)@.reset_effects(),
            final(self).clock_of(false) >= old(self).clock_of(false),
            final(self).clock_of(true) >= old(self).clock_of(true),
            final(self)@ == old(self)@.reset_state(final(self).clock_of(false), final(self).clock_of(true)),
    {
        let mut r: Vec<Effect> = Vec::new();
        r.push(Effect::ResetRing);
        self.awaiting_countdown = false;
        r.push(Effect::StopCountdown);
        let t1 = self.timer.read();
        self.timer.reset_at(t1);
        let t2 = self.break_timer.read();
        self.break_timer.reset_at(t2);
        self.in_break = false;
        assert(self@ == old(self)@.reset_state(t1, t2));
        r.push(Effect::StopMusic(Mode::Work));
        r.push(Effect::StopMusic(Mode::Break));
        r.push(Effect::ClearBackground);
        r
    }

    /// Moves the current session's music to the previous track.
    pub fn previous_track(&self) -> (r: Vec<Effect>)
        ensures
            r@ == seq![Effect::PreviousTrack(self@.mode()), Effect::RefreshBackground],
    {
        let mut r: Vec<Effect> = Vec::new();
        r.push(Effect::PreviousTrack(self.mode()));
        r.push(Effect::RefreshBackground);
        r
    }

    /// Moves the current session's music to the next track.
    pub fn next_track(&self) -> (r: Vec<Effect>)
        ensures
            r@ == seq![Effect::NextTrack(self@.mode()), Effect::RefreshBackground],
    {
        let mut r: Vec<Effect> = Vec::new();
        r.push(Effect::NextTrack(self.mode()));
        r.push(Effect::RefreshBackground);
        r
    }

    /// Takes new session lengths and the music setting: both timers are
    /// replaced by stopped ones and the work session becomes current. A
    /// countdown in progress carries on.
    pub fn reconfigure(&mut self, work_secs: u64, break_secs: u64, music_enabled: bool)
        ensures
            !final(self)@.in_break,
            final(self)@.work.duration == work_secs && final(self)@.work.idle(),
            final(self)@.rest.duration == break_secs && final(self)@.rest.idle(),
            final(self)@.awaiting_countdown == old(self)@.awaiting_countdown,
            final(self)@.music_enabled == music_enabled,
            final(self).clock_of(false) == 0 && final(self).clock_of(true) == 0,
    {
        self.timer = Timer::new(work_secs);
        self.break_timer = Timer::new(break_secs);
        self.in_break = false;
        self.music_enabled = music_enabled;
    }

    /// Switches to the other kind of session and starts its timer afresh.
    fn switch_session(&mut self, effects: &mut Vec<Effect>)
        ensures
            exists|t: u128| final(self)@ == #[trigger] old(self)@.switched(t),
            final(effects)@ == old(effects)@ + old(self)@.switch_effects(),
            final(self).clock_of(old(self)@.in_break) == old(self).clock_of(old(self)@.in_break),
            final(self).clock_of(!old(self)@.in_break) >= old(self).clock_of(!old(self)@.in_break),
            final(self)@ == old(self)@.switched(final(self).clock_of(!old(self)@.in_break)),
    {
        let ghost before = self@;
        effects.push(Effect::ResetRing);
        effects.push(Effect::ClearBackground);
        let t: u128;
        if self.in_break {
            effects.push(Effect::StopMusic(Mode::Break));
            self.timer.reset();
            t = self.timer.read();
            self.timer.start_at(t);
            self.in_break = false;
        } else {
            effects.push(Effect::StopMusic(Mode::Work));
            self.break_timer.reset();
            t = self.break_timer.read();
            self.break_timer.start_at(t);
            self.in_break = true;
        }
        if self.music_enabled {
            let m = self.mode();
            effects.push(Effect::PlayMusic(m));
        }
        effects.push(Effect::RefreshBackground);
        assert(self@ == before.switched(t));
        assert(effects@ == old(effects)@ + before.switch_effects());
    }

    /// Ends the current session: switches to the other kind and rings the
    /// bell.
    pub fn finish_session(&mut self) -> (r: Vec<Effect>)
        ensures
            exists|t: u128| final(self)@ == #[trigger] old(self)@.switched(t),
            r@ == old(self)@.finish_effects(),
            final(self).clock_of(old(self)@.in_break) == old(self).clock_of(old(self)@.in_break),
            final(self).clock_of(!old(self)@.in_break) >= old(self).clock_of(!old(self)@.in_break),
            final(self)@ == old(self)@.switched(final(self).clock_of(!old(self)@.in_break)),
    {
        let mut effects: Vec<Effect> = Vec::new();
        self.switch_session(&mut effects);
        effects.push(Effect::PlayBell);
        effects
    }

    /// Skips the rest of the current session.
    pub fn skip(&mut self) -> (r: Vec<Effect>)
        ensures
            exists|t: u128| final(self)@ == #[trigger] old(self)@.switched(t),
            r@ == old(self)@.finish_effects(),
            final(self).clock_of(old(self)@.in_break) == old(self).clock_of(old(self)@.in_break),
            final(self).clock_of(!old(self)@.in_break) >= old(self).clock_of(!old(self)@.in_break),
            final(self)@ == old(self)@.switched(final(self).clock_of(!old(self)@.in_break)),
    {
        self.finish_session()
    }
}

} // verus!
