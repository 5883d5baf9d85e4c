//! The compact timer window: a work timer and a break timer with start,
//! pause and reset buttons, switching sessions when the shown timer runs
//! out. Its music players hold the playlists of the work, break and sound
//! effect folders.

use vstd::prelude::*;
use crate::playlist::MusicPlayer;
use crate::session::{fresh_run, Effect, Mode};
use crate::timer::{Timer, TimerModel};

verus! {

/// Length of a work session in the window, in seconds.
pub const WORK_TIME: u64 = 25 * 60;

/// Length of a break in the window, in seconds.
pub const BREAK_TIME: u64 = 5 * 60;

pub struct Window {
    in_break: bool,
    timer: Timer,
    break_timer: Timer,
    main_music: MusicPlayer,
    break_music: MusicPlayer,
    fx_music: MusicPlayer,
}

/// The state of the window's timers.
pub ghost struct WindowModel {
    pub in_break: bool,
    pub work: TimerModel,
    pub rest: TimerModel,
}

impl WindowModel {
    /// The work timer runs for `WORK_TIME` and the break timer for
    /// `BREAK_TIME`: so it is in a new window, and every button and every
    /// roll-over keeps it.
    pub open spec fn lengths_fixed(self) -> bool {
        self.work.duration == WORK_TIME && self.rest.duration == BREAK_TIME
    }

    /// Both timers run for as long in `other` as in `self`.
    pub open spec fn same_lengths(self, other: WindowModel) -> bool {
        self.work.duration == other.work.duration && self.rest.duration == other.rest.duration
    }

    /// The state after the shown timer ran out: the other kind of session
    /// begins, its timer started afresh at clock reading `t`.
    pub open spec fn rolled_over(self, t: u128) -> WindowModel {
        if self.in_break {
            WindowModel { in_break: false, work: fresh_run(self.work, t), ..self }
        } else {
            WindowModel { in_break: true, rest: fresh_run(self.rest, t), ..self }
        }
    }

    /// The timer shown when the window was in a break (`in_break`) or not.
    pub open spec fn shown(self, in_break: bool) -> TimerModel {
        if in_break {
            self.rest
        } else {
            self.work
        }
    }

    /// What a roll-over asks of the application: pause the music of the
    /// session that ended, play that of the one that begins.
    pub open spec fn rollover_effects(self) -> Seq<Effect> {
        if self.in_break {
            seq![Effect::PauseMusic(Mode::Break), Effect::PlayMusic(Mode::Work)]
        } else {
            seq![Effect::PauseMusic(Mode::Work), Effect::PlayMusic(Mode::Break)]
        }
    }
}

/// The outcome of the end of a frame, when the timer shown at its start had
/// `remaining` nanoseconds left.
pub open spec fn rolled_as(before: WindowModel, after: WindowModel, effects: Seq<Effect>, remaining: int) -> bool {
    &&& remaining != 0 ==> after == before && effects.len() == 0
    &&& remaining == 0 ==> exists|t: u128| after == #[trigger] before.rolled_over(t)
    &&& remaining == 0 ==> effects == before.rollover_effects()
}

impl View for Window {
    type V = WindowModel;

    closed spec fn view(&self) -> WindowModel {
        WindowModel { in_break: self.in_break, work: self.timer@, rest: self.break_timer@ }
    }
}

impl Window {
    /// A window in a work session, both timers stopped, with empty players.
    pub fn new() -> (w: Window)
        ensures
            !w@.in_break,
            w@.lengths_fixed(),
            w@.work.duration == WORK_TIME && w@.work.idle(),
            w@.rest.duration == BREAK_TIME && w@.rest.idle(),
            w.main_player()@.files.len() == 0,
            w.break_player()@.files.len() == 0,
            w.fx_player()@.files.len() == 0,
    {
        Window {
            in_break: false,
            timer: Timer::new(WORK_TIME),
            break_timer: Timer::new(BREAK_TIME),
            main_music: MusicPlayer::new(),
            break_music: MusicPlayer::new(),
            fx_music: MusicPlayer::new(),
        }
    }

    /// The players of the work, break and effects folders.
    pub closed spec fn main_player(&self) -> MusicPlayer {
        self.main_music
    }

    pub closed spec fn break_player(&self) -> MusicPlayer {
        self.break_music
    }

    pub closed spec fn fx_player(&self) -> MusicPlayer {
        self.fx_music
    }

    /// The latest clock reading taken by the break timer (`in_break`) or by
    /// the work timer (see `Timer::clock`).
    pub closed spec fn clock_of(&self, in_break: bool) -> u128 {
        if in_break {
            self.break_timer.clock()
        } else {
            self.timer.clock()
        }
    }

    /// The three players are those of `other`.
    pub open spec fn keeps_players(&self, other: Window) -> bool {
        &&& self.main_player() == other.main_player()
        &&& self.break_player() == other.break_player()
        &&& self.fx_player() == other.fx_player()
    }

    /// Takes the files of the work, break and effects folders as playlists.
    pub fn load_music(&mut self, main: Vec<String>, brk: Vec<String>, fx: Vec<String>)
        ensures
            final(self)@.same_lengths(old(self)@),
            final(self)@ == old(self)@,
            final(self).main_player()@.files.to_multiset() == crate::playlist::views(main@).to_multiset(),
            final(self).break_player()@.files.to_multiset() == crate::playlist::views(brk@).to_multiset(),
            final(self).fx_player()@.files.to_multiset() == crate::playlist::views(fx@).to_multiset(),
    {
        self.main_music.load_dir(main);
        self.break_music.load_dir(brk);
        self.fx_music.load_dir(fx);
    }

    pub fn in_break(&self) -> (r: bool)
        ensures
            r == self@.in_break,
    {
        self.in_break
    }

    /// The timer shown: the break timer during a break.
    pub fn current_timer(&self) -> (r: &Timer)
        ensures
            r@ == (if self@.in_break { self@.rest } else { self@.work }),
    {
        if self.in_break {
            &self.break_timer
        } else {
            &self.timer
        }
    }

    /// The "Start" button: starts the shown timer and its music.
    pub fn start(&mut self) -> (r: Vec<Effect>)
        ensures
            final(self).keeps_players(*old(self)),
            final(self)@.same_lengths(old(self)@),
            final(self)@.in_break == old(self)@.in_break,
            old(self)@.in_break ==> final(self)@.work == old(self)@.work
                && exists|t: u128| final(self)@.rest == #[trigger] old(self)@.rest.started(t),
            !old(self)@.in_break ==> final(self)@.rest == old(self)@.rest
                && exists|t: u128| final(self)@.work == #[trigger] old(self)@.work.started(t),
            r@ == seq![Effect::PlayMusic(if old(self)@.in_break { Mode::Break } else { Mode::Work })],
            final(self).clock_of(old(self)@.in_break) >= old(self).clock_of(old(self)@.in_break),
            old(self)@.in_break ==> final(self)@.rest == old(self)@.rest.started(final(self).clock_of(true)),
            !old(self)@.in_break ==> final(self)@.work == old(self)@.work.started(final(self).clock_of(false)),
    {
        let mut r: Vec<Effect> = Vec::new();
        if self.in_break {
            self.break_timer.start();
            r.push(Effect::PlayMusic(Mode::Break));
        } else {
            self.timer.start();
            r.push(Effect::PlayMusic(Mode::Work));
        }
        r
    }

    /// The "Pause" button: pauses the shown timer and its music.
    pub fn pause(&mut self) -> (r: Vec<Effect>)
        ensures
            final(self).keeps_players(*old(self)),
            final(self)@.same_lengths(old(self)@),
            final(self)@.in_break == old(self)@.in_break,
            old(self)@.in_break ==> final(self)@.work == old(self)@.work
                && exists|t: u128| final(self)@.rest == #[trigger] old(self)@.rest.paused(t),
            !old(self)@.in_break ==> final(self)@.rest == old(self)@.rest
                && exists|t: u128| final(self)@.work == #[trigger] old(self)@.work.paused(t),
            r@ == seq![Effect::PauseMusic(if old(self)@.in_break { Mode::Break } else { Mode::Work })],
            final(self).clock_of(old(self)@.in_break) >= old(self).clock_of(old(self)@.in_break),
            old(self)@.in_break ==> final(self)@.rest == old(self)@.rest.paused(final(self).clock_of(true)),
            !old(self)@.in_break ==> final(self)@.work == old(self)@.work.paused(final(self).clock_of(false)),
    {
        let mut r: Vec<Effect> = Vec::new();
        if self.in_break {
            self.break_timer.pause();
            r.push(Effect::PauseMusic(Mode::Break));
        } else {
            self.timer.pause();
            r.push(Effect::PauseMusic(Mode::Work));
        }
        r
    }

    /// The "Reset" button: rewinds both timers, goes back to work and stops
    /// both players.
    pub fn reset(&mut self) -> (r: Vec<Effect>)
        ensures
            final(self).keeps_players(*old(self)),
            final(self)@.same_lengths(old(self)@),
            !final(self)@.in_break,
            exists|t: u128| final(self)@.work == #[trigger] old(self)@.work.reset(t),
            exists|t: u128| final(self)@.rest == #[trigger] old(self)@.rest.reset(t),
            r@ == seq![Effect::StopMusic(Mode::Break), Effect::StopMusic(Mode::Work)],
            final(self).clock_of(false) >= old(self).clock_of(false),
            final(self).clock_of(true) >= old(self).clock_of(true),
            final(self)@.work == old(self)@.work.reset(final(self).clock_of(false)),
            final(self)@.rest == old(self)@.rest.reset(final(self).clock_of(true)),
    {
        self.timer.reset();
        self.break_timer.reset();
        self.in_break = false;
        let mut r: Vec<Effect> = Vec::new();
        r.push(Effect::StopMusic(Mode::Break));
        r.push(Effect::StopMusic(Mode::Work));
        r
    }

    /// The end of a frame: when the timer that was shown at its start
    /// (`remaining` nanoseconds left on it) has run out, the other kind of
    /// session begins.
    pub fn roll_over_with(&mut self, remaining: u128) -> (r: Vec<Effect>)
        ensures
            final(self).keeps_players(*old(self)),
            final(self)@.same_lengths(old(self)@),
            remaining != 0 ==> final(self)@ == old(self)@ && r@.len() == 0,
            remaining == 0 ==> exists|t: u128| final(self)@ == #[trigger] old(self)@.rolled_over(t),
            remaining == 0 ==> r@ == old(self)@.rollover_effects(),
            remaining == 0 ==> final(self)@ == old(self)@.rolled_over(final(self).clock_of(!old(self)@.in_break)),
            final(self).clock_of(old(self)@.in_break) == old(self).clock_of(old(self)@.in_break),
            final(self).clock_of(!old(self)@.in_break) >= old(self).clock_of(!old(self)@.in_break),
    {
        let mut r: Vec<Effect> = Vec::new();
        if remaining != 0 {
            return r;
        }
        let ghost before = self@;
        let t: u128;
        if self.in_break {
            r.push(Effect::PauseMusic(Mode::Break));
            self.timer.reset();
            r.push(Effect::PlayMusic(Mode::Work));
            t = self.timer.read();
            self.timer.start_at(t);
        } else {
            r.push(Effect::PauseMusic(Mode::Work));
            self.break_timer.reset();
            r.push(Effect::PlayMusic(Mode::Break));
            t = self.break_timer.read();
            self.break_timer.start_at(t);
        }
        self.in_break = !self.in_break;
        assert(self@ == before.rolled_over(t));
        r
    }

    /// The end of a frame whose shown timer was the break timer when
    /// `frame_in_break` holds.
    pub fn roll_over(&mut self, frame_in_break: bool) -> (r: Vec<Effect>)
        ensures
            final(self).keeps_players(*old(self)),
            final(self)@.same_lengths(old(self)@),
            exists|now: u128| #[trigger] rolled_as(
                old(self)@,
                final(self)@,
                r@,
                old(self)@.shown(frame_in_break).remaining_at(now),
            ),
            final(self).clock_of(frame_in_break) >= old(self).clock_of(frame_in_break),
            final(self).clock_of(!frame_in_break) >= old(self).clock_of(!frame_in_break),
            exists|now: u128|
                now >= old(self).clock_of(frame_in_break) && #[trigger] rolled_as(
                    old(self)@,
                    final(self)@,
                    r@,
                    old(self)@.shown(frame_in_break).remaining_at(now),
                ),
            r@.len() > 0 ==> final(self)@ == old(self)@.rolled_over(final(self).clock_of(!old(self)@.in_break)),
    {
        let ghost before = self@;
        let now = if frame_in_break { self.break_timer.read() } else { self.timer.read() };
        let remaining = if frame_in_break {
            self.break_timer.remaining_at(now)
        } else {
            self.timer.remaining_at(now)
        };
        let r = self.roll_over_with(remaining);
        assert(rolled_as(before, self@, r@, before.shown(frame_in_break).remaining_at(now)));
        r
    }
}

/// The window alternates work and break: each roll-over changes the kind of
/// session, and starts the new one's timer.
pub proof fn lemma_window_alternates(m: WindowModel, t1: u128, t2: u128)
    ensures
        m.rolled_over(t1).in_break == !m.in_break,
        m.rolled_over(t1).rolled_over(t2).in_break == m.in_break,
        m.rolled_over(t1).in_break ==> m.rolled_over(t1).rest.running,
        !m.rolled_over(t1).in_break ==> m.rolled_over(t1).work.running,
{
}

/// A roll-over keeps the lengths of both sessions: the session that begins
/// runs for its own full length.
pub proof fn lemma_roll_over_keeps_lengths(m: WindowModel, t: u128)
    requires
        m.lengths_fixed(),
    ensures
        m.rolled_over(t).lengths_fixed(),
        m.rolled_over(t).in_break ==> m.rolled_over(t).rest.total_nanos() == BREAK_TIME * 1_000_000_000,
        !m.rolled_over(t).in_break ==> m.rolled_over(t).work.total_nanos() == WORK_TIME * 1_000_000_000,
{
}

/// A frame at whose end the shown timer, running, has had its whole length
/// elapsed rolls the window over: the other kind of session begins and its
/// music is asked for.
pub proof fn lemma_run_out_rolls_over(
    before: WindowModel,
    after: WindowModel,
    effects: Seq<Effect>,
    frame_in_break: bool,
    now: u128,
)
    requires
        before.shown(frame_in_break).running,
        now >= before.shown(frame_in_break).start + before.shown(frame_in_break).total_nanos(),
        rolled_as(before, after, effects, before.shown(frame_in_break).remaining_at(now)),
    ensures
        after.in_break != before.in_break,
        effects == before.rollover_effects(),
{
    crate::timer::lemma_runs_out(before.shown(frame_in_break), now);
}

} // verus!
