use pomodoro_timer::playlist::MusicPlayer;
use pomodoro_timer::session::{Effect, Mode, Session};
use pomodoro_timer::timer::NANOS_PER_SEC;

use Effect::{ClearBackground, NextTrack, PauseMusic, PlayBell, PlayCountdown, PlayMusic, PreviousTrack, RefreshBackground, ResetRing, StopCountdown, StopMusic};

#[test]
fn new_session_is_an_idle_work_session() {
    let s = Session::new(1500, 300, true);
    assert!(!s.in_break());
    assert_eq!(s.mode(), Mode::Work);
    assert!(s.current_timer().is_idle());
    assert_eq!(s.work_timer().total_time(), 1500);
    assert_eq!(s.break_timer().total_time(), 300);
    assert!(!s.awaiting_countdown());
    assert!(s.music_enabled());
}

#[test]
fn start_from_idle_resets_the_ring_and_plays() {
    let mut s = Session::new(1500, 300, true);
    assert_eq!(s.start(), vec![ResetRing, PlayMusic(Mode::Work), RefreshBackground]);
    assert!(s.current_timer().is_running());
    assert_eq!(s.pause(), vec![PauseMusic(Mode::Work)]);
    assert!(!s.current_timer().is_running());
    // Resuming keeps the ring where it is.
    assert_eq!(s.start(), vec![PlayMusic(Mode::Work), RefreshBackground]);
}

#[test]
fn start_without_music() {
    let mut s = Session::new(1500, 300, false);
    assert_eq!(s.start(), vec![ResetRing, RefreshBackground]);
}

#[test]
fn tick_with_time_left_does_nothing() {
    let mut s = Session::new(1500, 300, true);
    s.start();
    assert_eq!(s.tick_with(5 * NANOS_PER_SEC, false, false), vec![]);
    assert!(!s.in_break());
    assert_eq!(s.tick(false, true), vec![]);
}

#[test]
fn idle_timer_at_zero_does_not_finish() {
    let mut s = Session::new(0, 300, true);
    assert_eq!(s.tick_with(0, false, false), vec![]);
    assert!(!s.in_break());
}

#[test]
fn time_up_without_countdown_switches_and_rings() {
    let mut s = Session::new(1500, 300, true);
    s.start();
    let fx = s.tick_with(0, false, false);
    assert_eq!(
        fx,
        vec![ResetRing, ClearBackground, StopMusic(Mode::Work), PlayMusic(Mode::Break), RefreshBackground, PlayBell]
    );
    assert!(s.in_break());
    assert!(s.current_timer().is_running());
    assert_eq!(s.current_timer().total_time(), 300);
}

#[test]
fn time_up_with_countdown_waits_for_it() {
    let mut s = Session::new(1500, 300, false);
    s.start();
    assert_eq!(s.tick_with(0, false, true), vec![PauseMusic(Mode::Work), PlayCountdown]);
    assert!(s.awaiting_countdown());
    assert!(!s.in_break());
    assert_eq!(s.tick_with(0, false, true), vec![]);
    assert_eq!(s.tick(false, true), vec![]);
    let fx = s.tick(true, true);
    assert_eq!(fx, vec![ResetRing, ClearBackground, StopMusic(Mode::Work), RefreshBackground, PlayBell]);
    assert!(!s.awaiting_countdown());
    assert!(s.in_break());
}

#[test]
fn two_skips_come_back_to_work() {
    let mut s = Session::new(1500, 300, true);
    let fx = s.skip();
    assert_eq!(fx.last(), Some(&PlayBell));
    assert!(s.in_break());
    assert!(s.break_timer().is_running());
    assert!(s.work_timer().is_idle());
    let fx = s.skip();
    assert_eq!(
        fx,
        vec![ResetRing, ClearBackground, StopMusic(Mode::Break), PlayMusic(Mode::Work), RefreshBackground, PlayBell]
    );
    assert!(!s.in_break());
    assert!(s.work_timer().is_running());
}

#[test]
fn reset_returns_to_an_idle_work_session() {
    let mut s = Session::new(1500, 300, true);
    s.start();
    s.skip();
    s.tick_with(0, false, true);
    assert!(s.awaiting_countdown());
    let fx = s.reset();
    assert_eq!(fx, vec![ResetRing, StopCountdown, StopMusic(Mode::Work), StopMusic(Mode::Break), ClearBackground]);
    assert!(!s.in_break());
    assert!(!s.awaiting_countdown());
    assert!(s.work_timer().is_idle());
    assert!(s.break_timer().is_idle());
    assert_eq!(s.current_timer().check_time(), 1500 * NANOS_PER_SEC);
}

#[test]
fn track_moves_name_the_current_session() {
    let mut s = Session::new(1500, 300, true);
    assert_eq!(s.next_track(), vec![NextTrack(Mode::Work), RefreshBackground]);
    s.skip();
    assert_eq!(s.previous_track(), vec![PreviousTrack(Mode::Break), RefreshBackground]);
}

#[test]
fn reconfigure_replaces_timers() {
    let mut s = Session::new(1500, 300, true);
    s.skip();
    s.reconfigure(600, 120, false);
    assert!(!s.in_break());
    assert!(!s.music_enabled());
    assert_eq!(s.work_timer().total_time(), 600);
    assert_eq!(s.break_timer().total_time(), 120);
    assert!(s.work_timer().is_idle() && s.break_timer().is_idle());
}

#[test]
fn shuffled_next_track_with_a_given_draw() {
    let mut p = MusicPlayer::new();
    p.load_dir(vec!["a.mp3".to_string(), "b.mp3".to_string(), "c.mp3".to_string()]);
    p.set_shuffle(true);
    p.next_track_with(None, 0);
    assert_eq!(p.current_index(), 1);
    p.next_track_with(None, 2);
    assert_eq!(p.current_index(), 2);
}
