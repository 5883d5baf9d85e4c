use pomodoro_timer::display::{
    format_clock, mode_label, sorted_unique_names, title, track_label, track_label_of,
};
use pomodoro_timer::playlist::MusicPlayer;
use pomodoro_timer::thumbnails::{Backdrop, Thumbnails};
use pomodoro_timer::timer::NANOS_PER_SEC;

#[test]
fn clock_shows_minutes_and_seconds() {
    assert_eq!(format_clock(1500 * NANOS_PER_SEC), "25:00");
    assert_eq!(format_clock(0), "00:00");
    assert_eq!(format_clock(59 * NANOS_PER_SEC + 999_999_999), "00:59");
    assert_eq!(format_clock(61 * NANOS_PER_SEC), "01:01");
    assert_eq!(format_clock(6000 * 60 * NANOS_PER_SEC + 5 * NANOS_PER_SEC), "6000:05");
    let secs = u64::MAX;
    assert_eq!(format_clock(u128::MAX), format!("{:02}:{:02}", secs / 60, secs % 60));
}

#[test]
fn labels() {
    assert_eq!(mode_label(true), "Break");
    assert_eq!(mode_label(false), "Focus");
    assert_eq!(title(), "Pomodoro Timer");
}

#[test]
fn track_labels() {
    assert_eq!(track_label(false, None, true), "\u{266a} ON");
    assert_eq!(track_label(false, Some("x"), false), "\u{266a} OFF");
    assert_eq!(track_label(true, None, false), "\u{266a} \u{2014}");
    assert_eq!(track_label(true, Some("Song"), false), "\u{266a} Song");
    let exact = "abcdefghijklmnopqrstuvwx";
    assert_eq!(track_label(true, Some(exact), true), format!("\u{266a} {exact}"));
    let long = "abcdefghijklmnopqrstuvwxyz";
    assert_eq!(track_label(true, Some(long), true), "\u{266a} abcdefghijklmnopqrstuvwx\u{2026}");
    let accented = "\u{e9}aaaaaaaaaaaaaaaaaaaaaaa";
    assert_eq!(accented.chars().count(), 24);
    assert_eq!(track_label(true, Some(accented), true), format!("\u{266a} {accented}"));
    let long_accented = "\u{e9}\u{e9}\u{e9}\u{e9}\u{e9}\u{e9}\u{e9}\u{e9}\u{e9}\u{e9}\u{e9}\u{e9}\u{e9}\u{e9}\u{e9}\u{e9}\u{e9}\u{e9}\u{e9}\u{e9}\u{e9}\u{e9}\u{e9}\u{e9}\u{e9}";
    let first24: String = long_accented.chars().take(24).collect();
    assert_eq!(track_label(true, Some(long_accented), true), format!("\u{266a} {first24}\u{2026}"));
    let odd = "a\u{e9}\u{e9}\u{e9}\u{e9}\u{e9}\u{e9}\u{e9}\u{e9}\u{e9}\u{e9}\u{e9}\u{e9}";
    assert_eq!(track_label(true, Some(odd), true), format!("\u{266a} {odd}"));
}

#[test]
fn track_labels_from_paths() {
    assert_eq!(track_label_of(Some("m/Song.mp3"), true), "\u{266a} Song");
    assert_eq!(track_label_of(Some("m/a.b.flac"), false), "\u{266a} a.b");
    assert_eq!(track_label_of(Some("m/.hidden"), true), "\u{266a} .hidden");
    assert_eq!(track_label_of(Some("noext"), true), "\u{266a} noext");
    assert_eq!(
        track_label_of(Some("m/abcdefghijklmnopqrstuvwxyz.mp3"), true),
        "\u{266a} abcdefghijklmnopqrstuvwx\u{2026}"
    );
    assert_eq!(track_label_of(None, true), "\u{266a} ON");
    assert_eq!(track_label_of(None, false), "\u{266a} OFF");
}

#[test]
fn font_names_sorted_and_unique() {
    let names: Vec<String> = ["Noto Sans", "DejaVu Serif", "Noto Sans", "Arial", "DejaVu Serif"]
        .iter()
        .map(|s| s.to_string())
        .collect();
    let r = sorted_unique_names(&names);
    assert_eq!(r, vec!["Arial".to_string(), "DejaVu Serif".to_string(), "Noto Sans".to_string()]);
    let expected: Vec<String> = names.iter().cloned().collect::<std::collections::BTreeSet<_>>().into_iter().collect();
    assert_eq!(r, expected);
}

#[test]
fn thumbnail_plans() {
    let mut player = MusicPlayer::new();
    player.load_dir(vec!["m/a.mp3".to_string(), "m/b.mp3".to_string(), "m/c.mp4".to_string()]);
    let mut t = Thumbnails::new();
    let plan = t.plan(&player);
    assert_eq!(plan.backdrop, Backdrop::Keep);
    assert_eq!(plan.decode, vec!["m/a.mp3".to_string(), "m/b.mp3".to_string()]);
    assert!(t.is_pending("m/a.mp3") && t.is_pending("m/b.mp3"));
    // A second plan while decoding changes nothing.
    let again = t.plan(&player);
    assert_eq!(again.backdrop, Backdrop::Keep);
    assert!(again.decode.is_empty());
    assert!(t.received("m/a.mp3".to_string(), Some("m/a.mp3".to_string())));
    assert!(!t.received("m/b.mp3".to_string(), Some("m/a.mp3".to_string())));
    assert!(t.is_cached("m/a.mp3") && !t.is_pending("m/a.mp3"));
    let cached = t.plan(&player);
    assert_eq!(cached.backdrop, Backdrop::ShowCached("m/a.mp3".to_string()));
    assert!(cached.decode.is_empty());
    // The next track is a video: its picture is not decoded ahead.
    player.next_track(None);
    let plan = t.plan(&player);
    assert_eq!(plan.backdrop, Backdrop::ShowCached("m/b.mp3".to_string()));
    assert!(plan.decode.is_empty());
    player.next_track(None);
    let video = t.plan(&player);
    assert_eq!(video.backdrop, Backdrop::Clear);
    t.clear();
    assert!(!t.is_cached("m/a.mp3"));
}

#[test]
fn thumbnail_plan_without_tracks_clears() {
    let player = MusicPlayer::new();
    let mut t = Thumbnails::new();
    let plan = t.plan(&player);
    assert_eq!(plan.backdrop, Backdrop::Clear);
    assert!(plan.decode.is_empty());
}
