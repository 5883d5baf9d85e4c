use pomodoro_timer::media::{is_video_extension, is_video_path};
use pomodoro_timer::playlist::{sort_paths, MusicPlayer, PlayPlan, TrackChange};

fn paths(v: &[&str]) -> Vec<String> {
    v.iter().map(|s| s.to_string()).collect()
}

#[test]
fn video_extensions() {
    assert!(is_video_path("/home/u/.timer/music/main/clip.mp4"));
    assert!(is_video_path("clip.MKV"));
    assert!(is_video_path("a.b.c.M2ts"));
    assert!(!is_video_path("song.mp3"));
    assert!(!is_video_path("noext"));
    assert!(!is_video_path(".mp4"));
    assert!(is_video_path("dir.mp4/"));
    assert!(!is_video_path("clip.mp4.txt"));
    assert!(is_video_path("a/clip.MP4"));
    assert!(is_video_path("x.m2ts"));
    assert!(is_video_path("v.WebM"));
    assert!(!is_video_path("mp4"));
    assert!(!is_video_path(".mkv"));
    assert!(!is_video_path("dir/.mkv"));
    assert!(is_video_path("..mkv"));
    assert!(is_video_extension("WEBM"));
    assert!(is_video_extension("ts"));
    assert!(!is_video_extension("tsx"));
    assert!(!is_video_extension(""));
}

#[test]
fn sorting_orders_by_bytes() {
    let v = paths(&["d/b.mp3", "d/a.mp3", "d/B.mp3", "d/a b.mp3", "d/a.mp3"]);
    let s = sort_paths(&v);
    let mut expected = v.clone();
    expected.sort();
    assert_eq!(s, expected);
}

fn loaded(v: &[&str]) -> MusicPlayer {
    let mut p = MusicPlayer::new();
    p.load_dir(paths(v));
    p
}

#[test]
fn empty_player() {
    let mut p = MusicPlayer::new();
    assert!(p.is_empty());
    assert!(!p.is_playing());
    assert!(!p.shuffle());
    assert_eq!(p.current_file_path(), None);
    assert_eq!(p.next_file_path(), None);
    assert!(!p.current_file_is_video());
    assert_eq!(p.play_plan(false), PlayPlan::Skip);
    assert_eq!(p.next_track(None), TrackChange::Unchanged);
    assert_eq!(p.prev_track(None), TrackChange::Unchanged);
}

#[test]
fn cursor_walks_the_sorted_list() {
    let mut p = loaded(&["m/c.mp3", "m/a.mp3", "m/b.mp3"]);
    assert_eq!(p.current_file_path().as_deref(), Some("m/a.mp3"));
    assert_eq!(p.next_file_path().as_deref(), Some("m/b.mp3"));
    assert_eq!(p.next_track(None), TrackChange::Changed { replay: false });
    assert_eq!(p.current_file_path().as_deref(), Some("m/b.mp3"));
    p.next_track(None);
    assert_eq!(p.current_index(), 2);
    assert_eq!(p.next_file_path().as_deref(), Some("m/a.mp3"));
    p.next_track(None);
    assert_eq!(p.current_index(), 0);
    p.prev_track(None);
    assert_eq!(p.current_index(), 2);
    p.next_track(None);
    assert_eq!(p.current_index(), 0);
}

#[test]
fn single_track_has_no_next_path() {
    let mut p = loaded(&["m/only.mp3"]);
    assert_eq!(p.next_file_path(), None);
    p.next_track(None);
    assert_eq!(p.current_index(), 0);
}

#[test]
fn play_plan_opens_then_resumes() {
    let mut p = loaded(&["m/a.mp3", "m/b.mp3"]);
    assert_eq!(p.play_plan(false), PlayPlan::Open { path: "m/a.mp3".to_string(), seek_to: None });
    p.opened(Some(180_000_000_000));
    assert!(p.is_playing());
    assert_eq!(p.track_duration(), Some(180_000_000_000));
    assert_eq!(p.play_plan(true), PlayPlan::Resume);
    p.pause(Some(42));
    assert!(!p.is_playing());
    p.resumed();
    assert!(p.is_playing());
}

#[test]
fn zero_duration_counts_as_unknown() {
    let mut p = loaded(&["m/a.mp3"]);
    p.opened(Some(0));
    assert_eq!(p.track_duration(), None);
}

#[test]
fn stopped_track_resumes_from_its_position() {
    let mut p = loaded(&["m/a.mp3", "m/b.mp3"]);
    p.opened(None);
    p.stop(Some(7_000));
    assert!(!p.is_playing());
    assert_eq!(p.track_duration(), None);
    assert_eq!(p.play_plan(false), PlayPlan::Open { path: "m/a.mp3".to_string(), seek_to: Some(7_000) });
    p.pause(Some(9_000));
    assert_eq!(p.play_plan(false), PlayPlan::Open { path: "m/a.mp3".to_string(), seek_to: Some(9_000) });
}

#[test]
fn moving_forgets_the_old_position_and_replays() {
    let mut p = loaded(&["m/a.mp3", "m/b.mp3"]);
    p.opened(None);
    assert_eq!(p.next_track(Some(5)), TrackChange::Changed { replay: true });
    assert!(!p.is_playing());
    assert_eq!(p.play_plan(false), PlayPlan::Open { path: "m/b.mp3".to_string(), seek_to: None });
    assert_eq!(p.prev_track(Some(6)), TrackChange::Changed { replay: false });
    assert_eq!(p.play_plan(false), PlayPlan::Open { path: "m/a.mp3".to_string(), seek_to: None });
}

#[test]
fn video_tracks_are_not_played_as_music() {
    let mut p = loaded(&["m/a.mp3", "m/b.mp4"]);
    p.opened(None);
    assert!(!p.current_file_is_video());
    assert_eq!(p.next_track(None), TrackChange::Changed { replay: false });
    assert!(p.current_file_is_video());
    assert_eq!(p.play_plan(false), PlayPlan::Skip);
}

#[test]
fn shuffle_never_repeats_the_track() {
    let mut p = loaded(&["m/a.mp3", "m/b.mp3"]);
    p.set_shuffle(true);
    for _ in 0..50 {
        let before = p.current_index();
        p.next_track(None);
        assert_ne!(p.current_index(), before);
    }
    let mut q = loaded(&["m/1.mp3", "m/2.mp3", "m/3.mp3", "m/4.mp3"]);
    q.set_shuffle(true);
    let mut seen = [false; 4];
    for _ in 0..400 {
        let before = q.current_index();
        q.next_track(None);
        assert!(q.current_index() < 4);
        assert_ne!(q.current_index(), before);
        seen[q.current_index()] = true;
    }
    assert!(seen.iter().all(|s| *s));
}
