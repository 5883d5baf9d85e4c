use pomodoro_timer::color::Rgb;
use pomodoro_timer::config::{TimerFont, WallpaperType};
use pomodoro_timer::form::{open_form, FormSource};
use pomodoro_timer::session::{Effect, Mode};
use pomodoro_timer::window::{Window, BREAK_TIME, WORK_TIME};

fn source() -> FormSource {
    FormSource {
        work_time: 1500,
        break_time: 300,
        wallpaper_path: "/w.png".to_string(),
        wallpaper_type: WallpaperType::Static,
        music_enabled: true,
        main_music_dir: "/m/main".to_string(),
        break_music_dir: "/m/break".to_string(),
        accent_color: Rgb { r: 242, g: 122, b: 31 },
        break_color: Rgb { r: 64, g: 217, b: 115 },
        timer_font: TimerFont::Custom,
        custom_font_name: "Fira Code".to_string(),
        mode_font_color: Rgb { r: 255, g: 255, b: 255 },
        bg_tint: Rgb { r: 0, g: 0, b: 0 },
        countdown_sound_path: String::new(),
        bell_sound_path: "/s/bell.wav".to_string(),
    }
}

#[test]
fn form_opens_with_the_settings() {
    let f = open_form(&source());
    assert_eq!(f.work_min, "25");
    assert_eq!(f.break_min, "5");
    assert_eq!(f.accent_hex, "f27a1f");
    assert_eq!(f.break_hex, "40d973");
    assert_eq!(f.font_choice, "Fira Code");
    assert_eq!(f.mode_font_color_hex, "ffffff");
    assert_eq!(f.bg_tint_hex, "000000");
    assert_eq!(f.bell_path, "/s/bell.wav");
}

#[test]
fn open_then_save_keeps_the_settings() {
    let src = source();
    let f = open_form(&src);
    assert!(f.can_save());
    let s = f.save("/old/main", "/old/break");
    assert_eq!(s.work_time, 1500);
    assert_eq!(s.break_time, 300);
    assert_eq!(s.accent_color, Some(src.accent_color));
    assert_eq!(s.break_color, Some(src.break_color));
    assert_eq!(s.mode_font_color, Some(src.mode_font_color));
    assert_eq!(s.bg_tint, Some(src.bg_tint));
    assert_eq!(s.timer_font, TimerFont::Custom);
    assert_eq!(s.custom_font_name, "Fira Code");
    assert!(s.custom_font_active);
    assert_eq!(s.main_music_dir, "/m/main");
    assert_eq!(s.wallpaper_type, WallpaperType::Static);
}

#[test]
fn saving_edited_fields() {
    let mut f = open_form(&source());
    f.work_min = "0".to_string();
    f.break_min = "abc".to_string();
    f.accent_hex = "zzzzzz".to_string();
    f.font_choice = "Serif".to_string();
    f.main_music_dir = String::new();
    let s = f.save("/old/main", "/old/break");
    assert_eq!(s.work_time, 60);
    assert_eq!(s.break_time, 300);
    assert_eq!(s.accent_color, None);
    assert_eq!(s.timer_font, TimerFont::Serif);
    assert_eq!(s.custom_font_name, "");
    assert!(!s.custom_font_active);
    assert_eq!(s.main_music_dir, "/old/main");
    assert_eq!(s.break_music_dir, "/m/break");
}

#[test]
fn form_that_cannot_be_saved() {
    let mut f = open_form(&source());
    f.work_min = "18446744073709551615".to_string();
    assert!(!f.can_save());
    let mut g = open_form(&source());
    g.bg_tint_hex = "a\u{e9}123".to_string();
    assert!(g.can_save());
    assert_eq!(g.save("", "").bg_tint, None);
}

#[test]
fn window_buttons() {
    let mut w = Window::new();
    assert!(!w.in_break());
    assert_eq!(w.current_timer().total_time(), WORK_TIME);
    assert_eq!(w.start(), vec![Effect::PlayMusic(Mode::Work)]);
    assert!(w.current_timer().is_running());
    assert_eq!(w.pause(), vec![Effect::PauseMusic(Mode::Work)]);
    assert_eq!(w.roll_over_with(1), vec![]);
    assert!(!w.in_break());
    assert_eq!(w.roll_over_with(0), vec![Effect::PauseMusic(Mode::Work), Effect::PlayMusic(Mode::Break)]);
    assert!(w.in_break());
    assert_eq!(w.current_timer().total_time(), BREAK_TIME);
    assert!(w.current_timer().is_running());
    assert_eq!(w.roll_over(true), vec![]);
    assert_eq!(w.reset(), vec![Effect::StopMusic(Mode::Break), Effect::StopMusic(Mode::Work)]);
    assert!(!w.in_break());
    w.load_music(vec!["b.mp3".to_string(), "a.mp3".to_string()], vec![], vec![]);
    assert!(w.current_timer().is_idle());
}
