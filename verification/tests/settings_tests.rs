use pomodoro_timer::config::{
    default_break_time, default_true, default_work_time, font_choice_label, parse_font_choice, TimerFont,
    WallpaperType,
};
use pomodoro_timer::settings::{
    chosen_dir, format_u64, minutes_field, minutes_to_secs, parse_minutes, parse_u64, sound_configured,
};

#[test]
fn parse_u64_agrees_with_std() {
    let samples = [
        "", "+", "-", "0", "7", "+5", "-5", "007", "25", " 5", "5 ", "1_000", "12a", "++1",
        "18446744073709551615", "18446744073709551616", "99999999999999999999999", "+18446744073709551615",
        "\u{661}",
    ];
    for s in samples {
        assert_eq!(parse_u64(s), s.parse::<u64>().ok(), "{s:?}");
    }
}

#[test]
fn format_u64_agrees_with_std() {
    for n in [0u64, 1, 9, 10, 59, 60, 1500, 123456789, u64::MAX] {
        assert_eq!(format_u64(n), n.to_string());
        assert_eq!(parse_u64(&format_u64(n)), Some(n));
    }
}

#[test]
fn minutes_fields() {
    assert_eq!(parse_minutes("25", 25), 25);
    assert_eq!(parse_minutes("", 25), 25);
    assert_eq!(parse_minutes("abc", 5), 5);
    assert_eq!(parse_minutes("0", 25), 1);
    assert_eq!(parse_minutes("0", 0), 1);
    assert_eq!(parse_minutes("+40", 25), 40);
    assert_eq!(minutes_to_secs(25), 1500);
    assert_eq!(minutes_field(1500), "25");
    assert_eq!(minutes_field(299), "4");
    assert_eq!(minutes_field(0), "0");
}

#[test]
fn sounds_and_folders() {
    assert!(!sound_configured(""));
    assert!(sound_configured("/tmp/bell.wav"));
    assert_eq!(chosen_dir("", "/music/main"), "/music/main");
    assert_eq!(chosen_dir("/new", "/music/main"), "/new");
}

#[test]
fn defaults() {
    assert_eq!(default_work_time(), 1500);
    assert_eq!(default_break_time(), 300);
    assert!(default_true());
    assert_eq!(WallpaperType::default(), WallpaperType::NoImage);
    assert_eq!(TimerFont::default(), TimerFont::Default);
}

#[test]
fn font_labels_and_list() {
    let all = TimerFont::all();
    assert_eq!(all.len(), 7);
    let labels: Vec<&str> = all.iter().map(|f| f.label()).collect();
    assert_eq!(labels, vec!["Default", "Monospace", "Serif", "Sans-Serif", "Cursive", "Fantasy", "Custom"]);
}

#[test]
fn font_choice_round_trips() {
    for f in TimerFont::all() {
        if *f != TimerFont::Custom {
            let label = font_choice_label(*f, "ignored");
            let (g, name) = parse_font_choice(&label);
            assert_eq!(g, *f);
            assert_eq!(name, "");
        }
    }
    let label = font_choice_label(TimerFont::Custom, "Fira Code");
    assert_eq!(label, "Fira Code");
    assert_eq!(parse_font_choice(&label), (TimerFont::Custom, "Fira Code".to_string()));
    assert_eq!(font_choice_label(TimerFont::Custom, ""), "Custom");
    assert_eq!(parse_font_choice("Custom"), (TimerFont::Custom, "Custom".to_string()));
    assert_eq!(parse_font_choice("serif"), (TimerFont::Custom, "serif".to_string()));
}
