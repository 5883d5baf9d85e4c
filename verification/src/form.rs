//! The settings form: its fields as shown when it opens, and the settings
//! that saving it yields. Fields holding fractional numbers (opacities,
//! scales, blur) are read by the application.

use vstd::prelude::*;
use crate::color::{format_hex_color, format_hex_rgb, parse_hex_color, parse_hex_rgb, Rgb};
use crate::config::{font_choice, font_choice_label, font_from_choice, parse_font_choice, TimerFont, WallpaperType};
use crate::settings::{chosen_dir, decimal, minutes_field, minutes_setting, minutes_to_secs, parse_minutes};
use crate::text::{chars_of, string_from_chars};

verus! {

/// Minutes of work when the field holds no number.
pub const DEFAULT_WORK_MINUTES: u64 = 25;

/// Minutes of break when the field holds no number.
pub const DEFAULT_BREAK_MINUTES: u64 = 5;

/// The settings that the form shows and edits, as the configuration holds
/// them.
pub struct FormSource {
    pub work_time: u64,
    pub break_time: u64,
    pub wallpaper_path: String,
    pub wallpaper_type: WallpaperType,
    pub music_enabled: bool,
    pub main_music_dir: String,
    pub break_music_dir: String,
    pub accent_color: Rgb,
    pub break_color: Rgb,
    pub timer_font: TimerFont,
    pub custom_font_name: String,
    pub mode_font_color: Rgb,
    pub bg_tint: Rgb,
    pub countdown_sound_path: String,
    pub bell_sound_path: String,
}

/// The text fields and choices of the form.
pub struct SettingsForm {
    pub work_min: String,
    pub break_min: String,
    pub wallpaper_path: String,
    pub wallpaper_type: WallpaperType,
    pub music_enabled: bool,
    pub main_music_dir: String,
    pub break_music_dir: String,
    pub accent_hex: String,
    pub break_hex: String,
    pub font_choice: String,
    pub mode_font_color_hex: String,
    pub bg_tint_hex: String,
    pub countdown_path: String,
    pub bell_path: String,
}

/// What saving the form sets. A colour is `None` when its field does not
/// denote one, in which case the configured colour stays.
pub struct SavedSettings {
    pub work_time: u64,
    pub break_time: u64,
    pub wallpaper_path: String,
    pub wallpaper_type: WallpaperType,
    pub music_enabled: bool,
    pub main_music_dir: String,
    pub break_music_dir: String,
    pub accent_color: Option<Rgb>,
    pub break_color: Option<Rgb>,
    pub timer_font: TimerFont,
    pub custom_font_name: String,
    pub custom_font_active: bool,
    pub mode_font_color: Option<Rgb>,
    pub bg_tint: Option<Rgb>,
    pub countdown_sound_path: String,
    pub bell_sound_path: String,
}

fn copy_str(s: &String) -> (r: String)
    ensures
        r@ == s@,
{
    let v = chars_of(s.as_str());
    string_from_chars(&v)
}

/// The fields of the form when it opens on `src`.
pub fn open_form(src: &FormSource) -> (f: SettingsForm)
    ensures
        f.work_min@ == decimal((src.work_time / 60) as nat),
        f.break_min@ == decimal((src.break_time / 60) as nat),
        f.wallpaper_path@ == src.wallpaper_path@,
        f.wallpaper_type == src.wallpaper_type,
        f.music_enabled == src.music_enabled,
        f.main_music_dir@ == src.main_music_dir@,
        f.break_music_dir@ == src.break_music_dir@,
        f.accent_hex@ == format_hex_rgb(src.accent_color),
        f.break_hex@ == format_hex_rgb(src.break_color),
        f.font_choice@ == font_choice(src.timer_font, src.custom_font_name@),
        f.mode_font_color_hex@ == format_hex_rgb(src.mode_font_color),
        f.bg_tint_hex@ == format_hex_rgb(src.bg_tint),
        f.countdown_path@ == src.countdown_sound_path@,
        f.bell_path@ == src.bell_sound_path@,
{
    SettingsForm {
        work_min: minutes_field(src.work_time),
        break_min: minutes_field(src.break_time),
        wallpaper_path: copy_str(&src.wallpaper_path),
        wallpaper_type: src.wallpaper_type,
        music_enabled: src.music_enabled,
        main_music_dir: copy_str(&src.main_music_dir),
        break_music_dir: copy_str(&src.break_music_dir),
        accent_hex: format_hex_color(src.accent_color),
        break_hex: format_hex_color(src.break_color),
        font_choice: font_choice_label(src.timer_font, src.custom_font_name.as_str()),
        mode_font_color_hex: format_hex_color(src.mode_font_color),
        bg_tint_hex: format_hex_color(src.bg_tint),
        countdown_path: copy_str(&src.countdown_sound_path),
        bell_path: copy_str(&src.bell_sound_path),
    }
}

impl SettingsForm {
    /// The minutes fields hold numbers whose seconds fit in a `u64`: the form
    /// can be saved.
    pub open spec fn savable(&self) -> bool {
        &&& minutes_setting(self.work_min@, DEFAULT_WORK_MINUTES) * 60 <= u64::MAX
        &&& minutes_setting(self.break_min@, DEFAULT_BREAK_MINUTES) * 60 <= u64::MAX
    }

    /// Whether the form can be saved (see `savable`).
    pub fn can_save(&self) -> (r: bool)
        ensures
            r == self.savable(),
    {
        parse_minutes(self.work_min.as_str(), DEFAULT_WORK_MINUTES) <= u64::MAX / 60
            && parse_minutes(self.break_min.as_str(), DEFAULT_BREAK_MINUTES) <= u64::MAX / 60
    }

    /// The settings that saving the form sets; `main_music_dir` and
    /// `break_music_dir` are the folders configured so far, kept when their
    /// fields are empty.
    pub fn save(&self, main_music_dir: &str, break_music_dir: &str) -> (s: SavedSettings)
        requires
            self.savable(),
        ensures
            s.work_time == minutes_setting(self.work_min@, DEFAULT_WORK_MINUTES) * 60,
            s.break_time == minutes_setting(self.break_min@, DEFAULT_BREAK_MINUTES) * 60,
            s.wallpaper_path@ == self.wallpaper_path@,
            s.wallpaper_type == self.wallpaper_type,
            s.music_enabled == self.music_enabled,
            s.main_music_dir@ == (if self.main_music_dir@.len() > 0 { self.main_music_dir@ } else { main_music_dir@ }),
            s.break_music_dir@ == (if self.break_music_dir@.len() > 0 { self.break_music_dir@ } else { break_music_dir@ }),
            s.accent_color == parse_hex_rgb(self.accent_hex@),
            s.break_color == parse_hex_rgb(self.break_hex@),
            (s.timer_font, s.custom_font_name@) == font_from_choice(self.font_choice@),
            s.custom_font_active == (s.timer_font == TimerFont::Custom && s.custom_font_name@.len() > 0),
            s.mode_font_color == parse_hex_rgb(self.mode_font_color_hex@),
            s.bg_tint == parse_hex_rgb(self.bg_tint_hex@),
            s.countdown_sound_path@ == self.countdown_path@,
            s.bell_sound_path@ == self.bell_path@,
    {
        let work = parse_minutes(self.work_min.as_str(), DEFAULT_WORK_MINUTES);
        let brk = parse_minutes(self.break_min.as_str(), DEFAULT_BREAK_MINUTES);
        let (timer_font, custom_font_name) = parse_font_choice(self.font_choice.as_str());
        let custom_font_active = timer_font == TimerFont::Custom && !custom_font_name.as_str().is_empty();
        SavedSettings {
            work_time: minutes_to_secs(work),
            break_time: minutes_to_secs(brk),
            wallpaper_path: copy_str(&self.wallpaper_path),
            wallpaper_type: self.wallpaper_type,
            music_enabled: self.music_enabled,
            main_music_dir: chosen_dir(self.main_music_dir.as_str(), main_music_dir),
            break_music_dir: chosen_dir(self.break_music_dir.as_str(), break_music_dir),
            accent_color: parse_hex_color(self.accent_hex.as_str()),
            break_color: parse_hex_color(self.break_hex.as_str()),
            timer_font,
            custom_font_name,
            custom_font_active,
            mode_font_color: parse_hex_color(self.mode_font_color_hex.as_str()),
            bg_tint: parse_hex_color(self.bg_tint_hex.as_str()),
            countdown_sound_path: copy_str(&self.countdown_path),
            bell_sound_path: copy_str(&self.bell_path),
        }
    }
}

/// Opening the form and saving it at once changes none of the settings that
/// it shows, but for what the form cannot show: session lengths are kept to
/// whole minutes (at least one), and a custom font without a name comes back
/// as a custom font named "Custom".
pub proof fn lemma_open_then_save_keeps_settings(src: FormSource, f: SettingsForm, s: SavedSettings)
    requires
        f.work_min@ == decimal((src.work_time / 60) as nat),
        f.break_min@ == decimal((src.break_time / 60) as nat),
        f.accent_hex@ == format_hex_rgb(src.accent_color),
        f.break_hex@ == format_hex_rgb(src.break_color),
        f.mode_font_color_hex@ == format_hex_rgb(src.mode_font_color),
        f.bg_tint_hex@ == format_hex_rgb(src.bg_tint),
        f.font_choice@ == font_choice(src.timer_font, src.custom_font_name@),
        src.timer_font == TimerFont::Custom && src.custom_font_name@.len() > 0 ==> forall|g: TimerFont|
            g != TimerFont::Custom ==> src.custom_font_name@ != #[trigger] crate::config::font_label(g),
        s.work_time == minutes_setting(f.work_min@, DEFAULT_WORK_MINUTES) * 60,
        s.break_time == minutes_setting(f.break_min@, DEFAULT_BREAK_MINUTES) * 60,
        s.accent_color == parse_hex_rgb(f.accent_hex@),
        s.break_color == parse_hex_rgb(f.break_hex@),
        s.mode_font_color == parse_hex_rgb(f.mode_font_color_hex@),
        s.bg_tint == parse_hex_rgb(f.bg_tint_hex@),
        (s.timer_font, s.custom_font_name@) == font_from_choice(f.font_choice@),
    ensures
        s.work_time == (if src.work_time / 60 < 1 { 1 } else { src.work_time / 60 }) * 60,
        s.break_time == (if src.break_time / 60 < 1 { 1 } else { src.break_time / 60 }) * 60,
        s.accent_color == Some(src.accent_color),
        s.break_color == Some(src.break_color),
        s.mode_font_color == Some(src.mode_font_color),
        s.bg_tint == Some(src.bg_tint),
        s.timer_font == src.timer_font,
        src.timer_font == TimerFont::Custom && src.custom_font_name@.len() > 0 ==> s.custom_font_name@
            == src.custom_font_name@,
{
    crate::settings::lemma_format_then_parse_u64(src.work_time / 60);
    crate::settings::lemma_format_then_parse_u64(src.break_time / 60);
    crate::color::lemma_format_then_parse(src.accent_color);
    crate::color::lemma_format_then_parse(src.break_color);
    crate::color::lemma_format_then_parse(src.mode_font_color);
    crate::color::lemma_format_then_parse(src.bg_tint);
    if src.timer_font == TimerFont::Custom && src.custom_font_name@.len() > 0 {
        crate::config::lemma_custom_font_choice_round_trip(src.custom_font_name@);
    } else if src.timer_font == TimerFont::Custom {
        crate::config::lemma_font_labels_distinct(TimerFont::Custom, TimerFont::Default);
        crate::config::lemma_font_labels_distinct(TimerFont::Custom, TimerFont::Monospace);
        crate::config::lemma_font_labels_distinct(TimerFont::Custom, TimerFont::Serif);
        crate::config::lemma_font_labels_distinct(TimerFont::Custom, TimerFont::SansSerif);
        crate::config::lemma_font_labels_distinct(TimerFont::Custom, TimerFont::Cursive);
        crate::config::lemma_font_labels_distinct(TimerFont::Custom, TimerFont::Fantasy);
    } else {
        crate::config::lemma_builtin_font_choice_round_trip(src.timer_font, src.custom_font_name@);
    }
}

} // verus!
