//! The settings' enumerations, their labels, and the defaults of the timer
//! settings.

use vstd::prelude::*;
use crate::text::{chars_of, str_eq, string_from_chars};

verus! {

/// What is shown behind the timer when the current track brings no picture.
#[derive(Clone, Copy, PartialEq, Eq, Debug, Structural)]
pub enum WallpaperType {
    NoImage,
    Static,
}

impl Default for WallpaperType {
    fn default() -> (r: Self)
        ensures
            r == WallpaperType::NoImage,
    {
        WallpaperType::NoImage
    }
}

/// The font family of the timer digits.
#[derive(Clone, Copy, PartialEq, Eq, Debug, Structural)]
pub enum TimerFont {
    Default,
    Monospace,
    Serif,
    SansSerif,
    Cursive,
    Fantasy,
    Custom,
}

impl Default for TimerFont {
    fn default() -> (r: Self)
        ensures
            r == TimerFont::Default,
    {
        TimerFont::Default
    }
}

/// The label under which each font is offered.
pub open spec fn font_label(f: TimerFont) -> Seq<char> {
    match f {
        TimerFont::Default => "Default"@,
        TimerFont::Monospace => "Monospace"@,
        TimerFont::Serif => "Serif"@,
        TimerFont::SansSerif => "Sans-Serif"@,
        TimerFont::Cursive => "Cursive"@,
        TimerFont::Fantasy => "Fantasy"@,
        TimerFont::Custom => "Custom"@,
    }
}

/// Every font, in the order in which they are offered.
pub open spec fn all_fonts() -> Seq<TimerFont> {
    seq![
        TimerFont::Default,
        TimerFont::Monospace,
        TimerFont::Serif,
        TimerFont::SansSerif,
        TimerFont::Cursive,
        TimerFont::Fantasy,
        TimerFont::Custom,
    ]
}

impl TimerFont {
    pub fn label(self) -> (r: &'static str)
        ensures
            r@ == font_label(self),
    {
        match self {
            TimerFont::Default => "Default",
            TimerFont::Monospace => "Monospace",
            TimerFont::Serif => "Serif",
            TimerFont::SansSerif => "Sans-Serif",
            TimerFont::Cursive => "Cursive",
            TimerFont::Fantasy => "Fantasy",
            TimerFont::Custom => "Custom",
        }
    }

    pub fn all() -> (r: &'static [TimerFont])
        ensures
            r@ == all_fonts(),
    {
        &[
            TimerFont::Default,
            TimerFont::Monospace,
            TimerFont::Serif,
            TimerFont::SansSerif,
            TimerFont::Cursive,
            TimerFont::Fantasy,
            TimerFont::Custom,
        ]
    }
}

/// Default length of a work session, in seconds.
pub fn default_work_time() -> (r: u64)
    ensures
        r == 25 * 60,
{
    25 * 60
}

/// Default length of a break, in seconds.
pub fn default_break_time() -> (r: u64)
    ensures
        r == 5 * 60,
{
    5 * 60
}

/// Default of the settings that are on unless turned off.
pub fn default_true() -> (r: bool)
    ensures
        r,
{
    true
}

/// The entry of the font picker that stands for a configured font: the custom
/// family's name when a custom font is configured with a name, else the
/// font's label.
pub open spec fn font_choice(font: TimerFont, custom_name: Seq<char>) -> Seq<char> {
    if font == TimerFont::Custom && custom_name.len() > 0 {
        custom_name
    } else {
        font_label(font)
    }
}

/// The font, and the custom family name, that a picker entry selects: the
/// label of a built-in family selects it with no custom name; any other entry
/// is taken as the name of a custom family.
pub open spec fn font_from_choice(choice: Seq<char>) -> (TimerFont, Seq<char>) {
    if choice == "Default"@ {
        (TimerFont::Default, Seq::empty())
    } else if choice == "Monospace"@ {
        (TimerFont::Monospace, Seq::empty())
    } else if choice == "Serif"@ {
        (TimerFont::Serif, Seq::empty())
    } else if choice == "Sans-Serif"@ {
        (TimerFont::SansSerif, Seq::empty())
    } else if choice == "Cursive"@ {
        (TimerFont::Cursive, Seq::empty())
    } else if choice == "Fantasy"@ {
        (TimerFont::Fantasy, Seq::empty())
    } else {
        (TimerFont::Custom, choice)
    }
}

/// The picker entry for a configured font.
pub fn font_choice_label(font: TimerFont, custom_name: &str) -> (r: String)
    ensures
        r@ == font_choice(font, custom_name@),
{
    if font == TimerFont::Custom && !custom_name.is_empty() {
        let v = chars_of(custom_name);
        string_from_chars(&v)
    } else {
        let v = chars_of(font.label());
        string_from_chars(&v)
    }
}

/// The font and custom family name that a picker entry selects.
pub fn parse_font_choice(choice: &str) -> (r: (TimerFont, String))
    ensures
        (r.0, r.1@) == font_from_choice(choice@),
{
    if str_eq(choice, "Default") {
        (TimerFont::Default, String::new())
    } else if str_eq(choice, "Monospace") {
        (TimerFont::Monospace, String::new())
    } else if str_eq(choice, "Serif") {
        (TimerFont::Serif, String::new())
    } else if str_eq(choice, "Sans-Serif") {
        (TimerFont::SansSerif, String::new())
    } else if str_eq(choice, "Cursive") {
        (TimerFont::Cursive, String::new())
    } else if str_eq(choice, "Fantasy") {
        (TimerFont::Fantasy, String::new())
    } else {
        let v = chars_of(choice);
        (TimerFont::Custom, string_from_chars(&v))
    }
}

/// No two fonts share a label.
pub proof fn lemma_font_labels_distinct(f: TimerFont, g: TimerFont)
    requires
        f != g,
    ensures
        font_label(f) != font_label(g),
{
    reveal_strlit("Default");
    reveal_strlit("Monospace");
    reveal_strlit("Serif");
    reveal_strlit("Sans-Serif");
    reveal_strlit("Cursive");
    reveal_strlit("Fantasy");
    reveal_strlit("Custom");
    assert(font_label(f).len() != font_label(g).len() || font_label(f)[0] != font_label(g)[0]
        || font_label(f)[1] != font_label(g)[1]);
}

/// The picker entry of a built-in family selects that family again.
pub proof fn lemma_builtin_font_choice_round_trip(f: TimerFont, custom_name: Seq<char>)
    requires
        f != TimerFont::Custom,
    ensures
        font_from_choice(font_choice(f, custom_name)) == (f, Seq::<char>::empty()),
{
    let builtin = seq![
        TimerFont::Default,
        TimerFont::Monospace,
        TimerFont::Serif,
        TimerFont::SansSerif,
        TimerFont::Cursive,
        TimerFont::Fantasy,
    ];
    assert forall|i: int| 0 <= i < 6 && builtin[i] != f implies font_label(builtin[i]) != font_label(f) by {
        lemma_font_labels_distinct(builtin[i], f);
    }
    assert(builtin[0] == TimerFont::Default && builtin[1] == TimerFont::Monospace
        && builtin[2] == TimerFont::Serif && builtin[3] == TimerFont::SansSerif
        && builtin[4] == TimerFont::Cursive && builtin[5] == TimerFont::Fantasy);
}

/// A named custom family survives the trip through the picker, as long as its
/// name is not the label of a built-in family.
pub proof fn lemma_custom_font_choice_round_trip(name: Seq<char>)
    requires
        name.len() > 0,
        forall|g: TimerFont| g != TimerFont::Custom ==> name != #[trigger] font_label(g),
    ensures
        font_from_choice(font_choice(TimerFont::Custom, name)) == (TimerFont::Custom, name),
{
    assert(name != font_label(TimerFont::Default));
    assert(name != font_label(TimerFont::Monospace));
    assert(name != font_label(TimerFont::Serif));
    assert(name != font_label(TimerFont::SansSerif));
    assert(name != font_label(TimerFont::Cursive));
    assert(name != font_label(TimerFont::Fantasy));
}

} // verus!
