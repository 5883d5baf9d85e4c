//! The texts shown on the main screen: the time left, the session's name, the
//! track's name; and the list of font families offered in the settings.

use vstd::prelude::*;
use crate::media::{path_file_stem, plain_file_name, plain_stem};
use crate::playlist::{sort_paths, sorted_paths, views};
use crate::settings::{decimal, format_u64};
use crate::text::{chars_of, chars_le, str_eq, string_from_chars};

verus! {

broadcast use vstd::seq::Seq::lemma_push_to_set_commute;

/// A number written with at least two digits.
pub open spec fn pad2(n: nat) -> Seq<char> {
    if n < 10 {
        seq!['0'] + decimal(n)
    } else {
        decimal(n)
    }
}

/// Whole seconds in `nanos` nanoseconds, saturated to `u64`.
pub open spec fn whole_secs(nanos: u128) -> nat {
    if nanos / 1_000_000_000 > u64::MAX {
        u64::MAX as nat
    } else {
        (nanos / 1_000_000_000) as nat
    }
}

/// The time left as minutes and seconds, each of at least two digits.
pub open spec fn clock_text(nanos: u128) -> Seq<char> {
    pad2(whole_secs(nanos) / 60) + seq![':'] + pad2(whole_secs(nanos) % 60)
}

fn pad2_exec(n: u64) -> (s: Vec<char>)
    ensures
        s@ == pad2(n as nat),
{
    let d = format_u64(n);
    let v = chars_of(d.as_str());
    if n < 10 {
        let mut r: Vec<char> = Vec::new();
        r.push('0');
        let mut i: usize = 0;
        while i < v.len()
            invariant
                i <= v.len(),
                r@ == seq!['0'] + v@.take(i as int),
            decreases v.len() - i,
        {
            r.push(v[i]);
            i += 1;
            assert(v@.take(i as int) == v@.take(i - 1).push(v@[i - 1]));
        }
        assert(v@.take(v.len() as int) == v@);
        r
    } else {
        v
    }
}

/// The time left, `nanos` nanoseconds, as the timer shows it: whole minutes
/// and seconds, "MM:SS".
pub fn format_clock(nanos: u128) -> (s: String)
    ensures
        s@ == clock_text(nanos),
{
    let q = nanos / 1_000_000_000;
    let secs: u64 = if q > u64::MAX as u128 { u64::MAX } else { q as u64 };
    let mut v = pad2_exec(secs / 60);
    let w = pad2_exec(secs % 60);
    v.push(':');
    let ghost front = v@;
    let mut i: usize = 0;
    while i < w.len()
        invariant
            i <= w.len(),
            v@ == front + w@.take(i as int),
        decreases w.len() - i,
    {
        v.push(w[i]);
        i += 1;
        assert(w@.take(i as int) == w@.take(i - 1).push(w@[i - 1]));
    }
    assert(w@.take(w.len() as int) == w@);
    string_from_chars(&v)
}

/// The name of the session shown above the time.
pub fn mode_label(in_break: bool) -> (s: &'static str)
    ensures
        s@ == (if in_break { "Break"@ } else { "Focus"@ }),
{
    if in_break {
        "Break"
    } else {
        "Focus"
    }
}

/// The title of the application window.
pub fn title() -> (s: String)
    ensures
        s@ == "Pomodoro Timer"@,
{
    let v = chars_of("Pomodoro Timer");
    string_from_chars(&v)
}

/// Longest track name, in characters, shown in full.
pub const TRACK_NAME_MAX_CHARS: usize = 24;

/// A track name as shown: names longer than 24 characters are cut to their
/// first 24 characters and end in an ellipsis.
pub open spec fn shortened(s: Seq<char>) -> Seq<char> {
    if s.len() > TRACK_NAME_MAX_CHARS {
        s.take(TRACK_NAME_MAX_CHARS as int) + seq!['\u{2026}']
    } else {
        s
    }
}

/// The label under the music controls: the current track's name (its file
/// name without extension, or a dash when it has none), else whether music
/// is on.
pub open spec fn track_label_text(has_track: bool, stem: Option<Seq<char>>, music_enabled: bool) -> Seq<char> {
    if has_track {
        "\u{266a} "@ + shortened(match stem {
            Some(s) => s,
            None => "\u{2014}"@,
        })
    } else if music_enabled {
        "\u{266a} ON"@
    } else {
        "\u{266a} OFF"@
    }
}

/// The label under the music controls.
pub fn track_label(has_track: bool, stem: Option<&str>, music_enabled: bool) -> (s: String)
    ensures
        s@ == track_label_text(has_track, match stem { Some(t) => Some(t@), None => None }, music_enabled),
{
    if !has_track {
        if music_enabled {
            let v = chars_of("\u{266a} ON");
            return string_from_chars(&v);
        } else {
            let v = chars_of("\u{266a} OFF");
            return string_from_chars(&v);
        }
    }
    let name: Vec<char> = match stem {
        Some(t) => chars_of(t),
        None => chars_of("\u{2014}"),
    };
    let mut out = chars_of("\u{266a} ");
    let ghost front = out@;
    let end: usize = if name.len() > TRACK_NAME_MAX_CHARS { TRACK_NAME_MAX_CHARS } else { name.len() };
    let mut i: usize = 0;
    while i < end
        invariant
            end <= name.len(),
            i <= end,
            out@ == front + name@.take(i as int),
        decreases end - i,
    {
        out.push(name[i]);
        i += 1;
        assert(name@.take(i as int) == name@.take(i - 1).push(name@[i - 1]));
    }
    if name.len() > TRACK_NAME_MAX_CHARS {
        out.push('\u{2026}');
    } else {
        assert(name@.take(name.len() as int) == name@);
    }
    string_from_chars(&out)
}

/// The label under the music controls for the current track at `path`, if
/// there is one: the track is named by its file stem.
pub fn track_label_of(path: Option<&str>, music_enabled: bool) -> (s: String)
    ensures
        path is None ==> s@ == track_label_text(false, None, music_enabled),
        path matches Some(p) ==> (plain_file_name(p@) ==> s@ == track_label_text(
            true,
            Some(plain_stem(p@)),
            music_enabled,
        )),
        path is Some ==> exists|stem: Option<Seq<char>>| s@ == #[trigger] track_label_text(true, stem, music_enabled),
{
    match path {
        None => track_label(false, None, music_enabled),
        Some(p) => {
            let stem = path_file_stem(p);
            match &stem {
                Some(st) => track_label(true, Some(st.as_str()), music_enabled),
                None => track_label(true, None, music_enabled),
            }
        },
    }
}

/// Strictly increasing: sorted, with no name twice.
pub open spec fn strictly_sorted(s: Seq<Seq<char>>) -> bool {
    forall|a: int, b: int| 0 <= a < b < s.len() ==> chars_le(#[trigger] s[a], #[trigger] s[b]) && s[a] != s[b]
}

/// The font families to offer: every name once, in sorted order.
pub fn sorted_unique_names(names: &Vec<String>) -> (r: Vec<String>)
    ensures
        strictly_sorted(views(r@)),
        views(r@).to_set() == views(names@).to_set(),
{
    let sorted = sort_paths(names);
    let mut out: Vec<String> = Vec::new();
    let mut i: usize = 0;
    proof {
        vstd::seq_lib::lemma_multiset_commutative(views(sorted@), views(names@));
    }
    assert(views(sorted@).to_multiset() == views(names@).to_multiset());
    assert(views(sorted@).to_set() == views(names@).to_set()) by {
        assert forall|x: Seq<char>| views(sorted@).to_set().contains(x) <==> views(names@).to_set().contains(x) by {
            vstd::seq_lib::to_multiset_contains(views(sorted@), x);
            vstd::seq_lib::to_multiset_contains(views(names@), x);
        }
    }
    while i < sorted.len()
        invariant
            i <= sorted.len(),
            sorted_paths(views(sorted@)),
            strictly_sorted(views(out@)),
            views(out@).to_set() == views(sorted@.take(i as int)).to_set(),
            i > 0 ==> out@.len() > 0 && out@.last()@ == sorted@[i - 1]@,
            i == 0 ==> out@.len() == 0,
        decreases sorted.len() - i,
    {
        let ghost prev = views(out@);
        assert(views(sorted@.take(i + 1)) == views(sorted@.take(i as int)).push(sorted@[i as int]@));
        let dup = if i > 0 { str_eq(sorted[i - 1].as_str(), sorted[i].as_str()) } else { false };
        if dup {
            assert(views(sorted@.take(i as int)).contains(sorted@[i as int]@)) by {
                assert(views(sorted@.take(i as int))[i - 1] == sorted@[i - 1]@);
            }
            assert(views(sorted@.take(i + 1)).to_set() == views(sorted@.take(i as int)).to_set());
        } else {
            proof {
                if i > 0 {
                    assert(views(sorted@)[i - 1] == sorted@[i - 1]@);
                    assert(views(sorted@)[i as int] == sorted@[i as int]@);
                }
                assert forall|a: int| 0 <= a < prev.len() implies chars_le(#[trigger] prev[a], sorted@[i as int]@)
                    && prev[a] != sorted@[i as int]@ by {
                    assert(prev.to_set().contains(prev[a]));
                    let k = choose|k: int| 0 <= k < i && #[trigger] views(sorted@.take(i as int))[k] == prev[a];
                    assert(views(sorted@.take(i as int))[k] == views(sorted@)[k]);
                    if k < i - 1 {
                        assert(chars_le(views(sorted@)[k], views(sorted@)[i - 1]));
                        crate::text::lemma_chars_le_transitive(views(sorted@)[k], views(sorted@)[i - 1], views(sorted@)[i as int]);
                        assert(chars_le(views(sorted@)[i - 1], views(sorted@)[i as int]));
                    }
                    assert(chars_le(views(sorted@)[k], views(sorted@)[i as int]));
                    if prev[a] == sorted@[i as int]@ {
                        assert(chars_le(views(sorted@)[k], views(sorted@)[i - 1]));
                        assert(chars_le(views(sorted@)[i - 1], views(sorted@)[i as int]));
                        lemma_chars_le_antisymmetric(views(sorted@)[i - 1], views(sorted@)[i as int]);
                    }
                }
            }
            out.push(sorted[i].clone());
            assert(views(out@) == prev.push(sorted@[i as int]@));
        }
        i += 1;
    }
    assert(sorted@.take(sorted.len() as int) == sorted@);
    out
}

/// Two sequences ordered both ways are equal.
proof fn lemma_chars_le_antisymmetric(a: Seq<char>, b: Seq<char>)
    requires
        chars_le(a, b),
        chars_le(b, a),
    ensures
        a == b,
    decreases a.len(),
{
    if a.len() > 0 && b.len() > 0 {
        lemma_chars_le_antisymmetric(a.drop_first(), b.drop_first());
        assert(a == seq![a[0]] + a.drop_first());
        assert(b == seq![b[0]] + b.drop_first());
    }
}

} // verus!
