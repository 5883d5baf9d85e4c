//! Telling video files from audio files by their extension.

use vstd::prelude::*;
use crate::text::{ascii_lower, ascii_lowercase, chars_eq, chars_of};

verus! {

/// Calls `std::path::Path::extension` on `path` and `OsStr::to_str` on what it
/// finds. Claimed, as the documentation of `extension` says: a found extension
/// is the part of the path's file name after its last `.`, so it holds no
/// `.` and stands in the path right after a `.`. On a path with a
/// `plain_file_name`, the file name is the text after the last `/` on every
/// platform (as the documentation of `components` splits such a path), and
/// the extension is exactly `plain_extension`: none when the file name holds
/// no `.` or begins with its only `.`, else the text after its last `.`.
/// On other paths the file name depends on how the platform splits paths
/// (backslashes, prefixes, a trailing `/`, a final `.` or `..`), and which
/// text is returned there is left unsaid.
#[verifier::external_body]
fn path_extension(path: &str) -> (r: Option<String>)
    ensures
        r matches Some(e) ==> extension_in(path@, e@),
        plain_file_name(path@) ==> (r is Some <==> plain_extension(path@) is Some),
        plain_file_name(path@) && r is Some ==> r.unwrap()@ == plain_extension(path@).unwrap(),
{
    std::path::Path::new(path).extension().and_then(|e| e.to_str()).map(|e| e.to_string())
}

/// Calls `std::path::Path::file_stem` on `path` and `OsStr::to_str` on what
/// it finds. Claimed, as the documentation of `file_stem` says, on a path
/// with a `plain_file_name` (whose file name is the text after the last `/`
/// on every platform): the stem is the whole file name when it holds no `.`
/// or begins with its only `.`, else the part before its last `.`; that is
/// `plain_stem`. On other paths the file name depends on the platform, and
/// what is returned there is left unsaid.
#[verifier::external_body]
pub(crate) fn path_file_stem(path: &str) -> (r: Option<String>)
    ensures
        plain_file_name(path@) ==> (r is Some && r.unwrap()@ == plain_stem(path@)),
{
    std::path::Path::new(path).file_stem().and_then(|s| s.to_str()).map(|s| s.to_string())
}

/// `e` holds no `.` and stands in `path` right after a `.`.
pub open spec fn extension_in(path: Seq<char>, e: Seq<char>) -> bool {
    &&& !e.contains('.')
    &&& exists|i: int|
        1 <= i && i + e.len() <= path.len() && path[i - 1] == '.' && #[trigger] path.subrange(
            i,
            i + e.len(),
        ) == e
}

/// The text of `s` after its last `c`; all of `s` when it holds no `c`.
pub open spec fn after_last(s: Seq<char>, c: char) -> Seq<char>
    decreases s.len(),
{
    if s.len() == 0 {
        s
    } else if s.last() == c {
        Seq::empty()
    } else {
        after_last(s.drop_last(), c).push(s.last())
    }
}

/// The file name of `path`: the text after its last `/`.
pub open spec fn file_name_of(path: Seq<char>) -> Seq<char> {
    after_last(path, '/')
}

/// `path` is plain enough that every platform reads its file name alike: it
/// holds no backslash and does not begin with `//`, and the text after its
/// last `/` is not empty, not `.` or `..`, and holds no `:`.
pub open spec fn plain_file_name(path: Seq<char>) -> bool {
    let n = file_name_of(path);
    &&& !path.contains('\\')
    &&& !(path.len() >= 2 && path[0] == '/' && path[1] == '/')
    &&& n.len() > 0
    &&& n != seq!['.']
    &&& n != seq!['.', '.']
    &&& !n.contains(':')
}

/// The extension of a file name: the text after its last `.`; none when the
/// name holds no `.`, or when its only `.` is its first character.
pub open spec fn name_extension(n: Seq<char>) -> Option<Seq<char>> {
    let a = after_last(n, '.');
    if a.len() + 1 >= n.len() {
        None
    } else {
        Some(a)
    }
}

/// The extension of the file name of `path`.
pub open spec fn plain_extension(path: Seq<char>) -> Option<Seq<char>> {
    name_extension(file_name_of(path))
}

/// The stem of the file name of `path`: the file name without its
/// extension and the `.` before it.
pub open spec fn plain_stem(path: Seq<char>) -> Seq<char> {
    let n = file_name_of(path);
    match name_extension(n) {
        Some(e) => n.take(n.len() - e.len() - 1),
        None => n,
    }
}

/// The file name of `path` has an extension, and it is a video format's.
pub open spec fn named_video(path: Seq<char>) -> bool {
    plain_extension(path) matches Some(e) && is_video_ext(e)
}

/// The extensions of the video formats, in lower case.
pub open spec fn video_extensions() -> Seq<Seq<char>> {
    seq!["mp4"@, "mkv"@, "webm"@, "avi"@, "mov"@, "m4v"@, "wmv"@, "flv"@, "ts"@, "m2ts"@]
}

/// Whether an extension, in any ASCII case, is that of a video format.
pub open spec fn is_video_ext(e: Seq<char>) -> bool {
    video_extensions().contains(e.map_values(|c: char| ascii_lower(c)))
}

fn eq_literal(v: &Vec<char>, lit: &str) -> (r: bool)
    ensures
        r == (v@ == lit@),
{
    let w = chars_of(lit);
    chars_eq(v, &w)
}

/// Whether an extension, in any ASCII case, is that of a video format.
pub fn is_video_extension(ext: &str) -> (r: bool)
    ensures
        r == is_video_ext(ext@),
{
    let v = chars_of(ext);
    let lower = ascii_lowercase(&v);
    let ghost l = lower@;
    let ghost vs = video_extensions();
    let r = eq_literal(&lower, "mp4") || eq_literal(&lower, "mkv") || eq_literal(&lower, "webm")
        || eq_literal(&lower, "avi") || eq_literal(&lower, "mov") || eq_literal(&lower, "m4v")
        || eq_literal(&lower, "wmv") || eq_literal(&lower, "flv") || eq_literal(&lower, "ts")
        || eq_literal(&lower, "m2ts");
    proof {
        if r {
            if l == "mp4"@ { assert(vs[0] == l); }
            else if l == "mkv"@ { assert(vs[1] == l); }
            else if l == "webm"@ { assert(vs[2] == l); }
            else if l == "avi"@ { assert(vs[3] == l); }
            else if l == "mov"@ { assert(vs[4] == l); }
            else if l == "m4v"@ { assert(vs[5] == l); }
            else if l == "wmv"@ { assert(vs[6] == l); }
            else if l == "flv"@ { assert(vs[7] == l); }
            else if l == "ts"@ { assert(vs[8] == l); }
            else { assert(vs[9] == l); }
        } else {
            assert forall|i: int| 0 <= i < vs.len() implies vs[i] != l by {}
        }
    }
    r
}

/// `path` may name a video file: some extension of it, as
/// `path_extension` may find it, is a video format's.
pub open spec fn may_be_video(path: Seq<char>) -> bool {
    exists|e: Seq<char>| extension_in(path, e) && is_video_ext(e)
}

/// Whether `path` names a video file: it has an extension, and that
/// extension is a video format's.
pub fn is_video_path(path: &str) -> (r: bool)
    ensures
        r ==> may_be_video(path@),
        !path@.contains('.') ==> !r,
        plain_file_name(path@) ==> r == named_video(path@),
{
    match path_extension(path) {
        Some(e) => {
            let r = is_video_extension(e.as_str());
            proof {
                if !path@.contains('.') {
                    let i = choose|i: int|
                        1 <= i && i + e@.len() <= path@.len() && path@[i - 1] == '.'
                            && #[trigger] path@.subrange(i, i + e@.len()) == e@;
                    assert(path@[i - 1] == '.');
                }
            }
            r
        },
        None => false,
    }
}

} // verus!
