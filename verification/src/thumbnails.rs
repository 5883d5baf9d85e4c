//! Which track pictures to decode for the background, and when to show them.
//!
//! The pictures themselves are kept by the application; this planner keeps
//! the set of tracks whose picture is known (cached, possibly as "no
//! picture") and the set whose decoding is under way, and decides from them.

use vstd::prelude::*;
use crate::media::{is_video_path, may_be_video, named_video, plain_file_name};
use crate::playlist::{views, MusicPlayer};
use crate::text::str_eq;

verus! {

broadcast use vstd::seq::Seq::lemma_push_to_set_commute;

/// What to show behind the timer after planning.
#[derive(PartialEq, Eq, Debug)]
pub enum Backdrop {
    /// No track picture.
    Clear,
    /// The cached picture of this track.
    ShowCached(String),
    /// Whatever is shown stays.
    Keep,
}

/// The outcome of planning: what to show, and which tracks' pictures to
/// start decoding, in order.
pub struct ThumbPlan {
    pub backdrop: Backdrop,
    pub decode: Vec<String>,
}

/// The planner's state: tracks whose picture is cached, and tracks whose
/// picture is being decoded.
pub ghost struct ThumbModel {
    pub cached: Set<Seq<char>>,
    pub pending: Set<Seq<char>>,
}

/// The backdrop a plan yields, as a view.
pub ghost enum BackdropModel {
    Clear,
    ShowCached(Seq<char>),
    Keep,
}

pub open spec fn backdrop_view(b: Backdrop) -> BackdropModel {
    match b {
        Backdrop::Clear => BackdropModel::Clear,
        Backdrop::ShowCached(p) => BackdropModel::ShowCached(p@),
        Backdrop::Keep => BackdropModel::Keep,
    }
}

impl ThumbModel {
    /// Planning the next track's picture ahead of time: decoded unless it is
    /// already cached or under way, or the track is a video.
    pub open spec fn prewarm(self, next: Option<Seq<char>>, next_is_video: bool) -> (ThumbModel, Seq<Seq<char>>) {
        match next {
            Some(n) => if self.cached.contains(n) || self.pending.contains(n) || next_is_video {
                (self, Seq::empty())
            } else {
                (ThumbModel { pending: self.pending.insert(n), ..self }, seq![n])
            },
            None => (self, Seq::empty()),
        }
    }

    /// The plan for the current track `current` (a video when
    /// `current_is_video`) and the following one.
    pub open spec fn plan(
        self,
        current_is_video: bool,
        current: Option<Seq<char>>,
        next: Option<Seq<char>>,
        next_is_video: bool,
    ) -> (ThumbModel, BackdropModel, Seq<Seq<char>>) {
        if current_is_video {
            (self, BackdropModel::Clear, Seq::empty())
        } else {
            match current {
                None => (self, BackdropModel::Clear, Seq::empty()),
                Some(c) => if self.cached.contains(c) {
                    let (s, d) = self.prewarm(next, next_is_video);
                    (s, BackdropModel::ShowCached(c), d)
                } else if self.pending.contains(c) {
                    (self, BackdropModel::Keep, Seq::empty())
                } else {
                    let s1 = ThumbModel { pending: self.pending.insert(c), ..self };
                    let (s2, d) = s1.prewarm(next, next_is_video);
                    (s2, BackdropModel::Keep, seq![c] + d)
                },
            }
        }
    }
}

pub struct Thumbnails {
    cached: Vec<String>,
    pending: Vec<String>,
}

impl View for Thumbnails {
    type V = ThumbModel;

    closed spec fn view(&self) -> ThumbModel {
        ThumbModel { cached: views(self.cached@).to_set(), pending: views(self.pending@).to_set() }
    }
}

/// Whether `v` holds a string equal to `s`.
fn holds(v: &Vec<String>, s: &str) -> (r: bool)
    ensures
        r == views(v@).to_set().contains(s@),
{
    let mut i: usize = 0;
    while i < v.len()
        invariant
            i <= v.len(),
            forall|k: int| 0 <= k < i ==> v@[k]@ != s@,
        decreases v.len() - i,
    {
        if str_eq(v[i].as_str(), s) {
            assert(views(v@)[i as int] == s@);
            return true;
        }
        i += 1;
    }
    assert(!views(v@).contains(s@)) by {
        assert forall|k: int| 0 <= k < views(v@).len() implies views(v@)[k] != s@ by {
            assert(views(v@)[k] == v@[k]@);
        }
    }
    false
}

/// Removes every string equal to `s` from `v`.
fn remove_all(v: &mut Vec<String>, s: &str)
    ensures
        views(final(v)@).to_set() == views(old(v)@).to_set().remove(s@),
{
    let ghost before = views(v@).to_set();
    let mut out: Vec<String> = Vec::new();
    let mut i: usize = 0;
    while i < v.len()
        invariant
            i <= v.len(),
            before == views(v@).to_set(),
            views(out@).to_set() == views(v@.take(i as int)).to_set().remove(s@),
        decreases v.len() - i,
    {
        let ghost prev = views(out@);
        assert(views(v@.take(i + 1)) == views(v@.take(i as int)).push(v@[i as int]@));
        if !str_eq(v[i].as_str(), s) {
            out.push(v[i].clone());
            assert(views(out@) == prev.push(v@[i as int]@));
        }
        assert(views(v@.take(i + 1)).to_set() == views(v@.take(i as int)).to_set().insert(v@[i as int]@));
        i += 1;
    }
    assert(v@.take(v.len() as int) == v@);
    *v = out;
}

impl Thumbnails {
    pub fn new() -> (t: Thumbnails)
        ensures
            t@.cached == Set::<Seq<char>>::empty(),
            t@.pending == Set::<Seq<char>>::empty(),
    {
        Thumbnails { cached: Vec::new(), pending: Vec::new() }
    }

    /// Forgets every cached picture and every decoding under way.
    pub fn clear(&mut self)
        ensures
            final(self)@.cached == Set::<Seq<char>>::empty(),
            final(self)@.pending == Set::<Seq<char>>::empty(),
    {
        self.cached = Vec::new();
        self.pending = Vec::new();
    }

    /// Whether the picture of `path` is cached.
    pub fn is_cached(&self, path: &str) -> (r: bool)
        ensures
            r == self@.cached.contains(path@),
    {
        holds(&self.cached, path)
    }

    /// Whether the picture of `path` is being decoded.
    pub fn is_pending(&self, path: &str) -> (r: bool)
        ensures
            r == self@.pending.contains(path@),
    {
        holds(&self.pending, path)
    }

    fn add_pending(&mut self, path: String)
        ensures
            final(self)@ == (ThumbModel { pending: old(self)@.pending.insert(path@), ..old(self)@ }),
    {
        let ghost p = views(self.pending@);
        self.pending.push(path);
        assert(views(self.pending@) == p.push(path@));
    }

    fn prewarm_with(&mut self, next: Option<String>, next_is_video: bool, decode: &mut Vec<String>)
        ensures
            ({
                let (s, d) = old(self)@.prewarm(
                    match next { Some(n) => Some(n@), None => None },
                    next_is_video,
                );
                &&& final(self)@ == s
                &&& views(final(decode)@) == views(old(decode)@) + d
            }),
    {
        match next {
            Some(n) => {
                if self.is_cached(n.as_str()) || self.is_pending(n.as_str()) || next_is_video {
                    return;
                }
                let ghost d = views(decode@);
                decode.push(n.clone());
                assert(views(decode@) == d.push(n@));
                self.add_pending(n);
            },
            None => {},
        }
    }

    /// The plan for the current track and the following one, given whether
    /// each is a video.
    pub fn plan_with(
        &mut self,
        current_is_video: bool,
        current: Option<String>,
        next: Option<String>,
        next_is_video: bool,
    ) -> (r: ThumbPlan)
        ensures
            (final(self)@, backdrop_view(r.backdrop), views(r.decode@)) == old(self)@.plan(
                current_is_video,
                match current { Some(c) => Some(c@), None => None },
                match next { Some(n) => Some(n@), None => None },
                next_is_video,
            ),
    {
        let mut decode: Vec<String> = Vec::new();
        if current_is_video {
            return ThumbPlan { backdrop: Backdrop::Clear, decode };
        }
        match current {
            None => ThumbPlan { backdrop: Backdrop::Clear, decode },
            Some(c) => {
                if self.is_cached(c.as_str()) {
                    self.prewarm_with(next, next_is_video, &mut decode);
                    return ThumbPlan { backdrop: Backdrop::ShowCached(c), decode };
                }
                if self.is_pending(c.as_str()) {
                    return ThumbPlan { backdrop: Backdrop::Keep, decode };
                }
                decode.push(c.clone());
                self.add_pending(c);
                self.prewarm_with(next, next_is_video, &mut decode);
                ThumbPlan { backdrop: Backdrop::Keep, decode }
            },
        }
    }

    /// The plan for the music player's current and next tracks.
    pub fn plan(&mut self, player: &MusicPlayer) -> (r: ThumbPlan)
        ensures
            exists|cv: bool, nv: bool|
                {
                    &&& cv ==> player@.current_may_be_video()
                    &&& player@.current_plainly_video() ==> cv
                    &&& player@.current_plainly_audio() ==> !cv
                    &&& nv ==> (player@.next_path() matches Some(n) && may_be_video(n))
                    &&& player@.next_path() matches Some(n) ==> (plain_file_name(n) ==> nv == named_video(n))
                    &&& (final(self)@, backdrop_view(r.backdrop), views(r.decode@))
                        == #[trigger] old(self)@.plan(cv, player@.current(), player@.next_path(), nv)
                },
    {
        let cv = player.current_file_is_video();
        let current = player.current_file_path();
        let next = player.next_file_path();
        let nv = match &next {
            Some(n) => is_video_path(n.as_str()),
            None => false,
        };
        self.plan_with(cv, current, next, nv)
    }

    /// Records that the picture of `path` was decoded (or found missing); it
    /// is to be shown at once when `path` is the current track.
    pub fn received(&mut self, path: String, current: Option<String>) -> (show: bool)
        ensures
            final(self)@.pending == old(self)@.pending.remove(path@),
            final(self)@.cached == old(self)@.cached.insert(path@),
            show == (current matches Some(c) && c@ == path@),
    {
        remove_all(&mut self.pending, path.as_str());
        let show = match &current {
            Some(c) => str_eq(c.as_str(), path.as_str()),
            None => false,
        };
        let ghost cv = views(self.cached@);
        self.cached.push(path);
        proof {
            assert(views(self.cached@) == cv.push(path@));
            assert(views(self.cached@).to_set() == cv.to_set().insert(path@));
        }
        show
    }
}

/// A plan never starts decoding a picture that is cached or already under
/// way, and every decoding it starts is then under way.
pub proof fn lemma_plan_never_decodes_twice(
    m: ThumbModel,
    current_is_video: bool,
    current: Option<Seq<char>>,
    next: Option<Seq<char>>,
    next_is_video: bool,
)
    ensures
        ({
            let (m2, _, d) = m.plan(current_is_video, current, next, next_is_video);
            &&& forall|i: int| 0 <= i < d.len() ==> !m.cached.contains(#[trigger] d[i]) && !m.pending.contains(d[i])
            &&& forall|i: int| 0 <= i < d.len() ==> m2.pending.contains(#[trigger] d[i])
            &&& m2.cached == m.cached
            &&& forall|p: Seq<char>| m.pending.contains(p) ==> m2.pending.contains(p)
        }),
{
}

/// A cached picture is shown without being decoded again.
pub proof fn lemma_cached_picture_is_shown(
    m: ThumbModel,
    c: Seq<char>,
    next: Option<Seq<char>>,
    next_is_video: bool,
)
    requires
        m.cached.contains(c),
    ensures
        m.plan(false, Some(c), next, next_is_video).1 == BackdropModel::ShowCached(c),
        !m.plan(false, Some(c), next, next_is_video).2.contains(c),
{
    let d = m.plan(false, Some(c), next, next_is_video).2;
    assert forall|i: int| 0 <= i < d.len() implies d[i] != c by {}
}

} // verus!
