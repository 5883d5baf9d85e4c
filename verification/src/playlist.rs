//! The playlist of a music folder: its order, the track under the cursor,
//! moving between tracks, and where each track was left off.
//!
//! Audio output is not done here. The methods that start, pause or stop
//! playback take what the audio device reported (the position at which the
//! current track stood, whether a track could be opened) and say what the
//! device should do next.

use std::collections::HashMap;
use rand::Rng;
use vstd::prelude::*;
use crate::media::{is_video_path, may_be_video, named_video, plain_file_name};
use crate::text::{chars_le, chars_le_exec, chars_of, lemma_chars_le_total, lemma_chars_le_transitive};

verus! {

broadcast use vstd::std_specs::hash::group_hash_axioms;

/// Calls `rand::thread_rng().gen_range(0..n)`. As rand documents, the result
/// lies in `0..n`; which value comes is left to chance. `gen_range` panics on
/// an empty range, hence `n > 0`.
#[verifier::external_body]
fn random_below(n: usize) -> (r: usize)
    requires
        n > 0,
    ensures
        r < n,
{
    rand::thread_rng().gen_range(0..n)
}

/// The views of a sequence of strings.
pub open spec fn views(s: Seq<String>) -> Seq<Seq<char>> {
    s.map_values(|x: String| x@)
}

/// Every path comes no later than the paths after it.
pub open spec fn sorted_paths(s: Seq<Seq<char>>) -> bool {
    forall|a: int, b: int| 0 <= a < b < s.len() ==> chars_le(#[trigger] s[a], #[trigger] s[b])
}

/// The paths in lexicographic order of their characters (for paths in one
/// folder, the order of their file names' bytes).
pub fn sort_paths(paths: &Vec<String>) -> (r: Vec<String>)
    ensures
        sorted_paths(views(r@)),
        views(r@).to_multiset() == views(paths@).to_multiset(),
{
    broadcast use vstd::seq_lib::to_multiset_build, vstd::seq_lib::to_multiset_insert;

    let mut sorted: Vec<String> = Vec::new();
    let mut i: usize = 0;
    assert(paths@.take(0) == Seq::<String>::empty());
    while i < paths.len()
        invariant
            i <= paths.len(),
            sorted_paths(views(sorted@)),
            views(sorted@).to_multiset() == views(paths@.take(i as int)).to_multiset(),
        decreases paths.len() - i,
    {
        let x = paths[i].clone();
        let xc = chars_of(x.as_str());
        let mut k: usize = 0;
        while k < sorted.len() && chars_le_exec(&chars_of(sorted[k].as_str()), &xc)
            invariant
                k <= sorted.len(),
                xc@ == x@,
                forall|a: int| 0 <= a < k ==> chars_le(#[trigger] sorted@[a]@, x@),
            decreases sorted.len() - k,
        {
            k += 1;
        }
        let ghost old_sorted = sorted@;
        let ghost vo = views(old_sorted);
        proof {
            assert forall|a: int| 0 <= a < vo.len() implies vo[a] == #[trigger] old_sorted[a]@ by {}
            if k < old_sorted.len() {
                lemma_chars_le_total(vo[k as int], x@);
            }
            assert forall|b: int| k <= b < vo.len() implies chars_le(x@, #[trigger] vo[b]) by {
                if b > k {
                    assert(chars_le(vo[k as int], vo[b]));
                    lemma_chars_le_transitive(x@, vo[k as int], vo[b]);
                }
            }
        }
        sorted.insert(k, x);
        proof {
            let vn = views(sorted@);
            assert(vn == vo.insert(k as int, x@));
            assert(views(paths@.take(i + 1)) == views(paths@.take(i as int)).push(paths@[i as int]@));
            vstd::seq_lib::to_multiset_insert(vo, k as int, x@);
            vstd::seq_lib::to_multiset_build(views(paths@.take(i as int)), x@);
            assert forall|a: int, b: int| 0 <= a < b < vn.len() implies chars_le(#[trigger] vn[a], #[trigger] vn[b]) by {
                if a < k && b == k {
                    assert(vn[a] == vo[a]);
                } else if a < k && b > k {
                    assert(vn[a] == vo[a] && vn[b] == vo[b - 1]);
                    lemma_chars_le_transitive(vn[a], x@, vn[b]);
                } else if a == k {
                    assert(vn[b] == vo[b - 1]);
                } else if a > k {
                    assert(vn[a] == vo[a - 1] && vn[b] == vo[b - 1]);
                } else {
                    assert(vn[a] == vo[a] && vn[b] == vo[b]);
                }
            }
        }
        i += 1;
    }
    assert(paths@.take(paths.len() as int) == paths@);
    sorted
}

/// How playback of the track under the cursor should begin.
#[derive(PartialEq, Eq, Debug)]
pub enum PlayPlan {
    /// Nothing to play: the playlist is empty or the track is a video.
    Skip,
    /// The open track carries on from where the device holds it.
    Resume,
    /// The track at `path` is to be opened and, if `seek_to` holds a position
    /// in nanoseconds, played from there.
    Open { path: String, seek_to: Option<u128> },
}

/// What a move to another track did.
#[derive(PartialEq, Eq, Debug, Clone, Copy)]
pub enum TrackChange {
    /// The playlist is empty; nothing changed.
    Unchanged,
    /// The cursor moved; the old track is to be stopped, and the new one
    /// played if `replay` holds.
    Changed { replay: bool },
}

/// The state of a music player.
pub ghost struct PlayerModel {
    pub files: Seq<Seq<char>>,
    pub index: usize,
    pub playing: bool,
    pub shuffle: bool,
    pub positions: Map<usize, u128>,
    pub track_duration: Option<u128>,
}

impl PlayerModel {
    /// The cursor is on a track, or the playlist is empty.
    pub open spec fn cursor_ok(self) -> bool {
        self.files.len() == 0 || self.index < self.files.len()
    }

    /// The track under the cursor, if the cursor is on one.
    pub open spec fn current(self) -> Option<Seq<char>> {
        if self.index < self.files.len() {
            Some(self.files[self.index as int])
        } else {
            None
        }
    }

    /// The track under the cursor may be a video file.
    pub open spec fn current_may_be_video(self) -> bool {
        self.current() matches Some(p) && may_be_video(p)
    }

    /// The track under the cursor has a plain file name (see
    /// `plain_file_name`), and its extension is a video format's.
    pub open spec fn current_plainly_video(self) -> bool {
        self.current() matches Some(p) && plain_file_name(p) && named_video(p)
    }

    /// The track under the cursor has a plain file name, and it does not name
    /// a video file.
    pub open spec fn current_plainly_audio(self) -> bool {
        self.current() matches Some(p) && plain_file_name(p) && !named_video(p)
    }

    /// The track after the cursor, when there are at least two.
    pub open spec fn next_path(self) -> Option<Seq<char>> {
        if self.files.len() < 2 {
            None
        } else {
            Some(self.files[((self.index + 1) % (self.files.len() as int))])
        }
    }

    /// The state once playback has stopped with the device at `position`
    /// (`None` when no track was open).
    pub open spec fn stopped(self, position: Option<u128>) -> PlayerModel {
        PlayerModel {
            positions: match position {
                Some(p) => self.positions.insert(self.index, p),
                None => self.positions,
            },
            track_duration: None,
            playing: false,
            ..self
        }
    }

    /// The state once playback has paused with the device at `position`.
    pub open spec fn paused(self, position: Option<u128>) -> PlayerModel {
        PlayerModel {
            positions: match position {
                Some(p) => self.positions.insert(self.index, p),
                None => self.positions,
            },
            playing: false,
            ..self
        }
    }

    /// The index the cursor moves to on "next": a random other track drawn as
    /// `draw` when shuffling among two or more tracks, else the following
    /// track, wrapping around.
    pub open spec fn next_index(self, draw: usize) -> usize {
        let n = self.files.len() as int;
        if self.shuffle && n > 1 {
            if draw == self.index {
                ((draw + 1) % n) as usize
            } else {
                draw
            }
        } else {
            ((self.index + 1) % n) as usize
        }
    }

    /// The index the cursor moves to on "previous": the preceding track,
    /// wrapping around.
    pub open spec fn prev_index(self) -> usize {
        if self.index == 0 {
            (self.files.len() - 1) as usize
        } else {
            (self.index - 1) as usize
        }
    }

    /// The state after a move to track `to`, the old track having stopped at
    /// `position`: the old track's resume point is forgotten.
    pub open spec fn moved(self, position: Option<u128>, to: usize) -> PlayerModel {
        let s = self.stopped(position);
        PlayerModel { positions: s.positions.remove(self.index), index: to, ..s }
    }
}

/// The index after `i` among `n`, wrapping around.
proof fn lemma_succ_mod(i: int, n: int)
    requires
        0 <= i < n,
    ensures
        (i + 1) % n == if i + 1 < n { i + 1 } else { 0 },
{
    if i + 1 < n {
        vstd::arithmetic::div_mod::lemma_small_mod((i + 1) as nat, n as nat);
    } else {
        vstd::arithmetic::div_mod::lemma_mod_self_0(n);
    }
}

/// Without shuffle, "previous" undoes "next": the cursor is back on the track
/// it left.
pub proof fn lemma_prev_undoes_next(m: PlayerModel, p1: Option<u128>, p2: Option<u128>, draw: usize)
    requires
        m.files.len() <= usize::MAX,
        !m.shuffle,
        m.files.len() > 0,
        m.index < m.files.len(),
    ensures
        m.moved(p1, m.next_index(draw)).moved(p2, m.moved(p1, m.next_index(draw)).prev_index()).index
            == m.index,
{
    let n = m.files.len() as int;
    lemma_succ_mod(m.index as int, n);
    assert(m.next_index(draw) == ((m.index + 1) % n) as usize);
}

/// "Next" undoes "previous", shuffle or not, as long as the shuffle does not
/// come into play (a single track, or shuffle off).
pub proof fn lemma_next_undoes_prev(m: PlayerModel, p1: Option<u128>, p2: Option<u128>, draw: usize)
    requires
        m.files.len() <= usize::MAX,
        !m.shuffle || m.files.len() == 1,
        m.files.len() > 0,
        m.index < m.files.len(),
    ensures
        m.moved(p1, m.prev_index()).moved(p2, m.moved(p1, m.prev_index()).next_index(draw)).index
            == m.index,
{
    let n = m.files.len() as int;
    let p = m.prev_index();
    lemma_succ_mod(p as int, n);
    assert(m.moved(p1, p).next_index(draw) == ((p + 1) % n) as usize);
}

/// Moving never takes the cursor off the playlist.
pub proof fn lemma_moves_stay_on_a_track(m: PlayerModel, draw: usize)
    requires
        m.files.len() <= usize::MAX,
        m.files.len() > 0,
        m.index < m.files.len(),
        draw < m.files.len(),
    ensures
        m.next_index(draw) < m.files.len(),
        m.prev_index() < m.files.len(),
{
    lemma_succ_mod(draw as int, m.files.len() as int);
    lemma_succ_mod(m.index as int, m.files.len() as int);
}

/// Shuffling among two or more tracks never picks the track just left.
pub proof fn lemma_shuffle_moves_to_another_track(m: PlayerModel, draw: usize)
    requires
        m.files.len() <= usize::MAX,
        m.shuffle,
        m.files.len() > 1,
        m.index < m.files.len(),
        draw < m.files.len(),
    ensures
        m.next_index(draw) != m.index,
{
    lemma_succ_mod(draw as int, m.files.len() as int);
    let n = m.files.len() as int;
    assert(((draw + 1) % n) == if draw + 1 < n { draw + 1 } else { 0 });
    if draw == m.index {
        assert(m.next_index(draw) == ((draw + 1) % n) as usize);
    }
}

/// Without shuffle, "next" lands on the track that `next_file_path` names.
pub proof fn lemma_next_path_is_next_track(m: PlayerModel, position: Option<u128>, draw: usize)
    requires
        m.files.len() <= usize::MAX,
        !m.shuffle,
        m.files.len() >= 2,
    ensures
        m.moved(position, m.next_index(draw)).current() == m.next_path(),
{
    let n = m.files.len() as int;
    assert(m.next_index(draw) == ((m.index + 1) % n) as usize);
    assert(0 <= (m.index + 1) % n < n) by {
        vstd::arithmetic::div_mod::lemma_mod_bound((m.index + 1) as int, n);
    }
}

/// A track paused or stopped at a position resumes from that position: the
/// next `play_plan` for it seeks there.
pub proof fn lemma_pause_and_stop_keep_the_position(m: PlayerModel, p: u128)
    ensures
        m.paused(Some(p)).positions.contains_key(m.index),
        m.paused(Some(p)).positions[m.index] == p,
        m.stopped(Some(p)).positions.contains_key(m.index),
        m.stopped(Some(p)).positions[m.index] == p,
        m.paused(Some(p)).index == m.index,
        m.stopped(Some(p)).index == m.index,
{
}

/// Leaving a track forgets where it was left off: it starts from the
/// beginning when the cursor comes back to it.
pub proof fn lemma_move_forgets_the_old_position(m: PlayerModel, position: Option<u128>, to: usize)
    ensures
        !m.moved(position, to).positions.contains_key(m.index),
        !m.moved(position, to).playing,
{
}

pub struct MusicPlayer {
    files: Vec<String>,
    current_index: usize,
    is_playing: bool,
    saved_positions: HashMap<usize, u128>,
    shuffle: bool,
    track_duration: Option<u128>,
}

impl View for MusicPlayer {
    type V = PlayerModel;

    closed spec fn view(&self) -> PlayerModel {
        PlayerModel {
            files: views(self.files@),
            index: self.current_index,
            playing: self.is_playing,
            shuffle: self.shuffle,
            positions: self.saved_positions@,
            track_duration: self.track_duration,
        }
    }
}

impl MusicPlayer {
    /// A playlist held in memory is never longer than `usize::MAX`.
    pub proof fn lemma_files_fit(&self)
        ensures
            self@.files.len() <= usize::MAX,
    {
        assert(self.files@.len() == self.files.len());
    }

    /// An empty player, stopped, not shuffling.
    pub fn new() -> (p: MusicPlayer)
        ensures
            p@.files.len() == 0,
            p@.index == 0,
            !p@.playing,
            !p@.shuffle,
            p@.positions == Map::<usize, u128>::empty(),
            p@.track_duration is None,
    {
        MusicPlayer {
            files: Vec::new(),
            current_index: 0,
            is_playing: false,
            saved_positions: HashMap::new(),
            shuffle: false,
            track_duration: None,
        }
    }

    /// Takes the files found in a music folder as the playlist, in sorted
    /// order. The cursor, the resume points and the playing state are kept.
    pub fn load_dir(&mut self, paths: Vec<String>)
        ensures
            sorted_paths(final(self)@.files),
            final(self)@.files.to_multiset() == views(paths@).to_multiset(),
            final(self)@ == (PlayerModel { files: final(self)@.files, ..old(self)@ }),
    {
        self.files = sort_paths(&paths);
    }

    /// Whether the player counts as playing.
    pub fn is_playing(&self) -> (r: bool)
        ensures
            r == self@.playing,
    {
        self.is_playing
    }

    /// Whether "next" picks a random track.
    pub fn shuffle(&self) -> (r: bool)
        ensures
            r == self@.shuffle,
    {
        self.shuffle
    }

    /// Turns random picking on "next" on or off.
    pub fn set_shuffle(&mut self, on: bool)
        ensures
            final(self)@ == (PlayerModel { shuffle: on, ..old(self)@ }),
    {
        self.shuffle = on;
    }

    pub fn is_empty(&self) -> (r: bool)
        ensures
            r == (self@.files.len() == 0),
    {
        self.files.len() == 0
    }

    /// Index of the track under the cursor.
    pub fn current_index(&self) -> (r: usize)
        ensures
            r == self@.index,
    {
        self.current_index
    }

    /// Length of the open track in nanoseconds, when known.
    pub fn track_duration(&self) -> (r: Option<u128>)
        ensures
            r == self@.track_duration,
    {
        self.track_duration
    }

    /// The track under the cursor.
    pub fn current_file_path(&self) -> (r: Option<String>)
        ensures
            r matches Some(s) ==> self@.current() == Some(s@),
            r is None ==> self@.current() is None,
    {
        if self.current_index < self.files.len() {
            Some(self.files[self.current_index].clone())
        } else {
            None
        }
    }

    /// The track after the cursor, without moving it; `None` when there are
    /// fewer than two tracks.
    pub fn next_file_path(&self) -> (r: Option<String>)
        ensures
            r matches Some(s) ==> self@.next_path() == Some(s@),
            r is None ==> self@.next_path() is None,
    {
        let n = self.files.len();
        if n < 2 {
            return None;
        }
        let idx = ((self.current_index as u128 + 1) % (n as u128)) as usize;
        Some(self.files[idx].clone())
    }

    /// Whether the track under the cursor is a video file.
    pub fn current_file_is_video(&self) -> (r: bool)
        ensures
            r ==> self@.current_may_be_video(),
            self@.current() is None ==> !r,
            self@.current() matches Some(p) && !p.contains('.') ==> !r,
            self@.current_plainly_video() ==> r,
            self@.current_plainly_audio() ==> !r,
    {
        if self.current_index < self.files.len() {
            is_video_path(self.files[self.current_index].as_str())
        } else {
            false
        }
    }

    /// How playback should begin, given whether the device holds an open
    /// track for this player.
    pub fn play_plan(&self, has_open_track: bool) -> (r: PlayPlan)
        requires
            self@.files.len() == 0 || has_open_track || self@.index < self@.files.len(),
        ensures
            r is Skip ==> self@.files.len() == 0 || self@.current_may_be_video(),
            (self@.files.len() == 0 || self@.current_plainly_video()) ==> r is Skip,
            (self@.files.len() > 0 && (!self@.current_may_be_video() || self@.current_plainly_audio()))
                ==> !(r is Skip),
            r is Resume <==> (!(r is Skip) && has_open_track),
            r matches PlayPlan::Open { path, seek_to } ==> {
                &&& !has_open_track
                &&& self@.index < self@.files.len()
                &&& path@ == self@.files[self@.index as int]
                &&& seek_to == (if self@.positions.contains_key(self@.index) {
                    Some(self@.positions[self@.index])
                } else {
                    None
                })
            },
    {
        if self.files.len() == 0 || self.current_file_is_video() {
            return PlayPlan::Skip;
        }
        if has_open_track {
            return PlayPlan::Resume;
        }
        let seek_to = match self.saved_positions.get(&self.current_index) {
            Some(p) => Some(*p),
            None => None,
        };
        PlayPlan::Open { path: self.files[self.current_index].clone(), seek_to }
    }

    /// Records that the track under the cursor was opened and is playing;
    /// `duration` is its length in nanoseconds if it could be read. A length
    /// of zero counts as unknown.
    pub fn opened(&mut self, duration: Option<u128>)
        ensures
            final(self)@ == (PlayerModel {
                playing: true,
                track_duration: match duration {
                    Some(d) => if d == 0 { None } else { Some(d) },
                    None => None,
                },
                ..old(self)@
            }),
    {
        self.track_duration = match duration {
            Some(d) => if d == 0 { None } else { Some(d) },
            None => None,
        };
        self.is_playing = true;
    }

    /// Records that the open track carries on playing.
    pub fn resumed(&mut self)
        ensures
            final(self)@ == (PlayerModel { playing: true, ..old(self)@ }),
    {
        self.is_playing = true;
    }

    /// Records a pause; `position` is where the open track stood, `None` if
    /// no track was open.
    pub fn pause(&mut self, position: Option<u128>)
        ensures
            final(self)@ == old(self)@.paused(position),
    {
        if let Some(p) = position {
            self.saved_positions.insert(self.current_index, p);
        }
        self.is_playing = false;
    }

    /// Records a stop; `position` is where the open track stood, `None` if no
    /// track was open. The device is to close the track.
    pub fn stop(&mut self, position: Option<u128>)
        ensures
            final(self)@ == old(self)@.stopped(position),
    {
        if let Some(p) = position {
            self.saved_positions.insert(self.current_index, p);
        }
        self.track_duration = None;
        self.is_playing = false;
    }

    /// Moves to the next track, `draw` being the random pick used when
    /// shuffling; `position` is where the open track stood.
    pub fn next_track_with(&mut self, position: Option<u128>, draw: usize) -> (r: TrackChange)
        requires
            old(self)@.files.len() > 0 ==> draw < old(self)@.files.len(),
        ensures
            old(self)@.files.len() == 0 ==> r == TrackChange::Unchanged && final(self)@ == old(self)@,
            old(self)@.files.len() > 0 ==> {
                &&& final(self)@ == old(self)@.moved(position, old(self)@.next_index(draw))
                &&& r is Changed
                &&& r->replay ==> old(self)@.playing
                &&& (old(self)@.playing && final(self)@.current() is Some
                    && !final(self)@.current_may_be_video()) ==> r->replay
                &&& final(self)@.current_plainly_video() ==> !r->replay
                &&& (old(self)@.playing && final(self)@.current_plainly_audio()) ==> r->replay
            },
    {
        let n = self.files.len();
        if n == 0 {
            return TrackChange::Unchanged;
        }
        let was_playing = self.is_playing;
        let old_index = self.current_index;
        self.stop(position);
        self.saved_positions.remove(&old_index);
        if self.shuffle && n > 1 {
            let next = if draw == old_index { (draw + 1) % n } else { draw };
            self.current_index = next;
        } else {
            self.current_index = ((self.current_index as u128 + 1) % (n as u128)) as usize;
        }
        let replay = was_playing && !self.current_file_is_video();
        TrackChange::Changed { replay }
    }

    /// Moves to the next track, picking a random other one when shuffling.
    pub fn next_track(&mut self, position: Option<u128>) -> (r: TrackChange)
        ensures
            old(self)@.files.len() == 0 ==> r == TrackChange::Unchanged && final(self)@ == old(self)@,
            old(self)@.files.len() > 0 ==> {
                &&& exists|draw: usize| draw < old(self)@.files.len()
                    && final(self)@ == #[trigger] old(self)@.moved(position, old(self)@.next_index(draw))
                &&& r is Changed
                &&& r->replay ==> old(self)@.playing
                &&& (old(self)@.playing && final(self)@.current() is Some
                    && !final(self)@.current_may_be_video()) ==> r->replay
                &&& final(self)@.current_plainly_video() ==> !r->replay
                &&& (old(self)@.playing && final(self)@.current_plainly_audio()) ==> r->replay
            },
    {
        let n = self.files.len();
        let draw = if self.shuffle && n > 1 { random_below(n) } else { 0 };
        self.next_track_with(position, draw)
    }

    /// Moves to the previous track, wrapping around; `position` is where the
    /// open track stood.
    pub fn prev_track(&mut self, position: Option<u128>) -> (r: TrackChange)
        ensures
            old(self)@.files.len() == 0 ==> r == TrackChange::Unchanged && final(self)@ == old(self)@,
            old(self)@.files.len() > 0 ==> {
                &&& final(self)@ == old(self)@.moved(position, old(self)@.prev_index())
                &&& r is Changed
                &&& r->replay ==> old(self)@.playing
                &&& (old(self)@.playing && final(self)@.current() is Some
                    && !final(self)@.current_may_be_video()) ==> r->replay
                &&& final(self)@.current_plainly_video() ==> !r->replay
                &&& (old(self)@.playing && final(self)@.current_plainly_audio()) ==> r->replay
            },
    {
        let n = self.files.len();
        if n == 0 {
            return TrackChange::Unchanged;
        }
        let was_playing = self.is_playing;
        let old_index = self.current_index;
        self.stop(position);
        self.saved_positions.remove(&old_index);
        self.current_index = if self.current_index == 0 { n - 1 } else { self.current_index - 1 };
        let replay = was_playing && !self.current_file_is_video();
        TrackChange::Changed { replay }
    }
}

} // verus!
