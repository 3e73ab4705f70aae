//! The playlist: an ordered list of track paths with a single movable cursor.
//!
//! Tracks are added either as single files or as the flattened contents of a
//! directory; only paths whose extension is on the audio allow-list are kept.
//! The cursor advances with `next`, which runs off the end (resetting to
//! nothing), and retreats with `previous`, which clamps at the first track.

use vstd::prelude::*;
use vstd::string::*;

verus! {

/// ASCII-lowercase of one character; anything but 'A'..='Z' is unchanged.
pub open spec fn lower_char(c: char) -> char {
    if 65 <= c as u32 && c as u32 <= 90 {
        (((c as u32) + 32) as u8) as char
    } else {
        c
    }
}

/// Character-wise ASCII-lowercase of a sequence.
pub open spec fn lower_seq(s: Seq<char>) -> Seq<char> {
    s.map_values(|c: char| lower_char(c))
}

/// The index of the last occurrence of `c` in `s`, or -1 if `c` is absent.
pub open spec fn last_index_of(s: Seq<char>, c: char) -> int
    decreases s.len(),
{
    if s.len() == 0 {
        -1
    } else if s.last() == c {
        s.len() - 1
    } else {
        last_index_of(s.drop_last(), c)
    }
}

/// The extension of a path: what follows the last '.' of its file name
/// (the part after the last '/'), unless that '.' is missing or leads the
/// file name — a dotfile has no extension.
pub open spec fn extension_of(s: Seq<char>) -> Option<Seq<char>> {
    let sl = last_index_of(s, '/');
    let d = last_index_of(s, '.');
    if d > sl + 1 {
        Some(s.subrange(d + 1, s.len() as int))
    } else {
        None
    }
}

/// The fixed allow-list of audio file extensions, in lower case.
pub open spec fn audio_extensions() -> Seq<Seq<char>> {
    seq![
        "mp3"@,
        "flac"@,
        "wav"@,
        "ogg"@,
        "opus"@,
        "m4a"@,
        "aac"@,
        "wma"@,
        "ape"@,
        "aiff"@,
    ]
}

/// Whether a path names an eligible audio resource: its extension,
/// lowercased, is on the allow-list.
pub open spec fn is_audio_path(s: Seq<char>) -> bool {
    match extension_of(s) {
        Some(e) => audio_extensions().contains(lower_seq(e)),
        None => false,
    }
}

/// The index of the last occurrence of `c` in `path`, if any.
fn find_last(path: &str, c: char) -> (r: Option<usize>)
    ensures
        match r {
            Some(i) => i == last_index_of(path@, c) && i < path@.len(),
            None => last_index_of(path@, c) == -1,
        },
{
    let n = path.unicode_len();
    let mut i = n;
    assert(path@.subrange(0, n as int) =~= path@);
    while i > 0
        invariant
            i <= n,
            n == path@.len(),
            last_index_of(path@, c) == last_index_of(path@.subrange(0, i as int), c),
        decreases i,
    {
        let ch = path.get_char(i - 1);
        proof {
            assert(path@.subrange(0, i as int).last() == path@[i - 1]);
            assert(path@.subrange(0, i as int).drop_last() =~= path@.subrange(0, i - 1));
        }
        if ch == c {
            return Some(i - 1);
        }
        i = i - 1;
    }
    None
}

/// Whether the suffix of `path` starting at `from`, ASCII-lowercased,
/// equals `lit` (a lower-case literal).
fn suffix_matches_lower(path: &str, from: usize, lit: &str) -> (b: bool)
    requires
        from <= path@.len(),
    ensures
        b == (lower_seq(path@.subrange(from as int, path@.len() as int)) == lit@),
{
    let n = path.unicode_len();
    let m = n - from;
    let ghost suffix = path@.subrange(from as int, path@.len() as int);
    assert(lower_seq(suffix).len() == m);
    if lit.unicode_len() != m {
        assert(lower_seq(suffix) != lit@);
        return false;
    }
    let mut j: usize = 0;
    while j < m
        invariant
            j <= m,
            m == n - from,
            from <= n,
            n == path@.len(),
            m == lit@.len(),
            suffix == path@.subrange(from as int, path@.len() as int),
            forall|k: int| 0 <= k < j ==> lower_char(suffix[k]) == lit@[k],
        decreases m - j,
    {
        let cs = path.get_char(from + j);
        let cl = lit.get_char(j);
        let cu = cs as u32;
        let lowered: char = if 65 <= cu && cu <= 90 {
            ((cu + 32) as u8) as char
        } else {
            cs
        };
        assert(lowered == lower_char(suffix[j as int]));
        if lowered != cl {
            assert(lower_seq(suffix)[j as int] != lit@[j as int]);
            return false;
        }
        j = j + 1;
    }
    assert(lower_seq(suffix) =~= lit@);
    true
}

/// Whether `path` names an eligible audio resource: its extension
/// (after the last '.' of the file name, which must not lead it),
/// lowercased, is one of the fixed audio extensions.
pub fn is_audio_file(path: &str) -> (b: bool)
    ensures
        b == is_audio_path(path@),
{
    let n = path.unicode_len();
    let slash = find_last(path, '/');
    let dot = find_last(path, '.');
    let ext_start: usize = match dot {
        None => {
            return false;
        },
        Some(d) => {
            let has_ext = match slash {
                Some(sl) => d > sl + 1,
                None => d > 0,
            };
            if !has_ext {
                return false;
            }
            d + 1
        },
    };
    let ghost ext = path@.subrange(ext_start as int, path@.len() as int);
    assert(extension_of(path@) == Some(ext));
    let lits = ["mp3", "flac", "wav", "ogg", "opus", "m4a", "aac", "wma", "ape", "aiff"];
    let mut k: usize = 0;
    while k < 10
        invariant
            k <= 10,
            ext_start <= path@.len(),
            ext == path@.subrange(ext_start as int, path@.len() as int),
            extension_of(path@) == Some(ext),
            lits@.len() == 10,
            forall|t: int| 0 <= t < 10 ==> lits@[t]@ == audio_extensions()[t],
            forall|t: int| 0 <= t < k ==> lower_seq(ext) != audio_extensions()[t],
        decreases 10 - k,
    {
        if suffix_matches_lower(path, ext_start, lits[k]) {
            assert(audio_extensions()[k as int] == lower_seq(ext));
            assert(audio_extensions().contains(lower_seq(ext)));
            return true;
        }
        k = k + 1;
    }
    assert(forall|t: int| 0 <= t < audio_extensions().len()
        ==> audio_extensions()[t] != lower_seq(ext));
    assert(!audio_extensions().contains(lower_seq(ext)));
    false
}

/// What a path argument turned out to name on disk: a single file, a
/// directory (flattened to the files found under it, in traversal order),
/// or nothing that exists.
#[derive(Debug, Clone, PartialEq)]
pub enum MediaEntry {
    File(String),
    Dir(Vec<String>),
    Missing,
}

/// The eligible files among `files`, in order.
pub open spec fn audio_only(files: Seq<Seq<char>>) -> Seq<Seq<char>>
    decreases files.len(),
{
    if files.len() == 0 {
        Seq::empty()
    } else {
        audio_only(files.drop_last()) + if is_audio_path(files.last()) {
            seq![files.last()]
        } else {
            Seq::empty()
        }
    }
}

/// The tracks one resolved path contributes to the playlist: an eligible
/// file itself, or the eligible files found under a directory, in order.
pub open spec fn added_tracks(e: MediaEntry) -> Seq<Seq<char>> {
    match e {
        MediaEntry::File(p) => if is_audio_path(p@) {
            seq![p@]
        } else {
            Seq::empty()
        },
        MediaEntry::Dir(files) => audio_only(files.deep_view()),
        MediaEntry::Missing => Seq::empty(),
    }
}

/// The tracks a whole argument list contributes, in order.
pub open spec fn added_tracks_all(es: Seq<MediaEntry>) -> Seq<Seq<char>>
    decreases es.len(),
{
    if es.len() == 0 {
        Seq::empty()
    } else {
        added_tracks_all(es.drop_last()) + added_tracks(es.last())
    }
}

/// The playlist contents and cursor after adding the entries `es` one by
/// one to a playlist holding `tracks` with cursor `cur`: each addition
/// appends the entry's eligible files, and whenever exactly one track is
/// held afterwards the cursor is (re)set to it.
pub open spec fn playlist_after_adds(
    tracks: Seq<Seq<char>>,
    cur: Option<int>,
    es: Seq<MediaEntry>,
) -> (Seq<Seq<char>>, Option<int>)
    decreases es.len(),
{
    if es.len() == 0 {
        (tracks, cur)
    } else {
        let prev = playlist_after_adds(tracks, cur, es.drop_last());
        let t2 = prev.0 + added_tracks(es.last());
        (t2, if t2.len() == 1 { Some(0int) } else { prev.1 })
    }
}

/// The cursor after one `next` transition on a playlist of `n` tracks:
/// on an empty list nothing changes; from no cursor the first track is
/// selected; from the last track the cursor runs off the end and resets.
pub open spec fn next_cursor(n: int, cur: Option<int>) -> Option<int> {
    if n == 0 {
        cur
    } else {
        match cur {
            None => Some(0int),
            Some(i) => if i + 1 < n {
                Some(i + 1)
            } else {
                None
            },
        }
    }
}

/// The cursor after one `previous` transition on a playlist of `n`
/// tracks: on an empty list nothing changes; from no cursor the first
/// track is selected; at the first track the cursor clamps there.
pub open spec fn prev_cursor(n: int, cur: Option<int>) -> Option<int> {
    if n == 0 {
        cur
    } else {
        match cur {
            None => Some(0int),
            Some(i) => if i == 0 {
                Some(0int)
            } else {
                Some(i - 1)
            },
        }
    }
}

/// The track under a cursor, if the cursor is set.
pub open spec fn track_at(tracks: Seq<Seq<char>>, cur: Option<int>) -> Option<Seq<char>> {
    match cur {
        Some(i) => if 0 <= i < tracks.len() {
            Some(tracks[i])
        } else {
            None
        },
        None => None,
    }
}

/// An ordered list of track paths and an optional cursor into it.
///
/// The cursor, when present, always indexes an existing track.
#[derive(Debug, Clone)]
pub struct Playlist {
    tracks: Vec<String>,
    current_index: Option<usize>,
}

impl Playlist {
    /// The tracks, in order, as sequences of characters.
    pub closed spec fn spec_tracks(&self) -> Seq<Seq<char>> {
        self.tracks.deep_view()
    }

    /// The cursor as a mathematical index, if one is set.
    pub closed spec fn spec_cursor(&self) -> Option<int> {
        match self.current_index {
            Some(i) => Some(i as int),
            None => None,
        }
    }

    /// Well-formedness: the cursor, if present, is a valid index.
    pub open spec fn wf(&self) -> bool {
        match self.spec_cursor() {
            Some(i) => 0 <= i < self.spec_tracks().len(),
            None => true,
        }
    }

    /// A new playlist: no tracks, no cursor.
    pub fn new() -> (r: Self)
        ensures
            r.wf(),
            r.spec_tracks() == Seq::<Seq<char>>::empty(),
            r.spec_cursor() is None,
    {
        Self { tracks: Vec::new(), current_index: None }
    }

    /// How many tracks the playlist holds.
    pub fn len(&self) -> (n: usize)
        ensures
            n == self.spec_tracks().len(),
    {
        self.tracks.len()
    }

    /// Whether the playlist holds no tracks.
    pub fn is_empty(&self) -> (b: bool)
        ensures
            b == (self.spec_tracks().len() == 0),
    {
        self.tracks.is_empty()
    }

    /// Appends the eligible files of one resolved path argument, then, if
    /// the playlist now holds exactly one track, (re)sets the cursor to it.
    pub fn add_track(&mut self, entry: &MediaEntry)
        requires
            old(self).wf(),
        ensures
            final(self).wf(),
            final(self).spec_tracks() == old(self).spec_tracks() + added_tracks(*entry),
            final(self).spec_cursor() == if final(self).spec_tracks().len() == 1 {
                Some(0int)
            } else {
                old(self).spec_cursor()
            },
    {
        let ghost tracks0 = self.spec_tracks();
        match entry {
            MediaEntry::File(p) => {
                if is_audio_file(p.as_str()) {
                    self.tracks.push(p.clone());
                    assert(self.spec_tracks() =~= tracks0 + seq![p@]);
                } else {
                    assert(self.spec_tracks() =~= tracks0 + Seq::<Seq<char>>::empty());
                }
            },
            MediaEntry::Dir(files) => {
                let ghost fseq = files.deep_view();
                assert(fseq.subrange(0, 0) =~= Seq::empty());
                let mut i: usize = 0;
                while i < files.len()
                    invariant
                        i <= files.len(),
                        fseq == files.deep_view(),
                        self.spec_tracks() == tracks0 + audio_only(fseq.subrange(0, i as int)),
                        self.spec_cursor() == old(self).spec_cursor(),
                    decreases files.len() - i,
                {
                    proof {
                        assert(fseq.subrange(0, i + 1).drop_last() =~= fseq.subrange(0, i as int));
                        assert(fseq.subrange(0, i + 1).last() == fseq[i as int]);
                    }
                    let f = &files[i];
                    assert(f@ == fseq[i as int]);
                    let ghost before = self.spec_tracks();
                    if is_audio_file(f.as_str()) {
                        self.tracks.push(f.clone());
                        proof {
                            assert(self.spec_tracks().len() == before.len() + 1);
                            assert(forall|j: int|
                                0 <= j < before.len() ==> self.spec_tracks()[j] == before[j]);
                            assert(self.spec_tracks()[before.len() as int] == f@);
                        }
                    }
                    proof {
                        let lhs = self.spec_tracks();
                        let mid = audio_only(fseq.subrange(0, i as int));
                        let add1 = if is_audio_path(fseq[i as int]) {
                            seq![fseq[i as int]]
                        } else {
                            Seq::<Seq<char>>::empty()
                        };
                        assert(fseq.subrange(0, i + 1).drop_last() =~= fseq.subrange(0, i as int));
                        assert(audio_only(fseq.subrange(0, i + 1)) == mid + add1);
                        assert(tracks0 + audio_only(fseq.subrange(0, i + 1)) =~= (tracks0 + mid)
                            + add1);
                        assert(lhs =~= before + add1);
                        assert(lhs == tracks0 + audio_only(fseq.subrange(0, i + 1)));
                    }
                    i = i + 1;
                }
                assert(fseq.subrange(0, files.len() as int) =~= fseq);
            },
            MediaEntry::Missing => {
                assert(self.spec_tracks() =~= tracks0 + Seq::<Seq<char>>::empty());
            },
        }
        if self.tracks.len() == 1 {
            self.current_index = Some(0);
        }
    }

    /// Adds each resolved path argument in turn, as `add_track` does.
    pub fn add_tracks(&mut self, entries: &Vec<MediaEntry>)
        requires
            old(self).wf(),
        ensures
            final(self).wf(),
            (final(self).spec_tracks(), final(self).spec_cursor()) == playlist_after_adds(
                old(self).spec_tracks(),
                old(self).spec_cursor(),
                entries@,
            ),
            final(self).spec_tracks() == old(self).spec_tracks() + added_tracks_all(entries@),
    {
        let ghost tracks0 = old(self).spec_tracks();
        let ghost cur0 = old(self).spec_cursor();
        assert(entries@.subrange(0, 0) =~= Seq::<MediaEntry>::empty());
        let mut i: usize = 0;
        while i < entries.len()
            invariant
                i <= entries.len(),
                old(self).wf(),
                self.wf(),
                tracks0 == old(self).spec_tracks(),
                cur0 == old(self).spec_cursor(),
                (self.spec_tracks(), self.spec_cursor()) == playlist_after_adds(
                    tracks0,
                    cur0,
                    entries@.subrange(0, i as int),
                ),
            decreases entries.len() - i,
        {
            proof {
                assert(entries@.subrange(0, i + 1).drop_last() =~= entries@.subrange(0, i as int));
                assert(entries@.subrange(0, i + 1).last() == entries@[i as int]);
            }
            self.add_track(&entries[i]);
            i = i + 1;
        }
        assert(entries@.subrange(0, entries.len() as int) =~= entries@);
        proof {
            lemma_playlist_after_adds_tracks(tracks0, cur0, entries@);
        }
    }

    /// Empties the playlist and resets the cursor.
    pub fn clear(&mut self)
        ensures
            final(self).wf(),
            final(self).spec_tracks() == Seq::<Seq<char>>::empty(),
            final(self).spec_cursor() is None,
    {
        self.tracks.clear();
        self.current_index = None;
        assert(self.spec_tracks() =~= Seq::<Seq<char>>::empty());
    }

    /// Moves the cursor one track forward and returns the newly selected
    /// track. On an empty playlist nothing changes and nothing is
    /// returned; from no cursor the first track is selected; from the
    /// last track the cursor runs off the end, resets, and nothing is
    /// returned.
    pub fn next(&mut self) -> (r: Option<String>)
        requires
            old(self).wf(),
        ensures
            final(self).wf(),
            final(self).spec_tracks() == old(self).spec_tracks(),
            final(self).spec_cursor() == next_cursor(
                old(self).spec_tracks().len() as int,
                old(self).spec_cursor(),
            ),
            r.deep_view() == track_at(final(self).spec_tracks(), final(self).spec_cursor()),
    {
        let n = self.tracks.len();
        if n == 0 {
            return None;
        }
        let next_index: Option<usize> = match self.current_index {
            None => Some(0),
            Some(current) => {
                if current + 1 >= n {
                    None
                } else {
                    Some(current + 1)
                }
            },
        };
        self.current_index = next_index;
        match self.current_index {
            Some(i) => Some(self.tracks[i].clone()),
            None => None,
        }
    }

    /// Moves the cursor one track back and returns the newly selected
    /// track. On an empty playlist nothing changes and nothing is
    /// returned; from no cursor the first track is selected; at the
    /// first track the cursor stays put and that track is returned again.
    pub fn previous(&mut self) -> (r: Option<String>)
        requires
            old(self).wf(),
        ensures
            final(self).wf(),
            final(self).spec_tracks() == old(self).spec_tracks(),
            final(self).spec_cursor() == prev_cursor(
                old(self).spec_tracks().len() as int,
                old(self).spec_cursor(),
            ),
            r.deep_view() == track_at(final(self).spec_tracks(), final(self).spec_cursor()),
    {
        let n = self.tracks.len();
        if n == 0 {
            return None;
        }
        let prev_index: Option<usize> = match self.current_index {
            None => Some(0),
            Some(current) => {
                if current == 0 {
                    Some(0)
                } else {
                    Some(current - 1)
                }
            },
        };
        self.current_index = prev_index;
        match self.current_index {
            Some(i) => Some(self.tracks[i].clone()),
            None => None,
        }
    }

    /// The track under the cursor, if one is selected.
    pub fn current(&self) -> (r: Option<String>)
        requires
            self.wf(),
        ensures
            r.deep_view() == track_at(self.spec_tracks(), self.spec_cursor()),
    {
        match self.current_index {
            Some(i) => Some(self.tracks[i].clone()),
            None => None,
        }
    }

    /// A snapshot of the tracks, in order.
    pub fn get_tracks(&self) -> (r: Vec<String>)
        ensures
            r.deep_view() == self.spec_tracks(),
    {
        let mut out: Vec<String> = Vec::new();
        let mut i: usize = 0;
        while i < self.tracks.len()
            invariant
                i <= self.tracks.len(),
                out.deep_view() =~= self.spec_tracks().subrange(0, i as int),
            decreases self.tracks.len() - i,
        {
            let x = self.tracks[i].clone();
            assert(x@ == self.spec_tracks()[i as int]);
            let ghost out0 = out.deep_view();
            out.push(x);
            assert(out@.len() == out0.len() + 1);
            assert(forall|j: int| 0 <= j < out0.len() ==> out.deep_view()[j] == out0[j]);
            assert(out.deep_view()[out0.len() as int] == x@);
            assert(out.deep_view() =~= self.spec_tracks().subrange(0, i + 1));
            i = i + 1;
        }
        assert(self.spec_tracks().subrange(0, self.tracks.len() as int) =~= self.spec_tracks());
        out
    }

    /// The cursor position, if one is set.
    pub fn current_index(&self) -> (r: Option<usize>)
        ensures
            match r {
                Some(i) => self.spec_cursor() == Some(i as int),
                None => self.spec_cursor() is None,
            },
    {
        self.current_index
    }
}

/// Adding entries appends exactly their eligible files, whatever the
/// cursor does along the way: the contents after `playlist_after_adds`
/// are the old tracks followed by `added_tracks_all(es)`. So the length
/// of a playlist is the count of arguments that resolved to eligible
/// resources, summed over every `add` call.
pub proof fn lemma_playlist_after_adds_tracks(
    tracks: Seq<Seq<char>>,
    cur: Option<int>,
    es: Seq<MediaEntry>,
)
    ensures
        playlist_after_adds(tracks, cur, es).0 == tracks + added_tracks_all(es),
    decreases es.len(),
{
    if es.len() == 0 {
        assert(tracks + added_tracks_all(es) =~= tracks);
    } else {
        lemma_playlist_after_adds_tracks(tracks, cur, es.drop_last());
        assert(tracks + added_tracks_all(es) =~= (tracks + added_tracks_all(es.drop_last()))
            + added_tracks(es.last()));
    }
}

/// The cursor after `k` successive `next` transitions on a playlist of
/// `n` tracks, starting from no cursor.
pub open spec fn cursor_after_nexts(n: int, k: nat) -> Option<int>
    decreases k,
{
    if k == 0 {
        None
    } else {
        next_cursor(n, cursor_after_nexts(n, (k - 1) as nat))
    }
}

/// Law: starting from no cursor on a non-empty playlist of `n` tracks,
/// successive `next` transitions select the indices 0, 1, ..., n-1 in
/// order — the (k+1)-th call returns the track at index k, so every track
/// is returned exactly once — and the (n+1)-th transition runs off the
/// end: it selects nothing and the cursor is reset.
pub proof fn lemma_next_enumerates(tracks: Seq<Seq<char>>, k: nat)
    requires
        0 < tracks.len(),
        k <= tracks.len(),
    ensures
        k < tracks.len() ==> {
            &&& cursor_after_nexts(tracks.len() as int, k + 1) == Some(k as int)
            &&& track_at(tracks, cursor_after_nexts(tracks.len() as int, k + 1)) == Some(
                tracks[k as int],
            )
        },
        k == tracks.len() ==> {
            &&& cursor_after_nexts(tracks.len() as int, k + 1) is None
            &&& track_at(tracks, cursor_after_nexts(tracks.len() as int, k + 1)) is None
        },
    decreases k,
{
    if k > 0 {
        lemma_next_enumerates(tracks, (k - 1) as nat);
    } else {
        assert(cursor_after_nexts(tracks.len() as int, 0) is None);
    }
}

/// The cursor after `k` successive `previous` transitions on a playlist
/// of `n` tracks, starting from the first track.
pub open spec fn cursor_after_prevs(n: int, k: nat) -> Option<int>
    decreases k,
{
    if k == 0 {
        Some(0int)
    } else {
        prev_cursor(n, cursor_after_prevs(n, (k - 1) as nat))
    }
}

/// Law: `previous` clamps at the start rather than running off it. On a
/// non-empty playlist, any number of `previous` transitions from the
/// first track leave the cursor there, each returning that same first
/// track; and a `previous` transition on a non-empty playlist always
/// selects some track, whatever the cursor was.
pub proof fn lemma_previous_clamps(tracks: Seq<Seq<char>>, k: nat)
    requires
        0 < tracks.len(),
    ensures
        cursor_after_prevs(tracks.len() as int, k) == Some(0int),
        track_at(tracks, cursor_after_prevs(tracks.len() as int, k)) == Some(tracks[0]),
        forall|cur: Option<int>| (#[trigger] prev_cursor(tracks.len() as int, cur)) is Some,
    decreases k,
{
    if k > 0 {
        lemma_previous_clamps(tracks, (k - 1) as nat);
    }
}

} // verus!
