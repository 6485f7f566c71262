//! Imported tracks and the tag data the metadata collaborators yield.
//!
//! Reading an mp3 or flac file is the collaborators' work; what they hand
//! back — optional tag fields, a date string, stream timing — is combined
//! here into one [`Metadata`] record, with `Unknown` standing in for every
//! absent field. The decimal year parser mirrors the standard library's
//! unsigned parsing: an optional leading plus sign, then decimal digits,
//! rejected on overflow.

use vstd::prelude::*;

verus! {

/// Ghost image of a metadata record; string fields are character sequences
/// and the duration is in milliseconds.
pub struct MetaView {
    pub duration_ms: u64,
    pub artist: Seq<char>,
    pub title: Seq<char>,
    pub album: Seq<char>,
    pub genre: Seq<char>,
    pub year: u16,
}

/// The record standing for a track with no readable tag data.
pub open spec fn default_meta() -> MetaView {
    MetaView {
        duration_ms: 0,
        artist: "Unknown"@,
        title: "Unknown"@,
        album: "Unknown"@,
        genre: "Unknown"@,
        year: 0,
    }
}

/// Tag data of one track as the collaborators report it.
pub struct Metadata {
    duration_ms: u64,
    artist: String,
    title: String,
    album: String,
    genre: String,
    year: u16,
}

impl View for Metadata {
    type V = MetaView;

    closed spec fn view(&self) -> MetaView {
        MetaView {
            duration_ms: self.duration_ms,
            artist: self.artist@,
            title: self.title@,
            album: self.album@,
            genre: self.genre@,
            year: self.year,
        }
    }
}

/// The value of a digit sequence read as a decimal number.
pub open spec fn digits_val(s: Seq<char>) -> int
    decreases s.len(),
{
    if s.len() == 0 {
        0
    } else {
        digits_val(s.drop_last()) * 10 + ((s.last() as u32) - 48)
    }
}

/// Every character is a decimal digit.
pub open spec fn all_digits(s: Seq<char>) -> bool {
    forall|i: int| 0 <= i < s.len() ==> 48 <= (#[trigger] s[i]) as u32 <= 57
}

/// What parsing a `u16` out of a decimal string yields: after an optional
/// leading plus sign there must be at least one digit, nothing but digits,
/// and a value that fits.
pub open spec fn spec_parse_u16(s: Seq<char>) -> Option<u16> {
    let body = if s.len() > 0 && s[0] == '+' {
        s.subrange(1, s.len() as int)
    } else {
        s
    };
    if body.len() == 0 || !all_digits(body) {
        Option::None
    } else if digits_val(body) > u16::MAX {
        Option::None
    } else {
        Option::Some(digits_val(body) as u16)
    }
}

/// Parse a decimal `u16` as the standard library's string parsing does.
pub fn parse_u16(s: &str) -> (r: Option<u16>)
    ensures
        r == spec_parse_u16(s@),
{
    let n = s.unicode_len();
    let start: usize = if n > 0 && s.get_char(0) == '+' {
        1
    } else {
        0
    };
    let ghost body = s@.subrange(start as int, n as int);
    proof {
        if !(s@.len() > 0 && s@[0] == '+') {
            assert(s@.subrange(0, n as int) =~= s@);
        }
    }
    if n == start {
        return None;
    }
    let mut i: usize = start;
    let mut val: u32 = 0;
    while i < n
        invariant
            start <= i <= n == s@.len(),
            body == s@.subrange(start as int, n as int),
            body == (if s@.len() > 0 && s@[0] == '+' {
                s@.subrange(1, s@.len() as int)
            } else {
                s@
            }),
            all_digits(s@.subrange(start as int, i as int)),
            val <= 655369,
            digits_val(s@.subrange(start as int, i as int)) <= u16::MAX ==> val == digits_val(
                s@.subrange(start as int, i as int),
            ),
            digits_val(s@.subrange(start as int, i as int)) > u16::MAX ==> val > u16::MAX,
        decreases n - i,
    {
        let c = s.get_char(i);
        let u = c as u32;
        let ghost prefix = s@.subrange(start as int, i as int);
        let ghost extended = s@.subrange(start as int, i + 1);
        proof {
            assert(extended.drop_last() =~= prefix);
            assert(extended.last() == s@[i as int]);
        }
        if u < 48 || u > 57 {
            proof {
                assert(body[i - start] == s@[i as int]);
                assert(!all_digits(body));
            }
            return None;
        }
        if val <= 65535 {
            val = val * 10 + (u - 48);
        }
        i = i + 1;
    }
    proof {
        assert(s@.subrange(start as int, n as int) =~= body);
    }
    if val <= 65535 {
        Some(val as u16)
    } else {
        None
    }
}

/// Milliseconds for a whole number of seconds, stuck at the largest
/// representable value.
pub open spec fn ms_of_secs(secs: u64) -> u64 {
    if secs * 1000 <= u64::MAX {
        (secs * 1000) as u64
    } else {
        u64::MAX
    }
}

/// The media kinds the metadata collaborators can read.
#[derive(Clone, Copy, Debug, PartialEq, Eq, Structural)]
pub enum MediaKind {
    Mp3,
    Flac,
    Other,
}

/// The path ends with the characters of `ext`.
pub open spec fn ends_with(p: Seq<char>, ext: Seq<char>) -> bool {
    &&& p.len() >= ext.len()
    &&& forall|i: int| 0 <= i < ext.len() ==> p[p.len() - ext.len() + i] == #[trigger] ext[i]
}

/// The path's final component carries `ext` (dot included) as its
/// extension: the path ends with it and the dot is not the component's
/// first character, matching how the standard library reads an extension.
pub open spec fn has_extension(p: Seq<char>, ext: Seq<char>) -> bool {
    &&& p.len() > ext.len()
    &&& ends_with(p, ext)
    &&& p[p.len() - ext.len() - 1] != '/'
}

/// Which collaborator, if any, can read the file the path points at.
pub open spec fn spec_media_kind(p: Seq<char>) -> MediaKind {
    if has_extension(p, ".mp3"@) {
        MediaKind::Mp3
    } else if has_extension(p, ".flac"@) {
        MediaKind::Flac
    } else {
        MediaKind::Other
    }
}

/// Classify a path by its extension, following the standard library's
/// reading of what an extension is.
pub fn media_kind(path: &str) -> (k: MediaKind)
    ensures
        k == spec_media_kind(path@),
{
    proof {
        reveal_strlit(".mp3");
        reveal_strlit(".flac");
    }
    let n = path.unicode_len();
    if n > 4 && path.get_char(n - 4) == '.' && path.get_char(n - 3) == 'm' && path.get_char(n - 2)
        == 'p' && path.get_char(n - 1) == '3' && path.get_char(n - 5) != '/' {
        proof {
            assert forall|i: int| 0 <= i < 4 implies path@[path@.len() - 4 + i] == ".mp3"@[i] by {
                if i == 0 {
                } else if i == 1 {
                } else if i == 2 {
                } else {
                }
            }
            assert(has_extension(path@, ".mp3"@));
        }
        MediaKind::Mp3
    } else if n > 5 && path.get_char(n - 5) == '.' && path.get_char(n - 4) == 'f' && path.get_char(
        n - 3,
    ) == 'l' && path.get_char(n - 2) == 'a' && path.get_char(n - 1) == 'c' && path.get_char(n - 6)
        != '/' {
        proof {
            assert forall|i: int| 0 <= i < 5 implies path@[path@.len() - 5 + i] == ".flac"@[i] by {
                if i == 0 {
                } else if i == 1 {
                } else if i == 2 {
                } else if i == 3 {
                } else {
                }
            }
            assert(has_extension(path@, ".flac"@));
            assert(!has_extension(path@, ".mp3"@)) by {
                if has_extension(path@, ".mp3"@) {
                    assert(path@[path@.len() - 4 + 3] == ".mp3"@[3]);
                }
            }
        }
        MediaKind::Flac
    } else {
        proof {
            assert(!has_extension(path@, ".mp3"@)) by {
                if has_extension(path@, ".mp3"@) {
                    assert(path@[path@.len() - 4 + 0] == ".mp3"@[0]);
                    assert(path@[path@.len() - 4 + 1] == ".mp3"@[1]);
                    assert(path@[path@.len() - 4 + 2] == ".mp3"@[2]);
                    assert(path@[path@.len() - 4 + 3] == ".mp3"@[3]);
                }
            }
            assert(!has_extension(path@, ".flac"@)) by {
                if has_extension(path@, ".flac"@) {
                    assert(path@[path@.len() - 5 + 0] == ".flac"@[0]);
                    assert(path@[path@.len() - 5 + 1] == ".flac"@[1]);
                    assert(path@[path@.len() - 5 + 2] == ".flac"@[2]);
                    assert(path@[path@.len() - 5 + 3] == ".flac"@[3]);
                    assert(path@[path@.len() - 5 + 4] == ".flac"@[4]);
                }
            }
        }
        MediaKind::Other
    }
}

/// The tag block of an mp3 file, as the metadata collaborator reports it.
pub struct Mp3Tag {
    pub artist: String,
    pub title: String,
    pub album: String,
    pub genre: String,
    pub year: u16,
}

impl Metadata {
    /// Combine an mp3 file's duration and its optional tag block: with a tag
    /// every field is taken from it; without one the record is the default
    /// with only the duration filled in.
    pub fn from_mp3_parts(duration_ms: u64, tag: Option<Mp3Tag>) -> (r: Metadata)
        ensures
            tag matches Some(t) ==> r@ == (MetaView {
                duration_ms,
                artist: t.artist@,
                title: t.title@,
                album: t.album@,
                genre: t.genre@,
                year: t.year,
            }),
            tag is None ==> r@ == (MetaView { duration_ms, ..default_meta() }),
    {
        match tag {
            Some(t) => Metadata {
                duration_ms,
                artist: t.artist,
                title: t.title,
                album: t.album,
                genre: t.genre,
                year: t.year,
            },
            None => {
                let mut meta = Metadata::default();
                meta.duration_ms = duration_ms;
                meta
            },
        }
    }

    /// Combine what a flac file's tag comment and stream info yield: each
    /// present comment field replaces the default, the year is the first
    /// date value read as a decimal number (0 when absent or unreadable),
    /// and the duration is the sample count over the sample rate.
    pub fn from_flac_parts(
        artist: Option<String>,
        title: Option<String>,
        album: Option<String>,
        genre: Option<String>,
        date: Option<String>,
        stream: Option<(u64, u32)>,
    ) -> (r: Metadata)
        requires
            stream matches Some(st) ==> st.1 > 0,
        ensures
            r@.artist == (match artist {
                Some(a) => a@,
                None => "Unknown"@,
            }),
            r@.title == (match title {
                Some(t) => t@,
                None => "Unknown"@,
            }),
            r@.album == (match album {
                Some(a) => a@,
                None => "Unknown"@,
            }),
            r@.genre == (match genre {
                Some(g) => g@,
                None => "Unknown"@,
            }),
            r@.year == (match date {
                Some(d) => match spec_parse_u16(d@) {
                    Some(y) => y,
                    None => 0u16,
                },
                None => 0u16,
            }),
            r@.duration_ms == (match stream {
                Some(st) => ms_of_secs((st.0 / st.1 as u64) as u64),
                None => 0u64,
            }),
    {
        let mut meta = Metadata::default();
        if let Some(a) = artist {
            meta.artist = a;
        }
        if let Some(t) = title {
            meta.title = t;
        }
        if let Some(a) = album {
            meta.album = a;
        }
        if let Some(g) = genre {
            meta.genre = g;
        }
        if let Some(d) = date {
            meta.year = match parse_u16(d.as_str()) {
                Some(y) => y,
                None => 0,
            };
        }
        if let Some(st) = stream {
            let secs = st.0 / (st.1 as u64);
            meta.duration_ms = if secs <= u64::MAX / 1000 {
                secs * 1000
            } else {
                u64::MAX
            };
        }
        meta
    }
}

impl Default for Metadata {
    /// The record for a track with no readable tag data: `Unknown` strings,
    /// year 0, duration 0.
    fn default() -> (r: Metadata)
        ensures
            r@ == default_meta(),
    {
        Metadata {
            duration_ms: 0,
            artist: "Unknown".to_owned(),
            title: "Unknown".to_owned(),
            album: "Unknown".to_owned(),
            genre: "Unknown".to_owned(),
            year: 0,
        }
    }
}

/// Ghost image of an imported track: its path and its metadata record.
pub struct TrackView {
    pub path: Seq<char>,
    pub meta: MetaView,
}

/// An imported track: the path it was read from and its metadata record.
pub struct Track {
    meta: Metadata,
    path: String,
}

impl View for Track {
    type V = TrackView;

    closed spec fn view(&self) -> TrackView {
        TrackView { path: self.path@, meta: self.meta@ }
    }
}

impl Track {
    /// Keep a path together with the metadata the collaborators could read
    /// for it; a track whose tags could not be read gets the default record.
    pub fn new(path: &str, meta: Option<Metadata>) -> (r: Track)
        ensures
            r@.path == path@,
            meta matches Some(m) ==> r@.meta == m@,
            meta is None ==> r@.meta == default_meta(),
    {
        Track {
            meta: match meta {
                Some(m) => m,
                None => Metadata::default(),
            },
            path: path.to_owned(),
        }
    }

    /// The track's duration in milliseconds.
    pub fn duration(&self) -> (r: u64)
        ensures
            r == self@.meta.duration_ms,
    {
        self.meta.duration_ms
    }

    /// The artist field of the track's record.
    pub fn artist(&self) -> (r: &String)
        ensures
            r@ == self@.meta.artist,
    {
        &self.meta.artist
    }

    /// The title field of the track's record.
    pub fn title(&self) -> (r: &String)
        ensures
            r@ == self@.meta.title,
    {
        &self.meta.title
    }

    /// The album field of the track's record.
    pub fn album(&self) -> (r: &String)
        ensures
            r@ == self@.meta.album,
    {
        &self.meta.album
    }

    /// The genre field of the track's record.
    pub fn genre(&self) -> (r: &String)
        ensures
            r@ == self@.meta.genre,
    {
        &self.meta.genre
    }

    /// The year field of the track's record.
    pub fn year(&self) -> (r: u16)
        ensures
            r == self@.meta.year,
    {
        self.meta.year
    }

    /// The path the track was imported from.
    pub fn path(&self) -> (r: &String)
        ensures
            r@ == self@.path,
    {
        &self.path
    }
}

} // verus!
