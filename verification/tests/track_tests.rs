use muzq::track::media_kind;
use muzq::track::MediaKind;
use muzq::track::Metadata;
use muzq::track::Mp3Tag;
use muzq::track::parse_u16;
use muzq::track::Track;

#[test]
fn parse_u16_reads_plain_years() {
    assert_eq!(parse_u16("1984"), Some(1984));
    assert_eq!(parse_u16("0"), Some(0));
    assert_eq!(parse_u16("007"), Some(7));
    assert_eq!(parse_u16("65535"), Some(65535));
}

#[test]
fn parse_u16_accepts_a_leading_plus() {
    assert_eq!(parse_u16("+2000"), Some(2000));
    assert_eq!(parse_u16("+"), None);
}

#[test]
fn parse_u16_rejects_junk_and_overflow() {
    assert_eq!(parse_u16(""), None);
    assert_eq!(parse_u16("abc"), None);
    assert_eq!(parse_u16("19x4"), None);
    assert_eq!(parse_u16("-5"), None);
    assert_eq!(parse_u16("65536"), None);
    assert_eq!(parse_u16("99999999999"), None);
}

#[test]
fn parse_u16_matches_std() {
    for s in ["1984", "007", "+2000", "", "abc", "19x4", "-5", "65535", "65536"] {
        assert_eq!(parse_u16(s), s.parse::<u16>().ok());
    }
}

#[test]
fn mp3_tag_fills_every_field() {
    let meta = Metadata::from_mp3_parts(
        123_000,
        Some(Mp3Tag {
            artist: "A".to_owned(),
            title: "T".to_owned(),
            album: "L".to_owned(),
            genre: "G".to_owned(),
            year: 1999,
        }),
    );
    let track = Track::new("/song.mp3", Some(meta));
    assert_eq!(track.duration(), 123_000);
    assert_eq!(track.artist(), "A");
    assert_eq!(track.title(), "T");
    assert_eq!(track.album(), "L");
    assert_eq!(track.genre(), "G");
    assert_eq!(track.year(), 1999);
    assert_eq!(track.path(), "/song.mp3");
}

#[test]
fn mp3_without_tag_keeps_only_duration() {
    let meta = Metadata::from_mp3_parts(5_000, None);
    let track = Track::new("/song.mp3", Some(meta));
    assert_eq!(track.duration(), 5_000);
    assert_eq!(track.artist(), "Unknown");
    assert_eq!(track.title(), "Unknown");
    assert_eq!(track.year(), 0);
}

#[test]
fn flac_comment_fields_replace_defaults() {
    let meta = Metadata::from_flac_parts(
        Some("A".to_owned()),
        None,
        Some("L".to_owned()),
        None,
        Some("1984".to_owned()),
        Some((441_000, 44_100)),
    );
    let track = Track::new("/song.flac", Some(meta));
    assert_eq!(track.artist(), "A");
    assert_eq!(track.title(), "Unknown");
    assert_eq!(track.album(), "L");
    assert_eq!(track.genre(), "Unknown");
    assert_eq!(track.year(), 1984);
    assert_eq!(track.duration(), 10_000);
}

#[test]
fn flac_unreadable_date_becomes_year_zero() {
    let meta = Metadata::from_flac_parts(None, None, None, None, Some("MCMLXXX".to_owned()), None);
    let track = Track::new("/song.flac", Some(meta));
    assert_eq!(track.year(), 0);
    assert_eq!(track.duration(), 0);
}

#[test]
fn track_without_metadata_gets_defaults() {
    let track = Track::new("/noise.wav", None);
    assert_eq!(track.artist(), "Unknown");
    assert_eq!(track.title(), "Unknown");
    assert_eq!(track.album(), "Unknown");
    assert_eq!(track.genre(), "Unknown");
    assert_eq!(track.year(), 0);
    assert_eq!(track.duration(), 0);
    assert_eq!(track.path(), "/noise.wav");
}

#[test]
fn media_kind_reads_the_extension() {
    assert_eq!(media_kind("/music/song.mp3"), MediaKind::Mp3);
    assert_eq!(media_kind("song.flac"), MediaKind::Flac);
    assert_eq!(media_kind("a.b.mp3"), MediaKind::Mp3);
    assert_eq!(media_kind("song.ogg"), MediaKind::Other);
    assert_eq!(media_kind("mp3"), MediaKind::Other);
    assert_eq!(media_kind(".mp3"), MediaKind::Other);
    assert_eq!(media_kind("/dir/.flac"), MediaKind::Other);
    assert_eq!(media_kind("song.MP3"), MediaKind::Other);
}

#[test]
fn media_kind_matches_std_extension_dispatch() {
    for path in [
        "/music/song.mp3",
        "song.flac",
        "a.b.mp3",
        "..mp3",
        ".mp3",
        "/x/.flac",
        "noise",
        "song.mp3.bak",
    ] {
        let by_std = match std::path::Path::new(path)
            .extension()
            .and_then(|extension| extension.to_str())
        {
            Some("mp3") => MediaKind::Mp3,
            Some("flac") => MediaKind::Flac,
            _ => MediaKind::Other,
        };
        assert_eq!(media_kind(path), by_std, "path {:?}", path);
    }
}
