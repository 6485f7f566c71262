use muzq::cache::Cache;
use muzq::cache::Metadata;
use muzq::cache::MetaFilter::Is;
use muzq::cache::MetaFilter::Not;
use muzq::cache::MetaFilterPredicate::Album;
use muzq::cache::MetaFilterPredicate::Artist;
use muzq::cache::MetaFilterPredicate::Genre;
use muzq::cache::MetaFilterPredicate::Title;
use muzq::cache::MetaFilterPredicate::Year;
use muzq::cache::Track;
use muzq::cache::TrackId;

fn test_cache() -> Cache {
    let mut cache = Cache::new();

    cache.insert(
        Track("/track0".to_owned()),
        Some(Metadata {
            duration: None,
            artist: "A".to_owned(),
            title: "a".to_owned(),
            album: "a".to_owned(),
            genre: "a".to_owned(),
            year: 0,
        }),
    );

    cache.insert(
        Track("/track1".to_owned()),
        Some(Metadata {
            duration: None,
            artist: "B".to_owned(),
            title: "a".to_owned(),
            album: "b".to_owned(),
            genre: "a".to_owned(),
            year: 1,
        }),
    );

    cache.insert(
        Track("/track2".to_owned()),
        Some(Metadata {
            duration: None,
            artist: "B".to_owned(),
            title: "b".to_owned(),
            album: "b".to_owned(),
            genre: "a".to_owned(),
            year: 1,
        }),
    );

    cache.insert(
        Track("/track3".to_owned()),
        Some(Metadata {
            duration: None,
            artist: "C".to_owned(),
            title: "c".to_owned(),
            album: "c".to_owned(),
            genre: "a".to_owned(),
            year: 2,
        }),
    );

    cache.insert(
        Track("/track4".to_owned()),
        Some(Metadata {
            duration: None,
            artist: "D".to_owned(),
            title: "d".to_owned(),
            album: "d".to_owned(),
            genre: "a".to_owned(),
            year: 3,
        }),
    );

    cache.insert(
        Track("/track0".to_owned()),
        Some(Metadata {
            duration: None,
            artist: "E".to_owned(),
            title: "e".to_owned(),
            album: "e".to_owned(),
            genre: "e".to_owned(),
            year: 3,
        }),
    );

    cache
}

#[test]
fn cache_filter_artist() {
    let cache = test_cache();

    assert_eq!(
        cache.matches_filter(&[Is(Artist("A"))]).tracks,
        vec![TrackId(0)]
    );

    assert_eq!(
        cache.matches_filter(&[Is(Artist("B"))]).tracks,
        vec![TrackId(1), TrackId(2)]
    );

    assert_eq!(
        cache
            .matches_filter(&[Not(Artist("A")), Not(Artist("B"))])
            .tracks,
        vec![TrackId(3), TrackId(4), TrackId(5)]
    );
}

#[test]
fn cache_filter_title() {
    let cache = test_cache();

    assert_eq!(
        cache.matches_filter(&[Is(Title("a"))]).tracks,
        vec![TrackId(0), TrackId(1)]
    );

    assert_eq!(
        cache.matches_filter(&[Is(Title("b"))]).tracks,
        vec![TrackId(2)]
    );

    assert_eq!(
        cache
            .matches_filter(&[Not(Title("a")), Not(Title("b"))])
            .tracks,
        vec![TrackId(3), TrackId(4), TrackId(5)]
    );
}

#[test]
fn cache_filter_album() {
    let cache = test_cache();

    assert_eq!(
        cache.matches_filter(&[Is(Album("a"))]).tracks,
        vec![TrackId(0)]
    );
    assert_eq!(
        cache.matches_filter(&[Is(Album("b"))]).tracks,
        vec![TrackId(1), TrackId(2)]
    );
    assert_eq!(
        cache
            .matches_filter(&[Not(Album("a")), Not(Album("b"))])
            .tracks,
        vec![TrackId(3), TrackId(4), TrackId(5)]
    );
}

#[test]
fn cache_filter_genre() {
    let cache = test_cache();
    assert_eq!(
        cache.matches_filter(&[Is(Genre("a"))]).tracks,
        vec![TrackId(0), TrackId(1), TrackId(2), TrackId(3), TrackId(4)]
    );
    assert_eq!(
        cache.matches_filter(&[Not(Genre("a"))]).tracks,
        vec![TrackId(5)]
    );
}

#[test]
fn cache_complex_filter() {
    let cache = test_cache();
    assert_eq!(
        cache
            .matches_filter(&[Is(Artist("B")), Is(Album("b")), Is(Genre("a")), Is(Year(1))])
            .tracks,
        vec![TrackId(1), TrackId(2)]
    );
}

#[test]
fn cache_empty_filter() {
    let cache = test_cache();
    assert_eq!(
        cache.matches_filter(&[]).tracks,
        vec![
            TrackId(0),
            TrackId(1),
            TrackId(2),
            TrackId(3),
            TrackId(4),
            TrackId(5),
        ]
    );
}

fn five_artists() -> Cache {
    let mut cache = Cache::new();
    for artist in ["A", "B", "B", "C", "D"] {
        cache.insert(
            Track(format!("/{}", artist)),
            Some(Metadata {
                duration: None,
                artist: artist.to_owned(),
                title: "t".to_owned(),
                album: "l".to_owned(),
                genre: "g".to_owned(),
                year: 1,
            }),
        );
    }
    cache
}

#[test]
fn cache_artist_scenario_five_tracks() {
    let cache = five_artists();
    assert_eq!(
        cache.matches_filter(&[Is(Artist("B"))]).tracks,
        vec![TrackId(1), TrackId(2)]
    );
    assert_eq!(
        cache
            .matches_filter(&[Not(Artist("A")), Not(Artist("B"))])
            .tracks,
        vec![TrackId(3), TrackId(4)]
    );
}

#[test]
fn cache_contradictory_filters_select_nothing() {
    let cache = five_artists();
    assert_eq!(
        cache.matches_filter(&[Is(Year(1)), Not(Year(1))]).tracks,
        Vec::<TrackId>::new()
    );
}

#[test]
fn cache_filter_order_does_not_matter() {
    let cache = test_cache();
    let one = cache
        .matches_filter(&[Is(Artist("B")), Is(Album("b")), Is(Year(1))])
        .tracks;
    let other = cache
        .matches_filter(&[Is(Year(1)), Is(Album("b")), Is(Artist("B"))])
        .tracks;
    assert_eq!(one, other);
    assert_eq!(one, vec![TrackId(1), TrackId(2)]);
}

#[test]
fn cache_query_is_idempotent() {
    let cache = test_cache();
    let first = cache.matches_filter(&[Is(Genre("a"))]).tracks;
    let second = cache.matches_filter(&[Is(Genre("a"))]).tracks;
    assert_eq!(first, second);
}

#[test]
fn cache_track_without_metadata_never_matches() {
    let mut cache = Cache::new();
    cache.insert(Track("/bare".to_owned()), None);
    assert_eq!(cache.matches_filter(&[]).tracks, Vec::<TrackId>::new());
    assert_eq!(
        cache.matches_filter(&[Is(Artist("A"))]).tracks,
        Vec::<TrackId>::new()
    );
}

#[test]
fn cache_get_track_and_ids() {
    let mut cache = Cache::new();
    let first = cache.insert(Track("/x".to_owned()), None);
    let second = cache.insert(Track("/x".to_owned()), None);
    assert_eq!(first, TrackId(0));
    assert_eq!(second, TrackId(1));
    assert_eq!(cache.get_track(TrackId(0)).map(|t| t.0.as_str()), Some("/x"));
    assert!(cache.get_track(TrackId(2)).is_none());
    assert_eq!(cache.matches_filter(&[]).name, "Matches".to_owned());
}
