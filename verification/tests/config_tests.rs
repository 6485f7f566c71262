use muzq::Action;
use muzq::Config;
use muzq::player;

#[test]
fn default_bindings_answer_lookups() {
    let config = Config::default();
    assert_eq!(
        config.get_binding(' '),
        Some(Action::Player(player::Action::PlaybackToggle))
    );
    assert_eq!(config.get_binding('q'), Some(Action::Exit));
    assert_eq!(
        config.get_binding('s'),
        Some(Action::Player(player::Action::PlaybackStop))
    );
    assert_eq!(
        config.get_binding('>'),
        Some(Action::Player(player::Action::TrackNext))
    );
    assert_eq!(
        config.get_binding('<'),
        Some(Action::Player(player::Action::TrackPrevious))
    );
    assert_eq!(
        config.get_binding('r'),
        Some(Action::Player(player::Action::TrackRewind))
    );
    assert_eq!(
        config.get_binding('a'),
        Some(Action::Player(player::Action::RepeatModeCycle))
    );
    assert_eq!(config.get_binding('z'), None);
}

#[test]
fn get_key_finds_the_bound_key() {
    let config = Config::default();
    assert_eq!(config.get_key(&Action::Exit), Some('q'));
    assert_eq!(
        config.get_key(&Action::Player(player::Action::PlaybackToggle)),
        Some(' ')
    );
    assert_eq!(
        config.get_key(&Action::Player(player::Action::VolumeIncrease)),
        None
    );
}

#[test]
fn from_pairs_takes_sorted_bindings() {
    let config = Config::from_pairs(vec![
        ('a', Action::Exit),
        ('b', Action::Player(player::Action::PlaybackStop)),
    ])
    .unwrap();
    assert_eq!(config.get_binding('a'), Some(Action::Exit));
    assert_eq!(
        config.get_binding('b'),
        Some(Action::Player(player::Action::PlaybackStop))
    );
    assert_eq!(config.get_binding('c'), None);
}

#[test]
fn from_pairs_rejects_unsorted_or_duplicate_keys() {
    assert!(Config::from_pairs(vec![('b', Action::Exit), ('a', Action::Exit)]).is_none());
    assert!(Config::from_pairs(vec![('a', Action::Exit), ('a', Action::Exit)]).is_none());
    assert!(Config::from_pairs(Vec::new()).is_some());
}
