use muzq::navigator::Navigator;

#[test]
fn navigator_starts_empty() {
    let nav = Navigator::new();
    assert_eq!(nav.position(), (0, 0, 0));
    assert!(nav.track().is_none());
    assert!(!nav.at_end());
}

#[test]
fn navigator_enqueue_keeps_cursors() {
    let mut nav = Navigator::new();
    nav.enqueue("/a".to_owned());
    nav.enqueue("/b".to_owned());
    assert_eq!(nav.position(), (0, 0, 2));
    assert_eq!(nav.track(), Some(&"/a".to_owned()));
}

#[test]
fn navigator_next_wraps_past_the_end() {
    let mut nav = Navigator::new();
    nav.enqueue("/a".to_owned());
    nav.enqueue("/b".to_owned());
    nav.enqueue("/c".to_owned());
    nav.next();
    assert_eq!(nav.position(), (0, 1, 3));
    nav.next();
    assert_eq!(nav.position(), (1, 2, 3));
    assert!(nav.at_end());
    nav.next();
    assert_eq!(nav.position(), (2, 0, 3));
}

#[test]
fn navigator_prev_wraps_before_the_start() {
    let mut nav = Navigator::new();
    nav.enqueue("/a".to_owned());
    nav.enqueue("/b".to_owned());
    nav.enqueue("/c".to_owned());
    nav.prev();
    assert_eq!(nav.position(), (0, 2, 3));
    nav.prev();
    assert_eq!(nav.position(), (2, 1, 3));
    nav.prev();
    assert_eq!(nav.position(), (1, 0, 3));
}

#[test]
fn navigator_next_then_prev_returns() {
    let mut nav = Navigator::new();
    nav.enqueue("/a".to_owned());
    nav.enqueue("/b".to_owned());
    nav.enqueue("/c".to_owned());
    nav.next();
    nav.prev();
    let (_, current, _) = nav.position();
    assert_eq!(current, 0);
    nav.prev();
    nav.next();
    let (_, current, _) = nav.position();
    assert_eq!(current, 0);
}

#[test]
fn navigator_single_track_wraps_to_itself() {
    let mut nav = Navigator::new();
    nav.enqueue("/only".to_owned());
    assert!(nav.at_end());
    nav.next();
    assert_eq!(nav.position(), (0, 0, 1));
    nav.prev();
    assert_eq!(nav.position(), (0, 0, 1));
}
