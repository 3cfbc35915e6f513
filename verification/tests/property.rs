use mpris_server::{player_changes, LoopStatus, Metadata, PlaybackStatus, Property};

#[test]
fn property_names() {
    assert_eq!(Property::CanQuit(true).as_str(), "CanQuit");
    assert_eq!(Property::SupportedMimeTypes(vec![]).as_str(), "SupportedMimeTypes");
    assert_eq!(Property::Rate(1.0f64.to_bits()).as_str(), "Rate");
    assert_eq!(Property::LoopStatus(LoopStatus::Track).as_str(), "LoopStatus");
    assert_eq!(Property::Metadata(Metadata::new()).as_str(), "Metadata");
    assert_eq!(Property::CanSeek(false).as_str(), "CanSeek");
}

#[test]
fn property_interfaces() {
    assert!(Property::Identity("X".to_string()).is_root());
    assert!(Property::HasTrackList(true).is_root());
    assert!(!Property::PlaybackStatus(PlaybackStatus::Paused).is_root());
    assert!(!Property::Volume(0.5f64.to_bits()).is_root());
}

#[test]
fn player_changes_sorts_by_interface() {
    let (root, player) = player_changes(vec![
        Property::CanQuit(true),
        Property::Volume(0.5f64.to_bits()),
        Property::Identity("Player".to_string()),
        Property::CanPlay(false),
    ]);
    assert_eq!(
        root,
        vec![Property::CanQuit(true), Property::Identity("Player".to_string())]
    );
    assert_eq!(
        player,
        vec![Property::Volume(0.5f64.to_bits()), Property::CanPlay(false)]
    );
}

#[test]
fn player_changes_last_value_wins() {
    let (root, player) = player_changes(vec![
        Property::Rate(1.0f64.to_bits()),
        Property::Shuffle(true),
        Property::Rate(2.0f64.to_bits()),
    ]);
    assert!(root.is_empty());
    assert_eq!(
        player,
        vec![Property::Shuffle(true), Property::Rate(2.0f64.to_bits())]
    );
}

#[test]
fn player_changes_of_nothing_is_empty() {
    let (root, player) = player_changes(vec![]);
    assert!(root.is_empty());
    assert!(player.is_empty());
}
