use mpris_server::{
    track_list_changes, LoopStatus, PlaybackStatus, PlaylistOrdering, TrackListChanges,
    TrackListProperty, Value, ValueError,
};

#[test]
fn loop_status_names() {
    assert_eq!(LoopStatus::NoLoop.as_str(), "None");
    assert_eq!(LoopStatus::Track.as_str(), "Track");
    assert_eq!(LoopStatus::Playlist.as_str(), "Playlist");
}

#[test]
fn loop_status_from_value() {
    for s in [LoopStatus::NoLoop, LoopStatus::Track, LoopStatus::Playlist] {
        assert_eq!(LoopStatus::try_from(Value::from(s)), Ok(s));
    }
    assert_eq!(
        LoopStatus::try_from(Value::Str("Shuffle".to_string())),
        Err(ValueError::Message("invalid loop status: Shuffle".to_string()))
    );
    assert_eq!(
        LoopStatus::try_from(Value::Bool(true)),
        Err(ValueError::IncorrectType)
    );
}

#[test]
fn playback_status_names() {
    assert_eq!(PlaybackStatus::Playing.as_str(), "Playing");
    assert_eq!(PlaybackStatus::Paused.as_str(), "Paused");
    assert_eq!(PlaybackStatus::Stopped.as_str(), "Stopped");
    assert_eq!(Value::from(PlaybackStatus::Paused), Value::Str("Paused".to_string()));
}

#[test]
fn playlist_ordering_names() {
    let all = [
        (PlaylistOrdering::Alphabetical, "Alphabetical"),
        (PlaylistOrdering::CreationDate, "Created"),
        (PlaylistOrdering::ModifiedDate, "Modified"),
        (PlaylistOrdering::LastPlayDate, "Played"),
        (PlaylistOrdering::UserDefined, "User"),
    ];
    for (o, name) in all {
        assert_eq!(o.as_str(), name);
        assert_eq!(PlaylistOrdering::from_name(name), Some(o));
        assert_eq!(Value::from(o), Value::Str(name.to_string()));
    }
    assert_eq!(PlaylistOrdering::from_name("CreationDate"), None);
}

#[test]
fn track_list_changes_sorts_properties() {
    assert_eq!(
        track_list_changes(&[]),
        TrackListChanges { can_edit_tracks: None, tracks_invalidated: false }
    );
    assert_eq!(
        track_list_changes(&[
            TrackListProperty::CanEditTracks(true),
            TrackListProperty::Tracks,
            TrackListProperty::CanEditTracks(false),
        ]),
        TrackListChanges { can_edit_tracks: Some(false), tracks_invalidated: true }
    );
    assert_eq!(
        track_list_changes(&[TrackListProperty::CanEditTracks(true)]),
        TrackListChanges { can_edit_tracks: Some(true), tracks_invalidated: false }
    );
    assert_eq!(TrackListProperty::Tracks.as_str(), "Tracks");
    assert_eq!(TrackListProperty::CanEditTracks(true).as_str(), "CanEditTracks");
}
