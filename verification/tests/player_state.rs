use mpris_server::builder::PlayerBuilder;
use mpris_server::{LoopStatus, Metadata, PlaybackStatus, Time, ONE_F64_BITS};

#[test]
fn builder_defaults() {
    let (suffix, state) = PlayerBuilder::new("Test").into_parts();
    assert_eq!(suffix, "Test");
    assert!(!state.can_quit());
    assert!(state.can_control());
    assert_eq!(state.playback_status(), PlaybackStatus::Stopped);
    assert_eq!(state.loop_status(), LoopStatus::NoLoop);
    assert_eq!(f64::from_bits(state.rate_bits()), 1.0);
    assert_eq!(state.rate_bits(), ONE_F64_BITS);
    assert_eq!(f64::from_bits(state.volume_bits()), 1.0);
    assert_eq!(state.position(), Time::ZERO());
    assert_eq!(state.identity(), "");
    assert!(state.supported_uri_schemes().is_empty());
    assert_eq!(state.metadata(), &Metadata::new());
}

#[test]
fn builder_sets_values() {
    let (_, state) = PlayerBuilder::new("Test")
        .identity("Player".to_string())
        .can_play(true)
        .supported_mime_types(vec!["audio/aac".to_string()])
        .volume_bits(0.25f64.to_bits())
        .into_parts();
    assert_eq!(state.identity(), "Player");
    assert!(state.can_play());
    assert_eq!(state.supported_mime_types(), &vec!["audio/aac".to_string()]);
    assert_eq!(f64::from_bits(state.volume_bits()), 0.25);
}

#[test]
fn setters_report_changes() {
    let (_, mut state) = PlayerBuilder::new("Test").into_parts();
    assert!(state.set_can_quit(true));
    assert!(state.can_quit());
    assert!(!state.set_can_quit(true));
    assert!(state.set_identity("X".to_string()));
    assert!(!state.set_identity("X".to_string()));
    assert!(state.set_position(Time::from_secs(3)));
    assert!(!state.set_position(Time::from_secs(3)));
    assert_eq!(state.position(), Time::from_secs(3));
    assert!(state.set_supported_uri_schemes(vec!["file".to_string()]));
    assert!(!state.set_supported_uri_schemes(vec!["file".to_string()]));
    let m = Metadata::builder().title("T".to_string()).build();
    assert!(state.set_metadata(m.clone()));
    assert!(!state.set_metadata(m));
    assert!(state.set_playback_status(PlaybackStatus::Playing));
    assert!(!state.set_playback_status(PlaybackStatus::Playing));
}

#[test]
fn double_setters_compare_as_doubles() {
    let (_, mut state) = PlayerBuilder::new("Test").into_parts();
    assert!(!state.set_rate_bits(1.0f64.to_bits()));
    assert!(state.set_rate_bits(2.0f64.to_bits()));
    assert_eq!(f64::from_bits(state.rate_bits()), 2.0);
    assert!(state.set_volume_bits(0.0f64.to_bits()));
    // -0.0 == 0.0: no change, and the stored value stays +0.0.
    assert!(!state.set_volume_bits((-0.0f64).to_bits()));
    assert_eq!(state.volume_bits(), 0.0f64.to_bits());
    // NaN never compares equal, so setting it is always a change.
    assert!(state.set_minimum_rate_bits(f64::NAN.to_bits()));
    assert!(state.set_minimum_rate_bits(f64::NAN.to_bits()));
    assert!(state.set_maximum_rate_bits(4.0f64.to_bits()));
    assert!(!state.set_maximum_rate_bits(4.0f64.to_bits()));
}

#[test]
fn builder_keeps_negative_zero() {
    let (_, state) = PlayerBuilder::new("Test")
        .volume_bits((-0.0f64).to_bits())
        .into_parts();
    assert_eq!(state.volume_bits(), (-0.0f64).to_bits());
}

#[test]
fn metadata_with_nan_rating_is_always_a_change() {
    let (_, mut state) = PlayerBuilder::new("Test").into_parts();
    let m = Metadata::builder().user_rating_bits(f64::NAN.to_bits()).build();
    assert!(state.set_metadata(m.clone()));
    assert!(state.set_metadata(m));
}
