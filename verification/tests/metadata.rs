use mpris_server::{Metadata, Time, TrackId, Value};

#[test]
fn clone() {
    let first = Metadata::builder().trackid(TrackId::NO_TRACK()).build();
    assert_eq!(first, first.clone());
}

#[test]
fn builder_and_getter() {
    let m = Metadata::builder()
        .other("other", Value::Str("value".to_string()))
        .trackid(TrackId::try_from("/io/github/seadve/Player/Track123").unwrap())
        .length(Time::from_millis(2))
        .art_url("file:///tmp/cover.jpg".to_string())
        .album("The Album".to_string())
        .album_artist(vec!["The Album Artist".to_string()])
        .artist(vec!["The Artist".to_string()])
        .lyrics("The lyrics".to_string())
        .audio_bpm(120)
        .auto_rating_bits(0.5f64.to_bits())
        .comment(vec!["The comment".to_string()])
        .composer(vec!["The Composer".to_string()])
        .content_created("2021-01-01T00:00:00".to_string())
        .disc_number(3)
        .first_used("2021-01-01T00:00:00".to_string())
        .genre(vec!["The Genre".to_string()])
        .last_used("2021-01-01T00:00:00".to_string())
        .lyricist(vec!["The Lyricist".to_string()])
        .title("The Title".to_string())
        .track_number(2)
        .url("file:///tmp/track.mp3".to_string())
        .use_count(1)
        .user_rating_bits(0.5f64.to_bits())
        .build();

    assert_eq!(
        m.get_value("other"),
        Some(&Value::Str("value".to_string()))
    );
    assert_eq!(
        m.trackid(),
        Some(TrackId::try_from("/io/github/seadve/Player/Track123").unwrap())
    );
    assert_eq!(m.length(), Some(Time::from_millis(2)));
    assert_eq!(m.art_url(), Some("file:///tmp/cover.jpg".into()));
    assert_eq!(m.album(), Some("The Album"));
    assert_eq!(m.album_artist(), Some(vec!["The Album Artist".to_string()]));
    assert_eq!(m.artist(), Some(vec!["The Artist".to_string()]));
    assert_eq!(m.lyrics(), Some("The lyrics"));
    assert_eq!(m.audio_bpm(), Some(120));
    assert_eq!(m.auto_rating_bits().map(f64::from_bits), Some(0.5));
    assert_eq!(m.comment(), Some(vec!["The comment".to_string()]));
    assert_eq!(m.composer(), Some(vec!["The Composer".to_string()]));
    assert_eq!(m.content_created(), Some("2021-01-01T00:00:00".to_string()));
    assert_eq!(m.disc_number(), Some(3));
    assert_eq!(m.first_used(), Some("2021-01-01T00:00:00".to_string()));
    assert_eq!(m.genre(), Some(vec!["The Genre".to_string()]));
    assert_eq!(m.last_used(), Some("2021-01-01T00:00:00".to_string()));
    assert_eq!(m.lyricist(), Some(vec!["The Lyricist".to_string()]));
    assert_eq!(m.title(), Some("The Title"));
    assert_eq!(m.track_number(), Some(2));
    assert_eq!(m.url(), Some("file:///tmp/track.mp3".into()));
    assert_eq!(m.use_count(), Some(1));
    assert_eq!(m.user_rating_bits().map(f64::from_bits), Some(0.5));
}

#[test]
fn empty_metadata_has_nothing() {
    let m = Metadata::new();
    assert_eq!(m.title(), None);
    assert_eq!(m.trackid(), None);
    assert_eq!(m.length(), None);
    assert_eq!(m.get_value("xesam:title"), None);
    assert_eq!(m, Metadata::default());
}

#[test]
fn set_value_returns_previous_and_removes() {
    let mut m = Metadata::new();
    assert_eq!(m.set_value("k", Some(Value::I32(1))), None);
    assert_eq!(m.set_value("k", Some(Value::I32(2))), Some(Value::I32(1)));
    assert_eq!(m.get_value("k"), Some(&Value::I32(2)));
    assert_eq!(m.set_value("k", None), Some(Value::I32(2)));
    assert_eq!(m.get_value("k"), None);
    assert_eq!(m.set_value("k", None), None);
}

#[test]
fn last_set_wins_and_other_keys_kept() {
    let mut m = Metadata::new();
    m.set_title(Some("A".to_string()));
    m.set_album(Some("B".to_string()));
    m.set_title(Some("C".to_string()));
    assert_eq!(m.title(), Some("C"));
    assert_eq!(m.album(), Some("B"));
    m.set_title(None);
    assert_eq!(m.title(), None);
    assert_eq!(m.album(), Some("B"));
}

#[test]
fn getter_of_wrong_type_gives_nothing() {
    let mut m = Metadata::new();
    m.set_value("xesam:title", Some(Value::I32(5)));
    assert_eq!(m.title(), None);
    m.set_value("mpris:length", Some(Value::Str("long".to_string())));
    assert_eq!(m.length(), None);
    m.set_value("mpris:trackid", Some(Value::Str("/a".to_string())));
    assert_eq!(m.trackid(), None);
}

#[test]
fn equality_ignores_order() {
    let a = Metadata::builder().title("T".to_string()).audio_bpm(3).build();
    let b = Metadata::builder().audio_bpm(3).title("T".to_string()).build();
    assert_eq!(a, b);
    let c = Metadata::builder().audio_bpm(4).title("T".to_string()).build();
    assert_ne!(a, c);
    let d = Metadata::builder().audio_bpm(3).build();
    assert_ne!(a, d);
    assert_ne!(d, a);
}

#[test]
fn doubles_compare_as_doubles() {
    let zero = Metadata::builder().user_rating_bits(0.0f64.to_bits()).build();
    let negative_zero = Metadata::builder().user_rating_bits((-0.0f64).to_bits()).build();
    assert_eq!(zero, negative_zero);
    let nan = Metadata::builder().user_rating_bits(f64::NAN.to_bits()).build();
    assert_ne!(nan, nan.clone());
    assert_ne!(Value::F64Bits(f64::NAN.to_bits()), Value::F64Bits(f64::NAN.to_bits()));
    assert_eq!(Value::F64Bits(0.0f64.to_bits()), Value::F64Bits((-0.0f64).to_bits()));
    assert_eq!(Value::F64Bits((-0.0f64).to_bits()), Value::F64Bits(0.0f64.to_bits()));
    assert_ne!(Value::F64Bits(1.0f64.to_bits()), Value::F64Bits(2.0f64.to_bits()));
}
