use mpris_server::{InvalidObjectPath, OwnedObjectPath, TrackId};

#[test]
fn no_track() {
    assert_eq!(
        TrackId::NO_TRACK().as_str(),
        "/org/mpris/MediaPlayer2/TrackList/NoTrack"
    );
}

#[test]
fn valid_paths() {
    for s in ["/", "/a", "/io/github/seadve/Player/Track123", "/a_b/C9"] {
        assert_eq!(TrackId::try_from(s).unwrap().as_str(), s);
        assert_eq!(TrackId::try_from_string(s.to_string()).unwrap().as_str(), s);
    }
}

#[test]
fn invalid_paths() {
    for s in ["", "a", "a/b", "//", "/a//b", "/a/", "/a-b", "/é", "/a b"] {
        assert_eq!(TrackId::try_from(s), Err(InvalidObjectPath));
        assert_eq!(OwnedObjectPath::try_from(s), Err(InvalidObjectPath));
    }
}

#[test]
fn conversions_and_default() {
    let p = OwnedObjectPath::try_from("/x/y").unwrap();
    let t = TrackId::from(p.clone());
    assert_eq!(t.as_str(), "/x/y");
    assert_eq!(t.clone().into_inner(), p);
    assert_eq!(TrackId::default().as_str(), "/");
    assert_eq!(OwnedObjectPath::root().as_str(), "/");
    let round = TrackId::try_from(t.as_str()).unwrap();
    assert_eq!(round, t);
}
