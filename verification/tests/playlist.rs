use mpris_server::{MaybePlaylist, OwnedObjectPath, Playlist};

#[test]
fn valid_signatures() {
    assert_eq!(Playlist::signature(), "(oss)");
    assert_eq!(MaybePlaylist::signature(), "(b(oss))");
}

#[test]
fn maybe_playlist_some_and_none() {
    let p = Playlist {
        id: OwnedObjectPath::try_from("/playlists/one").unwrap(),
        name: "One".to_string(),
        icon: String::new(),
    };
    let some = MaybePlaylist::some(p.clone());
    assert!(some.is_valid());
    assert_eq!(some.playlist(), &p);
    assert_eq!(MaybePlaylist::from(p.clone()), some);
    assert_eq!(MaybePlaylist::from_option(Some(p)), some);

    let none = MaybePlaylist::none();
    assert!(!none.is_valid());
    assert_eq!(none.playlist().id.as_str(), "/");
    assert_eq!(none.playlist().name, "");
    assert_eq!(none.playlist().icon, "");
    assert_eq!(MaybePlaylist::from_option(None), none);
    assert_ne!(none, some);
}
