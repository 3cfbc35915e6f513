use mpris_server::{mpris_bus_name, InvalidBusName};

#[test]
fn identifier_suffix_gives_name() {
    assert_eq!(
        mpris_bus_name("vlc.instance7389"),
        Ok("org.mpris.MediaPlayer2.vlc.instance7389".to_string())
    );
    assert_eq!(
        mpris_bus_name("Test_Player-2"),
        Ok("org.mpris.MediaPlayer2.Test_Player-2".to_string())
    );
}

#[test]
fn empty_suffix_leaves_trailing_dot() {
    assert_eq!(
        mpris_bus_name(""),
        Ok("org.mpris.MediaPlayer2.".to_string())
    );
}

#[test]
fn invalid_suffixes_are_refused() {
    for suffix in ["1abc", "a..b", "a b", "é", "a.9"] {
        assert!(matches!(mpris_bus_name(suffix), Err(InvalidBusName(_))), "{suffix}");
    }
    let long = "a".repeat(233);
    assert!(mpris_bus_name(&long).is_err());
    let longest = "a".repeat(232);
    assert!(mpris_bus_name(&longest).is_ok());
}
