use vstd::prelude::*;

use crate::object_path::OwnedObjectPath;
use crate::signature::{bool_object_path_str_str_signature, object_path_str_str_signature};

verus! {

/// Unique playlist identifier: a D-Bus object path.
///
/// Multiple playlists may have the same name.
pub type PlaylistId = OwnedObjectPath;

/// A unique resource identifier.
///
/// URIs should be sent as (UTF-8) strings. Local files should use the
/// "file://" schema.
pub type Uri = String;

/// What a [`Playlist`] holds, as mathematical values.
pub struct PlaylistView {
    pub id: Seq<char>,
    pub name: Seq<char>,
    pub icon: Seq<char>,
}

/// A data structure describing a playlist.
#[derive(Debug)]
pub struct Playlist {
    /// A unique identifier for the playlist.
    ///
    /// This should remain the same if the playlist is renamed.
    pub id: PlaylistId,
    /// The name of the playlist, typically given by the user.
    pub name: String,
    /// The URI of an (optional) icon.
    pub icon: Uri,
}

impl View for Playlist {
    type V = PlaylistView;

    open spec fn view(&self) -> PlaylistView {
        PlaylistView { id: self.id@, name: self.name@, icon: self.icon@ }
    }
}

impl Playlist {
    /// The D-Bus signature of a playlist, `(oss)`.
    pub fn signature() -> (s: String)
        ensures
            s@ == seq!['(', 'o', 's', 's', ')'],
    {
        object_path_str_str_signature()
    }
}

impl Clone for Playlist {
    fn clone(&self) -> (r: Playlist)
        ensures
            r@ == self@,
    {
        Playlist { id: self.id.clone(), name: self.name.clone(), icon: self.icon.clone() }
    }
}

impl PartialEq for Playlist {
    fn eq(&self, other: &Playlist) -> (r: bool) {
        self.id == other.id && self.name == other.name && self.icon == other.icon
    }
}

impl vstd::std_specs::cmp::PartialEqSpecImpl for Playlist {
    open spec fn obeys_eq_spec() -> bool {
        true
    }

    open spec fn eq_spec(&self, other: &Playlist) -> bool {
        self@ == other@
    }
}

impl Eq for Playlist {

}

/// A data structure describing a playlist, or nothing.
///
/// The playlist that stands for nothing has the ID `/`, an empty name and an
/// empty icon.
#[derive(Debug)]
pub struct MaybePlaylist {
    /// Whether this structure refers to a valid playlist.
    valid: bool,
    /// The playlist, providing `valid` is true, otherwise undefined.
    playlist: Playlist,
}

impl MaybePlaylist {
    /// Whether this structure refers to a valid playlist.
    pub closed spec fn spec_valid(&self) -> bool {
        self.valid
    }

    /// The playlist held, which is meaningful only when it is valid.
    pub closed spec fn spec_playlist(&self) -> PlaylistView {
        self.playlist@
    }

    /// Construct a valid `MaybePlaylist` from the given playlist.
    pub fn some(playlist: Playlist) -> (m: MaybePlaylist)
        ensures
            m.spec_valid(),
            m.spec_playlist() == playlist@,
    {
        MaybePlaylist { valid: true, playlist }
    }

    /// Construct a `MaybePlaylist` that contains invalid/no playlist.
    pub fn none() -> (m: MaybePlaylist)
        ensures
            !m.spec_valid(),
            m.spec_playlist() == (PlaylistView {
                id: seq!['/'],
                name: Seq::<char>::empty(),
                icon: Seq::<char>::empty(),
            }),
    {
        MaybePlaylist {
            valid: false,
            playlist: Playlist { id: OwnedObjectPath::root(), name: String::new(), icon: String::new() },
        }
    }

    /// Construct a `MaybePlaylist` from an optional playlist.
    pub fn from_option(playlist: Option<Playlist>) -> (m: MaybePlaylist)
        ensures
            m.spec_valid() == (playlist is Some),
            playlist matches Some(p) ==> m.spec_playlist() == p@,
            playlist is None ==> m.spec_playlist() == (PlaylistView {
                id: seq!['/'],
                name: Seq::<char>::empty(),
                icon: Seq::<char>::empty(),
            }),
    {
        match playlist {
            Some(p) => MaybePlaylist::some(p),
            None => MaybePlaylist::none(),
        }
    }

    /// Whether this structure refers to a valid playlist.
    pub fn is_valid(&self) -> (b: bool)
        ensures
            b == self.spec_valid(),
    {
        self.valid
    }

    /// The playlist held, which is meaningful only when it is valid.
    pub fn playlist(&self) -> (p: &Playlist)
        ensures
            p@ == self.spec_playlist(),
    {
        &self.playlist
    }

    /// The D-Bus signature of a maybe-playlist, `(b(oss))`.
    pub fn signature() -> (s: String)
        ensures
            s@ == seq!['(', 'b', '(', 'o', 's', 's', ')', ')'],
    {
        bool_object_path_str_str_signature()
    }
}

impl From<Playlist> for MaybePlaylist {
    /// A valid `MaybePlaylist` of the playlist.
    fn from(playlist: Playlist) -> (m: MaybePlaylist)
        ensures
            m.spec_valid(),
            m.spec_playlist() == playlist@,
    {
        MaybePlaylist::some(playlist)
    }
}

impl vstd::std_specs::convert::FromSpecImpl<Playlist> for MaybePlaylist {
    open spec fn obeys_from_spec() -> bool {
        false
    }

    open spec fn from_spec(playlist: Playlist) -> MaybePlaylist {
        arbitrary()
    }
}

impl Clone for MaybePlaylist {
    fn clone(&self) -> (r: MaybePlaylist)
        ensures
            r.spec_valid() == self.spec_valid(),
            r.spec_playlist() == self.spec_playlist(),
    {
        MaybePlaylist { valid: self.valid, playlist: self.playlist.clone() }
    }
}

impl PartialEq for MaybePlaylist {
    fn eq(&self, other: &MaybePlaylist) -> (r: bool) {
        self.valid == other.valid && self.playlist == other.playlist
    }
}

impl vstd::std_specs::cmp::PartialEqSpecImpl for MaybePlaylist {
    open spec fn obeys_eq_spec() -> bool {
        true
    }

    open spec fn eq_spec(&self, other: &MaybePlaylist) -> bool {
        self.spec_valid() == other.spec_valid() && self.spec_playlist() == other.spec_playlist()
    }
}

impl Eq for MaybePlaylist {

}

} // verus!
