use vstd::prelude::*;

use crate::object_path::{is_valid_object_path, InvalidObjectPath, OwnedObjectPath};

verus! {

/// The path that stands for "no track".
pub open spec fn no_track_path() -> Seq<char> {
    "/org/mpris/MediaPlayer2/TrackList/NoTrack"@
}

/// Unique track identifier: a D-Bus object path.
///
/// If the media player implements the TrackList interface and allows
/// the same track to appear multiple times in the tracklist, this
/// must be unique within the scope of the tracklist.
///
/// Media players may not use any paths starting with /org/mpris unless
/// explicitly allowed. Such paths are intended to have special meaning, such as
/// /org/mpris/MediaPlayer2/TrackList/NoTrack to indicate "no track".
///
/// Its view is the path's characters.
#[derive(Debug)]
pub struct TrackId(OwnedObjectPath);

impl View for TrackId {
    type V = Seq<char>;

    closed spec fn view(&self) -> Seq<char> {
        self.0@
    }
}

impl TrackId {
    /// A special track ID to indicate "no track".
    #[allow(non_snake_case)]
    pub fn NO_TRACK() -> (t: TrackId)
        ensures
            t@ == no_track_path(),
    {
        let s = "/org/mpris/MediaPlayer2/TrackList/NoTrack";
        proof {
            reveal_strlit("/org/mpris/MediaPlayer2/TrackList/NoTrack");
        }
        match OwnedObjectPath::try_from(s) {
            Ok(p) => TrackId(p),
            Err(_) => {
                assert(false);
                TrackId(OwnedObjectPath::root())
            },
        }
    }

    /// Returns the track ID as an object path.
    pub fn into_inner(self) -> (p: OwnedObjectPath)
        ensures
            p@ == self@,
    {
        self.0
    }

    /// The track ID as a string slice; it is always a valid object path.
    pub fn as_str(&self) -> (r: &str)
        ensures
            r@ == self@,
            is_valid_object_path(r@),
    {
        self.0.as_str()
    }

    /// Parses `s` as a track ID, failing if it is not a valid object path.
    pub fn try_from(s: &str) -> (r: Result<TrackId, InvalidObjectPath>)
        ensures
            r is Ok <==> is_valid_object_path(s@),
            r matches Ok(t) ==> t@ == s@,
    {
        match OwnedObjectPath::try_from(s) {
            Ok(p) => Ok(TrackId(p)),
            Err(e) => Err(e),
        }
    }

    /// Parses the owned string `s` as a track ID, failing if it is not a valid object path.
    pub fn try_from_string(s: String) -> (r: Result<TrackId, InvalidObjectPath>)
        ensures
            r is Ok <==> is_valid_object_path(s@),
            r matches Ok(t) ==> t@ == s@,
    {
        match OwnedObjectPath::try_from_string(s) {
            Ok(p) => Ok(TrackId(p)),
            Err(e) => Err(e),
        }
    }
}

impl From<OwnedObjectPath> for TrackId {
    fn from(p: OwnedObjectPath) -> (t: TrackId)
        ensures
            t@ == p@,
    {
        TrackId(p)
    }
}

impl vstd::std_specs::convert::FromSpecImpl<OwnedObjectPath> for TrackId {
    open spec fn obeys_from_spec() -> bool {
        true
    }

    closed spec fn from_spec(p: OwnedObjectPath) -> TrackId {
        TrackId(p)
    }
}

impl Default for TrackId {
    /// The root path, `/`.
    fn default() -> (t: TrackId)
        ensures
            t@ == seq!['/'],
    {
        TrackId(OwnedObjectPath::root())
    }
}

impl Clone for TrackId {
    fn clone(&self) -> (r: TrackId)
        ensures
            r@ == self@,
    {
        TrackId(self.0.clone())
    }
}

impl PartialEq for TrackId {
    fn eq(&self, other: &TrackId) -> (r: bool) {
        self.0 == other.0
    }
}

impl vstd::std_specs::cmp::PartialEqSpecImpl for TrackId {
    open spec fn obeys_eq_spec() -> bool {
        true
    }

    open spec fn eq_spec(&self, other: &TrackId) -> bool {
        self@ == other@
    }
}

impl Eq for TrackId {

}

} // verus!
