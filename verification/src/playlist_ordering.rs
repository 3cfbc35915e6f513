use vstd::prelude::*;

use crate::text::str_eq;
use crate::value::{Value, ValueView};

verus! {

/// Specifies the ordering of returned playlists.
///
/// Some media players may allow users to order playlists as they wish. This
/// ordering allows playlists to be retrieved in that order.
#[derive(Debug, Clone, Copy, PartialEq, Eq, Structural)]
pub enum PlaylistOrdering {
    /// Alphabetical ordering by name, ascending.
    Alphabetical,
    /// Ordering by creation date, oldest first.
    CreationDate,
    /// Ordering by last modified date, oldest first.
    ModifiedDate,
    /// Ordering by date of last playback, oldest first.
    LastPlayDate,
    /// A user-defined ordering.
    UserDefined,
}

/// The playlist ordering named `s` on the bus, if any.
pub open spec fn parse_playlist_ordering(s: Seq<char>) -> Option<PlaylistOrdering> {
    if s == "Alphabetical"@ {
        Some(PlaylistOrdering::Alphabetical)
    } else if s == "Created"@ {
        Some(PlaylistOrdering::CreationDate)
    } else if s == "Modified"@ {
        Some(PlaylistOrdering::ModifiedDate)
    } else if s == "Played"@ {
        Some(PlaylistOrdering::LastPlayDate)
    } else if s == "User"@ {
        Some(PlaylistOrdering::UserDefined)
    } else {
        None
    }
}

impl PlaylistOrdering {
    /// The name of this ordering on the bus.
    pub open spec fn name(self) -> Seq<char> {
        match self {
            PlaylistOrdering::Alphabetical => "Alphabetical"@,
            PlaylistOrdering::CreationDate => "Created"@,
            PlaylistOrdering::ModifiedDate => "Modified"@,
            PlaylistOrdering::LastPlayDate => "Played"@,
            PlaylistOrdering::UserDefined => "User"@,
        }
    }

    /// Returns the string representation of this playlist ordering.
    pub fn as_str(&self) -> (r: &'static str)
        ensures
            r@ == self.name(),
    {
        match self {
            PlaylistOrdering::Alphabetical => "Alphabetical",
            PlaylistOrdering::CreationDate => "Created",
            PlaylistOrdering::ModifiedDate => "Modified",
            PlaylistOrdering::LastPlayDate => "Played",
            PlaylistOrdering::UserDefined => "User",
        }
    }

    /// The ordering that `name` stands for on the bus, if any; this is how an
    /// ordering is read from a message.
    pub fn from_name(name: &str) -> (r: Option<PlaylistOrdering>)
        ensures
            r == parse_playlist_ordering(name@),
    {
        if str_eq(name, "Alphabetical") {
            Some(PlaylistOrdering::Alphabetical)
        } else if str_eq(name, "Created") {
            Some(PlaylistOrdering::CreationDate)
        } else if str_eq(name, "Modified") {
            Some(PlaylistOrdering::ModifiedDate)
        } else if str_eq(name, "Played") {
            Some(PlaylistOrdering::LastPlayDate)
        } else if str_eq(name, "User") {
            Some(PlaylistOrdering::UserDefined)
        } else {
            None
        }
    }
}

/// Reading back the name of an ordering gives that ordering, so each ordering
/// has a name of its own.
pub proof fn law_playlist_ordering_name_round_trip(ordering: PlaylistOrdering)
    ensures
        parse_playlist_ordering(ordering.name()) == Some(ordering),
{
    reveal_strlit("Alphabetical");
    reveal_strlit("Created");
    reveal_strlit("Modified");
    reveal_strlit("Played");
    reveal_strlit("User");
    assert("Alphabetical"@.len() == 12 && "Created"@.len() == 7 && "Modified"@.len() == 8
        && "Played"@.len() == 6 && "User"@.len() == 4);
}

impl From<PlaylistOrdering> for Value {
    /// The string value that names the ordering.
    fn from(ordering: PlaylistOrdering) -> (v: Value)
        ensures
            v@ == ValueView::Str(ordering.name()),
    {
        Value::Str(String::from_str(ordering.as_str()))
    }
}

impl vstd::std_specs::convert::FromSpecImpl<PlaylistOrdering> for Value {
    open spec fn obeys_from_spec() -> bool {
        false
    }

    open spec fn from_spec(ordering: PlaylistOrdering) -> Value {
        arbitrary()
    }
}

} // verus!
