use vstd::prelude::*;

use crate::text::str_eq;
use crate::value::{Value, ValueError, ValueView};

verus! {

/// A repeat / loop status.
#[derive(Debug, Clone, Copy, PartialEq, Eq, Structural)]
pub enum LoopStatus {
    /// The playback will stop when there are no more tracks to play.
    NoLoop,
    /// The current track will start again from the beginning once it has
    /// finished playing.
    Track,
    /// The playback loops through a list of tracks.
    Playlist,
}

/// The loop status named `s`, if any.
pub open spec fn parse_loop_status(s: Seq<char>) -> Option<LoopStatus> {
    if s == "None"@ {
        Some(LoopStatus::NoLoop)
    } else if s == "Track"@ {
        Some(LoopStatus::Track)
    } else if s == "Playlist"@ {
        Some(LoopStatus::Playlist)
    } else {
        None
    }
}

/// The message of the error for a string `s` that names no loop status.
pub open spec fn invalid_loop_status_message(s: Seq<char>) -> Seq<char> {
    "invalid loop status: "@ + s
}

impl LoopStatus {
    /// The name of this loop status.
    pub open spec fn name(self) -> Seq<char> {
        match self {
            LoopStatus::NoLoop => "None"@,
            LoopStatus::Track => "Track"@,
            LoopStatus::Playlist => "Playlist"@,
        }
    }

    /// Returns the string representation of this loop status.
    pub fn as_str(&self) -> (r: &'static str)
        ensures
            r@ == self.name(),
    {
        match self {
            LoopStatus::NoLoop => "None",
            LoopStatus::Track => "Track",
            LoopStatus::Playlist => "Playlist",
        }
    }

    /// Reads a loop status from a string value that names it.
    ///
    /// A value that is not a string is of the incorrect type; a string that
    /// names no loop status gives a message that quotes it.
    pub fn try_from(value: Value) -> (r: Result<LoopStatus, ValueError>)
        ensures
            match value@ {
                ValueView::Str(s) => match parse_loop_status(s) {
                    Some(status) => r == Ok::<LoopStatus, ValueError>(status),
                    None => r matches Err(ValueError::Message(m)) && m@
                        == invalid_loop_status_message(s),
                },
                _ => r == Err::<LoopStatus, ValueError>(ValueError::IncorrectType),
            },
    {
        match value {
            Value::Str(s) => {
                if str_eq(s.as_str(), "None") {
                    Ok(LoopStatus::NoLoop)
                } else if str_eq(s.as_str(), "Track") {
                    Ok(LoopStatus::Track)
                } else if str_eq(s.as_str(), "Playlist") {
                    Ok(LoopStatus::Playlist)
                } else {
                    let mut m = String::from_str("invalid loop status: ");
                    m.append(s.as_str());
                    Err(ValueError::Message(m))
                }
            },
            _ => Err(ValueError::IncorrectType),
        }
    }
}

/// Reading back the name of a loop status gives that loop status, so each
/// loop status has a name of its own.
pub proof fn law_loop_status_name_round_trip(status: LoopStatus)
    ensures
        parse_loop_status(status.name()) == Some(status),
{
    reveal_strlit("None");
    reveal_strlit("Track");
    reveal_strlit("Playlist");
    assert("None"@.len() == 4 && "Track"@.len() == 5 && "Playlist"@.len() == 8);
}

impl From<LoopStatus> for Value {
    /// The string value that names the loop status.
    fn from(status: LoopStatus) -> (v: Value)
        ensures
            v@ == ValueView::Str(status.name()),
    {
        Value::Str(String::from_str(status.as_str()))
    }
}

impl vstd::std_specs::convert::FromSpecImpl<LoopStatus> for Value {
    open spec fn obeys_from_spec() -> bool {
        false
    }

    open spec fn from_spec(status: LoopStatus) -> Value {
        arbitrary()
    }
}

} // verus!
