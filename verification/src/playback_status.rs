use vstd::prelude::*;

use crate::value::{Value, ValueView};

verus! {

/// A playback state.
#[derive(Debug, Clone, Copy, PartialEq, Eq, Structural)]
pub enum PlaybackStatus {
    /// A track is currently playing.
    Playing,
    /// A track is currently paused.
    Paused,
    /// There is no track currently playing.
    Stopped,
}

impl PlaybackStatus {
    /// The name of this playback status.
    pub open spec fn name(self) -> Seq<char> {
        match self {
            PlaybackStatus::Playing => "Playing"@,
            PlaybackStatus::Paused => "Paused"@,
            PlaybackStatus::Stopped => "Stopped"@,
        }
    }

    /// Returns the string representation of this playback status.
    pub fn as_str(&self) -> (r: &'static str)
        ensures
            r@ == self.name(),
    {
        match self {
            PlaybackStatus::Playing => "Playing",
            PlaybackStatus::Paused => "Paused",
            PlaybackStatus::Stopped => "Stopped",
        }
    }
}

/// Each playback status has a name of its own.
pub proof fn law_playback_status_names_distinct(a: PlaybackStatus, b: PlaybackStatus)
    ensures
        a.name() == b.name() <==> a == b,
{
    reveal_strlit("Playing");
    reveal_strlit("Paused");
    reveal_strlit("Stopped");
    assert("Playing"@.len() == 7 && "Paused"@.len() == 6 && "Stopped"@.len() == 7);
    assert("Playing"@[0] != "Stopped"@[0]);
}

impl From<PlaybackStatus> for Value {
    /// The string value that names the playback status.
    fn from(status: PlaybackStatus) -> (v: Value)
        ensures
            v@ == ValueView::Str(status.name()),
    {
        Value::Str(String::from_str(status.as_str()))
    }
}

impl vstd::std_specs::convert::FromSpecImpl<PlaybackStatus> for Value {
    open spec fn obeys_from_spec() -> bool {
        false
    }

    open spec fn from_spec(status: PlaybackStatus) -> Value {
        arbitrary()
    }
}

} // verus!
