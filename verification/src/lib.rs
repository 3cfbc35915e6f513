//! Verified core of a library that implements the MPRIS D-Bus interface on the
//! service side: the data that media players publish (times, track IDs,
//! metadata, playlists, playback and loop statuses), the rules that these
//! values obey, and the state of a premade player.

mod bus_name;
mod loop_status;
mod metadata;
mod object_path;
mod playback_status;
mod player;
mod playlist;
mod playlist_ordering;
mod property;
mod signal;
mod signature;
mod text;
mod time;
mod track_id;
mod value;

/// The builder-pattern structs; the `builder` and `new` functions of the
/// objects create them.
pub mod builder;

pub use crate::bus_name::{mpris_bus_name, InvalidBusName};
pub use crate::loop_status::LoopStatus;
pub use crate::metadata::{DateTime, Metadata};
pub use crate::object_path::{InvalidObjectPath, OwnedObjectPath};
pub use crate::playback_status::PlaybackStatus;
pub use crate::player::{PlayerState, ONE_F64_BITS};
pub use crate::playlist::{MaybePlaylist, Playlist, PlaylistId, Uri};
pub use crate::playlist_ordering::PlaylistOrdering;
pub use crate::property::{
    player_changes, track_list_changes, PlaylistsProperty, Property, TrackListChanges,
    TrackListProperty,
};
pub use crate::signal::{PlaylistsSignal, Signal, TrackListSignal};
pub use crate::time::Time;
pub use crate::track_id::TrackId;
pub use crate::value::{Value, ValueError};
