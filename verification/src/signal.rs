use vstd::prelude::*;

use crate::metadata::Metadata;
use crate::playlist::Playlist;
use crate::time::Time;
use crate::track_id::TrackId;

verus! {

/// A signal of the `org.mpris.MediaPlayer2.Player` interface.
#[derive(Debug)]
pub enum Signal {
    /// Indicates that the track position has changed in a way that is
    /// inconsistent with the current playing state.
    ///
    /// When this signal is not received, clients should assume that:
    ///
    /// * When playing, the position progresses according to the rate property.
    /// * When paused, it remains constant.
    ///
    /// This signal does not need to be emitted when playback starts or when the
    /// track changes, unless the track is starting at an unexpected position.
    Seeked {
        /// The new position.
        position: Time,
    },
}

/// A signal of the `org.mpris.MediaPlayer2.TrackList` interface.
#[derive(Debug)]
pub enum TrackListSignal {
    /// Indicates that the entire tracklist has been replaced.
    ///
    /// It is left up to the implementation to decide when a change to the track
    /// list is invasive enough that this signal should be emitted instead of a
    /// series of `TrackAdded` and `TrackRemoved` signals.
    TrackListReplaced {
        /// The new content of the tracklist.
        tracks: Vec<TrackId>,
        /// The identifier of the track to be considered as current;
        /// `/org/mpris/MediaPlayer2/TrackList/NoTrack` indicates that there is
        /// no current track.
        current_track: TrackId,
    },
    /// Indicates that a track has been added to the track list.
    TrackAdded {
        /// The metadata of the newly added item. This must include a
        /// `mpris:trackid` entry.
        metadata: Metadata,
        /// The identifier of the track after which the new track was inserted;
        /// `/org/mpris/MediaPlayer2/TrackList/NoTrack` indicates that the track
        /// was inserted at the start of the track list.
        after_track: TrackId,
    },
    /// Indicates that a track has been removed from the track list.
    TrackRemoved {
        /// The identifier of the track being removed; "no track" is not a
        /// valid value for it.
        track_id: TrackId,
    },
    /// Indicates that the metadata of a track in the tracklist has changed.
    ///
    /// This may indicate that a track has been replaced, in which case the
    /// `mpris:trackid` metadata entry is different from the `track_id`.
    TrackMetadataChanged {
        /// The id of the track which metadata has changed. If the track id has
        /// changed, this will be the old value.
        track_id: TrackId,
        /// The new track metadata. This must include a `mpris:trackid` entry.
        /// If the track id has changed, this will be the new value.
        metadata: Metadata,
    },
}

/// A signal of the `org.mpris.MediaPlayer2.Playlists` interface.
#[derive(Debug)]
pub enum PlaylistsSignal {
    /// Indicates that either the Name or Icon attribute of a playlist has
    /// changed.
    ///
    /// Client implementations should be aware that this signal may not be
    /// implemented.
    PlaylistChanged {
        /// The playlist which details have changed.
        playlist: Playlist,
    },
}

} // verus!
