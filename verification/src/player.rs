use vstd::prelude::*;

use crate::loop_status::LoopStatus;
use crate::metadata::{metadata_eq, Metadata};
use crate::playback_status::PlaybackStatus;
use crate::text::strings_eq;
use crate::time::Time;
use crate::value::{f64_bits_eq, f64_bits_equal, strings_view, ValueView};

verus! {

/// The bit pattern of the double 1.0 (`1.0f64.to_bits()`).
pub const ONE_F64_BITS: u64 = 0x3ff0_0000_0000_0000;

/// What a [`PlayerState`] holds, as mathematical values.
pub struct PlayerStateView {
    pub can_quit: bool,
    pub fullscreen: bool,
    pub can_set_fullscreen: bool,
    pub can_raise: bool,
    pub has_track_list: bool,
    pub identity: Seq<char>,
    pub desktop_entry: Seq<char>,
    pub supported_uri_schemes: Seq<Seq<char>>,
    pub supported_mime_types: Seq<Seq<char>>,
    pub playback_status: PlaybackStatus,
    pub loop_status: LoopStatus,
    pub rate_bits: u64,
    pub shuffle: bool,
    pub metadata: Map<Seq<char>, ValueView>,
    pub volume_bits: u64,
    pub position: int,
    pub minimum_rate_bits: u64,
    pub maximum_rate_bits: u64,
    pub can_go_next: bool,
    pub can_go_previous: bool,
    pub can_play: bool,
    pub can_pause: bool,
    pub can_seek: bool,
    pub can_control: bool,
}

/// The properties of a premade media player: the state that the
/// `org.mpris.MediaPlayer2` and `org.mpris.MediaPlayer2.Player` interfaces
/// report.
///
/// Each setter reports whether the value changed, which is when the change
/// must be announced on the bus; setting a property to the value it has
/// changes nothing and is not announced.
///
/// Doubles (rates and volume) are held as their IEEE 754 bit patterns and
/// compared as doubles: a NaN always counts as a change, and the two zeros
/// as the same value.
#[derive(Debug)]
pub struct PlayerState {
    can_quit: bool,
    fullscreen: bool,
    can_set_fullscreen: bool,
    can_raise: bool,
    has_track_list: bool,
    identity: String,
    desktop_entry: String,
    supported_uri_schemes: Vec<String>,
    supported_mime_types: Vec<String>,
    playback_status: PlaybackStatus,
    loop_status: LoopStatus,
    rate_bits: u64,
    shuffle: bool,
    metadata: Metadata,
    volume_bits: u64,
    position: Time,
    minimum_rate_bits: u64,
    maximum_rate_bits: u64,
    can_go_next: bool,
    can_go_previous: bool,
    can_play: bool,
    can_pause: bool,
    can_seek: bool,
    can_control: bool,
}

impl View for PlayerState {
    type V = PlayerStateView;

    closed spec fn view(&self) -> PlayerStateView {
        PlayerStateView {
            can_quit: self.can_quit,
            fullscreen: self.fullscreen,
            can_set_fullscreen: self.can_set_fullscreen,
            can_raise: self.can_raise,
            has_track_list: self.has_track_list,
            identity: self.identity@,
            desktop_entry: self.desktop_entry@,
            supported_uri_schemes: strings_view(self.supported_uri_schemes@),
            supported_mime_types: strings_view(self.supported_mime_types@),
            playback_status: self.playback_status,
            loop_status: self.loop_status,
            rate_bits: self.rate_bits,
            shuffle: self.shuffle,
            metadata: self.metadata@,
            volume_bits: self.volume_bits,
            position: self.position@,
            minimum_rate_bits: self.minimum_rate_bits,
            maximum_rate_bits: self.maximum_rate_bits,
            can_go_next: self.can_go_next,
            can_go_previous: self.can_go_previous,
            can_play: self.can_play,
            can_pause: self.can_pause,
            can_seek: self.can_seek,
            can_control: self.can_control,
        }
    }
}

impl PlayerState {
    /// Whether the player may be asked to quit.
    pub fn can_quit(&self) -> (r: bool)
        ensures
            r == self@.can_quit,
    {
        self.can_quit
    }

    /// Sets: whether the player may be asked to quit.
    ///
    /// Returns whether the value changed.
    pub fn set_can_quit(&mut self, can_quit: bool) -> (changed: bool)
        ensures
            changed == (old(self)@.can_quit != can_quit),
            final(self)@ == (PlayerStateView { can_quit: can_quit, ..old(self)@ }),
    {
        if self.can_quit == can_quit {
            return false;
        }
        self.can_quit = can_quit;
        true
    }

    /// Whether the media player is occupying the fullscreen.
    pub fn fullscreen(&self) -> (r: bool)
        ensures
            r == self@.fullscreen,
    {
        self.fullscreen
    }

    /// Sets: whether the media player is occupying the fullscreen.
    ///
    /// Returns whether the value changed.
    pub fn set_fullscreen(&mut self, fullscreen: bool) -> (changed: bool)
        ensures
            changed == (old(self)@.fullscreen != fullscreen),
            final(self)@ == (PlayerStateView { fullscreen: fullscreen, ..old(self)@ }),
    {
        if self.fullscreen == fullscreen {
            return false;
        }
        self.fullscreen = fullscreen;
        true
    }

    /// Whether the player may be asked to enter or leave fullscreen.
    pub fn can_set_fullscreen(&self) -> (r: bool)
        ensures
            r == self@.can_set_fullscreen,
    {
        self.can_set_fullscreen
    }

    /// Sets: whether the player may be asked to enter or leave fullscreen.
    ///
    /// Returns whether the value changed.
    pub fn set_can_set_fullscreen(&mut self, can_set_fullscreen: bool) -> (changed: bool)
        ensures
            changed == (old(self)@.can_set_fullscreen != can_set_fullscreen),
            final(self)@ == (PlayerStateView { can_set_fullscreen: can_set_fullscreen, ..old(self)@ }),
    {
        if self.can_set_fullscreen == can_set_fullscreen {
            return false;
        }
        self.can_set_fullscreen = can_set_fullscreen;
        true
    }

    /// Whether the media player may be asked to be raised.
    pub fn can_raise(&self) -> (r: bool)
        ensures
            r == self@.can_raise,
    {
        self.can_raise
    }

    /// Sets: whether the media player may be asked to be raised.
    ///
    /// Returns whether the value changed.
    pub fn set_can_raise(&mut self, can_raise: bool) -> (changed: bool)
        ensures
            changed == (old(self)@.can_raise != can_raise),
            final(self)@ == (PlayerStateView { can_raise: can_raise, ..old(self)@ }),
    {
        if self.can_raise == can_raise {
            return false;
        }
        self.can_raise = can_raise;
        true
    }

    /// Whether the player implements the TrackList interface.
    pub fn has_track_list(&self) -> (r: bool)
        ensures
            r == self@.has_track_list,
    {
        self.has_track_list
    }

    /// Sets: whether the player implements the TrackList interface.
    ///
    /// Returns whether the value changed.
    pub fn set_has_track_list(&mut self, has_track_list: bool) -> (changed: bool)
        ensures
            changed == (old(self)@.has_track_list != has_track_list),
            final(self)@ == (PlayerStateView { has_track_list: has_track_list, ..old(self)@ }),
    {
        if self.has_track_list == has_track_list {
            return false;
        }
        self.has_track_list = has_track_list;
        true
    }

    /// A friendly name to identify the media player to users.
    pub fn identity(&self) -> (r: &str)
        ensures
            r@ == self@.identity,
    {
        self.identity.as_str()
    }

    /// Sets: a friendly name to identify the media player to users.
    ///
    /// Returns whether the value changed.
    pub fn set_identity(&mut self, identity: String) -> (changed: bool)
        ensures
            changed == (old(self)@.identity != identity@),
            final(self)@ == (PlayerStateView { identity: identity@, ..old(self)@ }),
    {
        if self.identity == identity {
            return false;
        }
        self.identity = identity;
        true
    }

    /// The basename of the player's installed .desktop file, without the extension.
    pub fn desktop_entry(&self) -> (r: &str)
        ensures
            r@ == self@.desktop_entry,
    {
        self.desktop_entry.as_str()
    }

    /// Sets: the basename of the player's installed .desktop file, without the extension.
    ///
    /// Returns whether the value changed.
    pub fn set_desktop_entry(&mut self, desktop_entry: String) -> (changed: bool)
        ensures
            changed == (old(self)@.desktop_entry != desktop_entry@),
            final(self)@ == (PlayerStateView { desktop_entry: desktop_entry@, ..old(self)@ }),
    {
        if self.desktop_entry == desktop_entry {
            return false;
        }
        self.desktop_entry = desktop_entry;
        true
    }

    /// The URI schemes supported by the media player.
    pub fn supported_uri_schemes(&self) -> (r: &Vec<String>)
        ensures
            strings_view(r@) == self@.supported_uri_schemes,
    {
        &self.supported_uri_schemes
    }

    /// Sets: the URI schemes supported by the media player.
    ///
    /// Returns whether the value changed.
    pub fn set_supported_uri_schemes(&mut self, supported_uri_schemes: Vec<String>) -> (changed: bool)
        ensures
            changed == (old(self)@.supported_uri_schemes != strings_view(supported_uri_schemes@)),
            final(self)@ == (PlayerStateView { supported_uri_schemes: strings_view(supported_uri_schemes@), ..old(self)@ }),
    {
        if strings_eq(&self.supported_uri_schemes, &supported_uri_schemes) {
            return false;
        }
        self.supported_uri_schemes = supported_uri_schemes;
        true
    }

    /// The mime-types supported by the media player.
    pub fn supported_mime_types(&self) -> (r: &Vec<String>)
        ensures
            strings_view(r@) == self@.supported_mime_types,
    {
        &self.supported_mime_types
    }

    /// Sets: the mime-types supported by the media player.
    ///
    /// Returns whether the value changed.
    pub fn set_supported_mime_types(&mut self, supported_mime_types: Vec<String>) -> (changed: bool)
        ensures
            changed == (old(self)@.supported_mime_types != strings_view(supported_mime_types@)),
            final(self)@ == (PlayerStateView { supported_mime_types: strings_view(supported_mime_types@), ..old(self)@ }),
    {
        if strings_eq(&self.supported_mime_types, &supported_mime_types) {
            return false;
        }
        self.supported_mime_types = supported_mime_types;
        true
    }

    /// The current playback status.
    pub fn playback_status(&self) -> (r: PlaybackStatus)
        ensures
            r == self@.playback_status,
    {
        self.playback_status
    }

    /// Sets: the current playback status.
    ///
    /// Returns whether the value changed.
    pub fn set_playback_status(&mut self, playback_status: PlaybackStatus) -> (changed: bool)
        ensures
            changed == (old(self)@.playback_status != playback_status),
            final(self)@ == (PlayerStateView { playback_status: playback_status, ..old(self)@ }),
    {
        if self.playback_status == playback_status {
            return false;
        }
        self.playback_status = playback_status;
        true
    }

    /// The current loop / repeat status.
    pub fn loop_status(&self) -> (r: LoopStatus)
        ensures
            r == self@.loop_status,
    {
        self.loop_status
    }

    /// Sets: the current loop / repeat status.
    ///
    /// Returns whether the value changed.
    pub fn set_loop_status(&mut self, loop_status: LoopStatus) -> (changed: bool)
        ensures
            changed == (old(self)@.loop_status != loop_status),
            final(self)@ == (PlayerStateView { loop_status: loop_status, ..old(self)@ }),
    {
        if self.loop_status == loop_status {
            return false;
        }
        self.loop_status = loop_status;
        true
    }

    /// The current playback rate, as the bit pattern of a double.
    pub fn rate_bits(&self) -> (r: u64)
        ensures
            r == self@.rate_bits,
    {
        self.rate_bits
    }

    /// Sets: the current playback rate, as the bit pattern of a double.
    ///
    /// Returns whether the value changed, the two doubles compared as doubles;
    /// where they compare equal the state is left as it was.
    pub fn set_rate_bits(&mut self, rate_bits: u64) -> (changed: bool)
        ensures
            changed == !f64_bits_eq(old(self)@.rate_bits, rate_bits),
            final(self)@ == (if changed {
                PlayerStateView { rate_bits: rate_bits, ..old(self)@ }
            } else {
                old(self)@
            }),
    {
        if f64_bits_equal(self.rate_bits, rate_bits) {
            return false;
        }
        self.rate_bits = rate_bits;
        true
    }

    /// Whether playback is shuffled.
    pub fn shuffle(&self) -> (r: bool)
        ensures
            r == self@.shuffle,
    {
        self.shuffle
    }

    /// Sets: whether playback is shuffled.
    ///
    /// Returns whether the value changed.
    pub fn set_shuffle(&mut self, shuffle: bool) -> (changed: bool)
        ensures
            changed == (old(self)@.shuffle != shuffle),
            final(self)@ == (PlayerStateView { shuffle: shuffle, ..old(self)@ }),
    {
        if self.shuffle == shuffle {
            return false;
        }
        self.shuffle = shuffle;
        true
    }

    /// The metadata of the current element.
    pub fn metadata(&self) -> (r: &Metadata)
        ensures
            r@ == self@.metadata,
    {
        &self.metadata
    }

    /// Sets: the metadata of the current element.
    ///
    /// Returns whether the value changed, values compared as by `==` on
    /// [`Metadata`]; where they compare equal the state is left as it was.
    pub fn set_metadata(&mut self, metadata: Metadata) -> (changed: bool)
        ensures
            changed == !metadata_eq(old(self)@.metadata, metadata@),
            final(self)@ == (if changed {
                PlayerStateView { metadata: metadata@, ..old(self)@ }
            } else {
                old(self)@
            }),
    {
        if self.metadata.same_as(&metadata) {
            return false;
        }
        self.metadata = metadata;
        true
    }

    /// The volume level, as the bit pattern of a double.
    pub fn volume_bits(&self) -> (r: u64)
        ensures
            r == self@.volume_bits,
    {
        self.volume_bits
    }

    /// Sets: the volume level, as the bit pattern of a double.
    ///
    /// Returns whether the value changed, the two doubles compared as doubles;
    /// where they compare equal the state is left as it was.
    pub fn set_volume_bits(&mut self, volume_bits: u64) -> (changed: bool)
        ensures
            changed == !f64_bits_eq(old(self)@.volume_bits, volume_bits),
            final(self)@ == (if changed {
                PlayerStateView { volume_bits: volume_bits, ..old(self)@ }
            } else {
                old(self)@
            }),
    {
        if f64_bits_equal(self.volume_bits, volume_bits) {
            return false;
        }
        self.volume_bits = volume_bits;
        true
    }

    /// The current track position.
    pub fn position(&self) -> (r: Time)
        ensures
            r@ == self@.position,
    {
        self.position
    }

    /// Sets: the current track position.
    ///
    /// Returns whether the value changed.
    pub fn set_position(&mut self, position: Time) -> (changed: bool)
        ensures
            changed == (old(self)@.position != position@),
            final(self)@ == (PlayerStateView { position: position@, ..old(self)@ }),
    {
        proof {
            Time::lemma_view_injective(self.position, position);
        }
        if self.position == position {
            return false;
        }
        self.position = position;
        true
    }

    /// The minimum value which the playback rate can take, as the bit pattern of a double.
    pub fn minimum_rate_bits(&self) -> (r: u64)
        ensures
            r == self@.minimum_rate_bits,
    {
        self.minimum_rate_bits
    }

    /// Sets: the minimum value which the playback rate can take, as the bit pattern of a double.
    ///
    /// Returns whether the value changed, the two doubles compared as doubles;
    /// where they compare equal the state is left as it was.
    pub fn set_minimum_rate_bits(&mut self, minimum_rate_bits: u64) -> (changed: bool)
        ensures
            changed == !f64_bits_eq(old(self)@.minimum_rate_bits, minimum_rate_bits),
            final(self)@ == (if changed {
                PlayerStateView { minimum_rate_bits: minimum_rate_bits, ..old(self)@ }
            } else {
                old(self)@
            }),
    {
        if f64_bits_equal(self.minimum_rate_bits, minimum_rate_bits) {
            return false;
        }
        self.minimum_rate_bits = minimum_rate_bits;
        true
    }

    /// The maximum value which the playback rate can take, as the bit pattern of a double.
    pub fn maximum_rate_bits(&self) -> (r: u64)
        ensures
            r == self@.maximum_rate_bits,
    {
        self.maximum_rate_bits
    }

    /// Sets: the maximum value which the playback rate can take, as the bit pattern of a double.
    ///
    /// Returns whether the value changed, the two doubles compared as doubles;
    /// where they compare equal the state is left as it was.
    pub fn set_maximum_rate_bits(&mut self, maximum_rate_bits: u64) -> (changed: bool)
        ensures
            changed == !f64_bits_eq(old(self)@.maximum_rate_bits, maximum_rate_bits),
            final(self)@ == (if changed {
                PlayerStateView { maximum_rate_bits: maximum_rate_bits, ..old(self)@ }
            } else {
                old(self)@
            }),
    {
        if f64_bits_equal(self.maximum_rate_bits, maximum_rate_bits) {
            return false;
        }
        self.maximum_rate_bits = maximum_rate_bits;
        true
    }

    /// Whether the client can call the `Next` method and expect the current track to change.
    pub fn can_go_next(&self) -> (r: bool)
        ensures
            r == self@.can_go_next,
    {
        self.can_go_next
    }

    /// Sets: whether the client can call the `Next` method and expect the current track to change.
    ///
    /// Returns whether the value changed.
    pub fn set_can_go_next(&mut self, can_go_next: bool) -> (changed: bool)
        ensures
            changed == (old(self)@.can_go_next != can_go_next),
            final(self)@ == (PlayerStateView { can_go_next: can_go_next, ..old(self)@ }),
    {
        if self.can_go_next == can_go_next {
            return false;
        }
        self.can_go_next = can_go_next;
        true
    }

    /// Whether the client can call the `Previous` method and expect the current track to change.
    pub fn can_go_previous(&self) -> (r: bool)
        ensures
            r == self@.can_go_previous,
    {
        self.can_go_previous
    }

    /// Sets: whether the client can call the `Previous` method and expect the current track to change.
    ///
    /// Returns whether the value changed.
    pub fn set_can_go_previous(&mut self, can_go_previous: bool) -> (changed: bool)
        ensures
            changed == (old(self)@.can_go_previous != can_go_previous),
            final(self)@ == (PlayerStateView { can_go_previous: can_go_previous, ..old(self)@ }),
    {
        if self.can_go_previous == can_go_previous {
            return false;
        }
        self.can_go_previous = can_go_previous;
        true
    }

    /// Whether playback can be started.
    pub fn can_play(&self) -> (r: bool)
        ensures
            r == self@.can_play,
    {
        self.can_play
    }

    /// Sets: whether playback can be started.
    ///
    /// Returns whether the value changed.
    pub fn set_can_play(&mut self, can_play: bool) -> (changed: bool)
        ensures
            changed == (old(self)@.can_play != can_play),
            final(self)@ == (PlayerStateView { can_play: can_play, ..old(self)@ }),
    {
        if self.can_play == can_play {
            return false;
        }
        self.can_play = can_play;
        true
    }

    /// Whether playback can be paused.
    pub fn can_pause(&self) -> (r: bool)
        ensures
            r == self@.can_pause,
    {
        self.can_pause
    }

    /// Sets: whether playback can be paused.
    ///
    /// Returns whether the value changed.
    pub fn set_can_pause(&mut self, can_pause: bool) -> (changed: bool)
        ensures
            changed == (old(self)@.can_pause != can_pause),
            final(self)@ == (PlayerStateView { can_pause: can_pause, ..old(self)@ }),
    {
        if self.can_pause == can_pause {
            return false;
        }
        self.can_pause = can_pause;
        true
    }

    /// Whether the client can control the playback position.
    pub fn can_seek(&self) -> (r: bool)
        ensures
            r == self@.can_seek,
    {
        self.can_seek
    }

    /// Sets: whether the client can control the playback position.
    ///
    /// Returns whether the value changed.
    pub fn set_can_seek(&mut self, can_seek: bool) -> (changed: bool)
        ensures
            changed == (old(self)@.can_seek != can_seek),
            final(self)@ == (PlayerStateView { can_seek: can_seek, ..old(self)@ }),
    {
        if self.can_seek == can_seek {
            return false;
        }
        self.can_seek = can_seek;
        true
    }

    /// Whether the media player may be controlled over this interface.
    pub fn can_control(&self) -> (r: bool)
        ensures
            r == self@.can_control,
    {
        self.can_control
    }

    /// Sets: whether the media player may be controlled over this interface.
    ///
    /// Returns whether the value changed.
    pub fn set_can_control(&mut self, can_control: bool) -> (changed: bool)
        ensures
            changed == (old(self)@.can_control != can_control),
            final(self)@ == (PlayerStateView { can_control: can_control, ..old(self)@ }),
    {
        if self.can_control == can_control {
            return false;
        }
        self.can_control = can_control;
        true
    }

}

/// A builder of the properties of a premade media player, and of the bus name
/// suffix that it is served under.
#[derive(Debug)]
pub struct PlayerBuilder {
    bus_name_suffix: String,
    state: PlayerState,
}

impl PlayerBuilder {
    /// The bus name suffix that the player will be served under.
    pub closed spec fn spec_bus_name_suffix(&self) -> Seq<char> {
        self.bus_name_suffix@
    }

    /// The properties that the player will start with.
    pub closed spec fn spec_state(&self) -> PlayerStateView {
        self.state@
    }

    /// A builder for a player served under `org.mpris.MediaPlayer2.<bus_name_suffix>`,
    /// with the default properties: nothing can be done but control, the
    /// playback is stopped and not looped nor shuffled, the rates and volume are
    /// 1.0, the position is zero, the metadata, identity and desktop entry are
    /// empty and no URI scheme or mime type is supported.
    pub fn new(bus_name_suffix: &str) -> (b: PlayerBuilder)
        ensures
            b.spec_bus_name_suffix() == bus_name_suffix@,
            b.spec_state() == (PlayerStateView {
                can_quit: false,
                fullscreen: false,
                can_set_fullscreen: false,
                can_raise: false,
                has_track_list: false,
                identity: Seq::<char>::empty(),
                desktop_entry: Seq::<char>::empty(),
                supported_uri_schemes: Seq::<Seq<char>>::empty(),
                supported_mime_types: Seq::<Seq<char>>::empty(),
                playback_status: PlaybackStatus::Stopped,
                loop_status: LoopStatus::NoLoop,
                rate_bits: ONE_F64_BITS,
                shuffle: false,
                metadata: Map::<Seq<char>, ValueView>::empty(),
                volume_bits: ONE_F64_BITS,
                position: 0,
                minimum_rate_bits: ONE_F64_BITS,
                maximum_rate_bits: ONE_F64_BITS,
                can_go_next: false,
                can_go_previous: false,
                can_play: false,
                can_pause: false,
                can_seek: false,
                can_control: true,
            }),
    {
        let supported_uri_schemes: Vec<String> = Vec::new();
        let supported_mime_types: Vec<String> = Vec::new();
        let state = PlayerState {
            can_quit: false,
            fullscreen: false,
            can_set_fullscreen: false,
            can_raise: false,
            has_track_list: false,
            identity: String::new(),
            desktop_entry: String::new(),
            supported_uri_schemes,
            supported_mime_types,
            playback_status: PlaybackStatus::Stopped,
            loop_status: LoopStatus::NoLoop,
            rate_bits: ONE_F64_BITS,
            shuffle: false,
            metadata: Metadata::new(),
            volume_bits: ONE_F64_BITS,
            position: Time::ZERO(),
            minimum_rate_bits: ONE_F64_BITS,
            maximum_rate_bits: ONE_F64_BITS,
            can_go_next: false,
            can_go_previous: false,
            can_play: false,
            can_pause: false,
            can_seek: false,
            can_control: true,
        };
        proof {
            assert(strings_view(state.supported_uri_schemes@) =~= Seq::<Seq<char>>::empty());
            assert(strings_view(state.supported_mime_types@) =~= Seq::<Seq<char>>::empty());
        }
        PlayerBuilder { bus_name_suffix: bus_name_suffix.to_owned(), state }
    }

    /// Sets the initial value: whether the player may be asked to quit.
    pub fn can_quit(self, can_quit: bool) -> (b: PlayerBuilder)
        ensures
            b.spec_bus_name_suffix() == self.spec_bus_name_suffix(),
            b.spec_state() == (PlayerStateView { can_quit: can_quit, ..self.spec_state() }),
    {
        let mut state = self.state;
        state.set_can_quit(can_quit);
        PlayerBuilder { bus_name_suffix: self.bus_name_suffix, state }
    }

    /// Sets the initial value: whether the media player is occupying the fullscreen.
    pub fn fullscreen(self, fullscreen: bool) -> (b: PlayerBuilder)
        ensures
            b.spec_bus_name_suffix() == self.spec_bus_name_suffix(),
            b.spec_state() == (PlayerStateView { fullscreen: fullscreen, ..self.spec_state() }),
    {
        let mut state = self.state;
        state.set_fullscreen(fullscreen);
        PlayerBuilder { bus_name_suffix: self.bus_name_suffix, state }
    }

    /// Sets the initial value: whether the player may be asked to enter or leave fullscreen.
    pub fn can_set_fullscreen(self, can_set_fullscreen: bool) -> (b: PlayerBuilder)
        ensures
            b.spec_bus_name_suffix() == self.spec_bus_name_suffix(),
            b.spec_state() == (PlayerStateView { can_set_fullscreen: can_set_fullscreen, ..self.spec_state() }),
    {
        let mut state = self.state;
        state.set_can_set_fullscreen(can_set_fullscreen);
        PlayerBuilder { bus_name_suffix: self.bus_name_suffix, state }
    }

    /// Sets the initial value: whether the media player may be asked to be raised.
    pub fn can_raise(self, can_raise: bool) -> (b: PlayerBuilder)
        ensures
            b.spec_bus_name_suffix() == self.spec_bus_name_suffix(),
            b.spec_state() == (PlayerStateView { can_raise: can_raise, ..self.spec_state() }),
    {
        let mut state = self.state;
        state.set_can_raise(can_raise);
        PlayerBuilder { bus_name_suffix: self.bus_name_suffix, state }
    }

    /// Sets the initial value: whether the player implements the TrackList interface.
    pub fn has_track_list(self, has_track_list: bool) -> (b: PlayerBuilder)
        ensures
            b.spec_bus_name_suffix() == self.spec_bus_name_suffix(),
            b.spec_state() == (PlayerStateView { has_track_list: has_track_list, ..self.spec_state() }),
    {
        let mut state = self.state;
        state.set_has_track_list(has_track_list);
        PlayerBuilder { bus_name_suffix: self.bus_name_suffix, state }
    }

    /// Sets the initial value: a friendly name to identify the media player to users.
    pub fn identity(self, identity: String) -> (b: PlayerBuilder)
        ensures
            b.spec_bus_name_suffix() == self.spec_bus_name_suffix(),
            b.spec_state() == (PlayerStateView { identity: identity@, ..self.spec_state() }),
    {
        let mut state = self.state;
        state.set_identity(identity);
        PlayerBuilder { bus_name_suffix: self.bus_name_suffix, state }
    }

    /// Sets the initial value: the basename of the player's installed .desktop file, without the extension.
    pub fn desktop_entry(self, desktop_entry: String) -> (b: PlayerBuilder)
        ensures
            b.spec_bus_name_suffix() == self.spec_bus_name_suffix(),
            b.spec_state() == (PlayerStateView { desktop_entry: desktop_entry@, ..self.spec_state() }),
    {
        let mut state = self.state;
        state.set_desktop_entry(desktop_entry);
        PlayerBuilder { bus_name_suffix: self.bus_name_suffix, state }
    }

    /// Sets the initial value: the URI schemes supported by the media player.
    pub fn supported_uri_schemes(self, supported_uri_schemes: Vec<String>) -> (b: PlayerBuilder)
        ensures
            b.spec_bus_name_suffix() == self.spec_bus_name_suffix(),
            b.spec_state() == (PlayerStateView { supported_uri_schemes: strings_view(supported_uri_schemes@), ..self.spec_state() }),
    {
        let mut state = self.state;
        state.set_supported_uri_schemes(supported_uri_schemes);
        PlayerBuilder { bus_name_suffix: self.bus_name_suffix, state }
    }

    /// Sets the initial value: the mime-types supported by the media player.
    pub fn supported_mime_types(self, supported_mime_types: Vec<String>) -> (b: PlayerBuilder)
        ensures
            b.spec_bus_name_suffix() == self.spec_bus_name_suffix(),
            b.spec_state() == (PlayerStateView { supported_mime_types: strings_view(supported_mime_types@), ..self.spec_state() }),
    {
        let mut state = self.state;
        state.set_supported_mime_types(supported_mime_types);
        PlayerBuilder { bus_name_suffix: self.bus_name_suffix, state }
    }

    /// Sets the initial value: the current playback status.
    pub fn playback_status(self, playback_status: PlaybackStatus) -> (b: PlayerBuilder)
        ensures
            b.spec_bus_name_suffix() == self.spec_bus_name_suffix(),
            b.spec_state() == (PlayerStateView { playback_status: playback_status, ..self.spec_state() }),
    {
        let mut state = self.state;
        state.set_playback_status(playback_status);
        PlayerBuilder { bus_name_suffix: self.bus_name_suffix, state }
    }

    /// Sets the initial value: the current loop / repeat status.
    pub fn loop_status(self, loop_status: LoopStatus) -> (b: PlayerBuilder)
        ensures
            b.spec_bus_name_suffix() == self.spec_bus_name_suffix(),
            b.spec_state() == (PlayerStateView { loop_status: loop_status, ..self.spec_state() }),
    {
        let mut state = self.state;
        state.set_loop_status(loop_status);
        PlayerBuilder { bus_name_suffix: self.bus_name_suffix, state }
    }

    /// Sets the initial value: the current playback rate, as the bit pattern of a double.
    pub fn rate_bits(self, rate_bits: u64) -> (b: PlayerBuilder)
        ensures
            b.spec_bus_name_suffix() == self.spec_bus_name_suffix(),
            b.spec_state() == (PlayerStateView { rate_bits: rate_bits, ..self.spec_state() }),
    {
        let mut state = self.state;
        state.rate_bits = rate_bits;
        PlayerBuilder { bus_name_suffix: self.bus_name_suffix, state }
    }

    /// Sets the initial value: whether playback is shuffled.
    pub fn shuffle(self, shuffle: bool) -> (b: PlayerBuilder)
        ensures
            b.spec_bus_name_suffix() == self.spec_bus_name_suffix(),
            b.spec_state() == (PlayerStateView { shuffle: shuffle, ..self.spec_state() }),
    {
        let mut state = self.state;
        state.set_shuffle(shuffle);
        PlayerBuilder { bus_name_suffix: self.bus_name_suffix, state }
    }

    /// Sets the initial value: the metadata of the current element.
    pub fn metadata(self, metadata: Metadata) -> (b: PlayerBuilder)
        ensures
            b.spec_bus_name_suffix() == self.spec_bus_name_suffix(),
            b.spec_state() == (PlayerStateView { metadata: metadata@, ..self.spec_state() }),
    {
        let mut state = self.state;
        state.metadata = metadata;
        PlayerBuilder { bus_name_suffix: self.bus_name_suffix, state }
    }

    /// Sets the initial value: the volume level, as the bit pattern of a double.
    pub fn volume_bits(self, volume_bits: u64) -> (b: PlayerBuilder)
        ensures
            b.spec_bus_name_suffix() == self.spec_bus_name_suffix(),
            b.spec_state() == (PlayerStateView { volume_bits: volume_bits, ..self.spec_state() }),
    {
        let mut state = self.state;
        state.volume_bits = volume_bits;
        PlayerBuilder { bus_name_suffix: self.bus_name_suffix, state }
    }

    /// Sets the initial value: the current track position.
    pub fn position(self, position: Time) -> (b: PlayerBuilder)
        ensures
            b.spec_bus_name_suffix() == self.spec_bus_name_suffix(),
            b.spec_state() == (PlayerStateView { position: position@, ..self.spec_state() }),
    {
        let mut state = self.state;
        state.set_position(position);
        PlayerBuilder { bus_name_suffix: self.bus_name_suffix, state }
    }

    /// Sets the initial value: the minimum value which the playback rate can take, as the bit pattern of a double.
    pub fn minimum_rate_bits(self, minimum_rate_bits: u64) -> (b: PlayerBuilder)
        ensures
            b.spec_bus_name_suffix() == self.spec_bus_name_suffix(),
            b.spec_state() == (PlayerStateView { minimum_rate_bits: minimum_rate_bits, ..self.spec_state() }),
    {
        let mut state = self.state;
        state.minimum_rate_bits = minimum_rate_bits;
        PlayerBuilder { bus_name_suffix: self.bus_name_suffix, state }
    }

    /// Sets the initial value: the maximum value which the playback rate can take, as the bit pattern of a double.
    pub fn maximum_rate_bits(self, maximum_rate_bits: u64) -> (b: PlayerBuilder)
        ensures
            b.spec_bus_name_suffix() == self.spec_bus_name_suffix(),
            b.spec_state() == (PlayerStateView { maximum_rate_bits: maximum_rate_bits, ..self.spec_state() }),
    {
        let mut state = self.state;
        state.maximum_rate_bits = maximum_rate_bits;
        PlayerBuilder { bus_name_suffix: self.bus_name_suffix, state }
    }

    /// Sets the initial value: whether the client can call the `Next` method and expect the current track to change.
    pub fn can_go_next(self, can_go_next: bool) -> (b: PlayerBuilder)
        ensures
            b.spec_bus_name_suffix() == self.spec_bus_name_suffix(),
            b.spec_state() == (PlayerStateView { can_go_next: can_go_next, ..self.spec_state() }),
    {
        let mut state = self.state;
        state.set_can_go_next(can_go_next);
        PlayerBuilder { bus_name_suffix: self.bus_name_suffix, state }
    }

    /// Sets the initial value: whether the client can call the `Previous` method and expect the current track to change.
    pub fn can_go_previous(self, can_go_previous: bool) -> (b: PlayerBuilder)
        ensures
            b.spec_bus_name_suffix() == self.spec_bus_name_suffix(),
            b.spec_state() == (PlayerStateView { can_go_previous: can_go_previous, ..self.spec_state() }),
    {
        let mut state = self.state;
        state.set_can_go_previous(can_go_previous);
        PlayerBuilder { bus_name_suffix: self.bus_name_suffix, state }
    }

    /// Sets the initial value: whether playback can be started.
    pub fn can_play(self, can_play: bool) -> (b: PlayerBuilder)
        ensures
            b.spec_bus_name_suffix() == self.spec_bus_name_suffix(),
            b.spec_state() == (PlayerStateView { can_play: can_play, ..self.spec_state() }),
    {
        let mut state = self.state;
        state.set_can_play(can_play);
        PlayerBuilder { bus_name_suffix: self.bus_name_suffix, state }
    }

    /// Sets the initial value: whether playback can be paused.
    pub fn can_pause(self, can_pause: bool) -> (b: PlayerBuilder)
        ensures
            b.spec_bus_name_suffix() == self.spec_bus_name_suffix(),
            b.spec_state() == (PlayerStateView { can_pause: can_pause, ..self.spec_state() }),
    {
        let mut state = self.state;
        state.set_can_pause(can_pause);
        PlayerBuilder { bus_name_suffix: self.bus_name_suffix, state }
    }

    /// Sets the initial value: whether the client can control the playback position.
    pub fn can_seek(self, can_seek: bool) -> (b: PlayerBuilder)
        ensures
            b.spec_bus_name_suffix() == self.spec_bus_name_suffix(),
            b.spec_state() == (PlayerStateView { can_seek: can_seek, ..self.spec_state() }),
    {
        let mut state = self.state;
        state.set_can_seek(can_seek);
        PlayerBuilder { bus_name_suffix: self.bus_name_suffix, state }
    }

    /// Sets the initial value: whether the media player may be controlled over this interface.
    pub fn can_control(self, can_control: bool) -> (b: PlayerBuilder)
        ensures
            b.spec_bus_name_suffix() == self.spec_bus_name_suffix(),
            b.spec_state() == (PlayerStateView { can_control: can_control, ..self.spec_state() }),
    {
        let mut state = self.state;
        state.set_can_control(can_control);
        PlayerBuilder { bus_name_suffix: self.bus_name_suffix, state }
    }

    /// The bus name suffix and the initial properties of the player.
    pub fn into_parts(self) -> (r: (String, PlayerState))
        ensures
            r.0@ == self.spec_bus_name_suffix(),
            r.1@ == self.spec_state(),
    {
        (self.bus_name_suffix, self.state)
    }
}

} // verus!
