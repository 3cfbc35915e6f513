use vstd::prelude::*;

use crate::loop_status::LoopStatus;
use crate::metadata::Metadata;
use crate::playback_status::PlaybackStatus;
use crate::playlist::MaybePlaylist;
use crate::playlist_ordering::PlaylistOrdering;
use crate::text::str_eq;

verus! {

/// A property of the `org.mpris.MediaPlayer2.TrackList` interface whose change
/// is to be announced.
#[derive(Debug, Clone, Copy, PartialEq, Eq, Structural)]
pub enum TrackListProperty {
    /// The track list changed; its new value must not be sent.
    Tracks,
    /// Whether tracks can be added to and removed from the tracklist.
    CanEditTracks(bool),
}

/// A property of the `org.mpris.MediaPlayer2.Playlists` interface whose change
/// is to be announced, with its new value.
#[derive(Debug)]
pub enum PlaylistsProperty {
    /// The number of playlists available.
    PlaylistCount(u32),
    /// The available orderings.
    Orderings(Vec<PlaylistOrdering>),
    /// The currently-active playlist.
    ActivePlaylist(MaybePlaylist),
}

} // verus!

verus! {

/// The value of the last `CanEditTracks` among `properties`, if there is one.
pub open spec fn last_can_edit_tracks(properties: Seq<TrackListProperty>) -> Option<bool>
    decreases properties.len(),
{
    if properties.len() == 0 {
        None
    } else {
        match properties.last() {
            TrackListProperty::CanEditTracks(b) => Some(b),
            TrackListProperty::Tracks => last_can_edit_tracks(properties.drop_last()),
        }
    }
}

/// What a `PropertiesChanged` signal of the `TrackList` interface carries.
#[derive(Debug, Clone, Copy, PartialEq, Eq, Structural)]
pub struct TrackListChanges {
    /// The new value of `CanEditTracks`, sent among the changed properties.
    pub can_edit_tracks: Option<bool>,
    /// Whether `Tracks` is named among the invalidated properties: its new
    /// value must not be sent.
    pub tracks_invalidated: bool,
}

impl TrackListProperty {
    /// The name of the property on the bus.
    pub open spec fn name(self) -> Seq<char> {
        match self {
            TrackListProperty::Tracks => "Tracks"@,
            TrackListProperty::CanEditTracks(_) => "CanEditTracks"@,
        }
    }

    /// Returns the name of the property on the bus.
    pub fn as_str(&self) -> (r: &'static str)
        ensures
            r@ == self.name(),
    {
        match self {
            TrackListProperty::Tracks => "Tracks",
            TrackListProperty::CanEditTracks(_) => "CanEditTracks",
        }
    }
}

/// Sorts the changed properties of the `TrackList` interface into what the
/// `PropertiesChanged` signal carries: the last value given for
/// `CanEditTracks` is sent, and `Tracks` is only named as invalidated.
pub fn track_list_changes(properties: &[TrackListProperty]) -> (r: TrackListChanges)
    ensures
        r.can_edit_tracks == last_can_edit_tracks(properties@),
        r.tracks_invalidated == properties@.contains(TrackListProperty::Tracks),
{
    let mut can_edit_tracks: Option<bool> = None;
    let mut tracks_invalidated = false;
    let n = properties.len();
    let mut i: usize = 0;
    while i < n
        invariant
            n == properties@.len(),
            0 <= i <= n,
            can_edit_tracks == last_can_edit_tracks(properties@.take(i as int)),
            tracks_invalidated == properties@.take(i as int).contains(TrackListProperty::Tracks),
        decreases n - i,
    {
        let ghost prefix = properties@.take(i as int);
        let ghost next = properties@.take(i + 1);
        assert(next.drop_last() =~= prefix);
        assert(next.last() == properties@[i as int]);
        match properties[i] {
            TrackListProperty::Tracks => {
                tracks_invalidated = true;
            },
            TrackListProperty::CanEditTracks(b) => {
                can_edit_tracks = Some(b);
            },
        }
        proof {
            if prefix.contains(TrackListProperty::Tracks) {
                let k = choose|k: int| 0 <= k < prefix.len() && prefix[k] == TrackListProperty::Tracks;
                assert(next[k] == TrackListProperty::Tracks);
            }
            if next.contains(TrackListProperty::Tracks) && properties@[i as int] != TrackListProperty::Tracks {
                let k = choose|k: int| 0 <= k < next.len() && next[k] == TrackListProperty::Tracks;
                assert(k < i);
                assert(prefix[k] == TrackListProperty::Tracks);
            }
            if properties@[i as int] == TrackListProperty::Tracks {
                assert(next[i as int] == TrackListProperty::Tracks);
            }
        }
        i = i + 1;
    }
    assert(properties@.take(n as int) =~= properties@);
    TrackListChanges { can_edit_tracks, tracks_invalidated }
}

} // verus!

verus! {

/// A property of the `org.mpris.MediaPlayer2` or `org.mpris.MediaPlayer2.Player`
/// interface whose change is to be announced, with its new value.
///
/// Doubles (rates and volume) are given as their IEEE 754 bit patterns
/// (`f64::to_bits`). `Position` is not among them (a change of position is
/// announced by the `Seeked` signal), nor `CanControl`, which is not expected
/// to change.
#[derive(Debug, Clone, PartialEq)]
pub enum Property {
    /// Whether `Quit` can be called.
    CanQuit(bool),
    /// Whether the media player is occupying the fullscreen.
    Fullscreen(bool),
    /// Whether `Fullscreen` can be set.
    CanSetFullscreen(bool),
    /// Whether `Raise` can be called.
    CanRaise(bool),
    /// Whether the `TrackList` interface is implemented.
    HasTrackList(bool),
    /// A friendly name to identify the media player to users.
    Identity(String),
    /// The basename of an installed `.desktop` file.
    DesktopEntry(String),
    /// The URI schemes supported by the media player.
    SupportedUriSchemes(Vec<String>),
    /// The mime-types supported by the media player.
    SupportedMimeTypes(Vec<String>),
    /// The current playback status.
    PlaybackStatus(PlaybackStatus),
    /// The current loop / repeat status.
    LoopStatus(LoopStatus),
    /// The current playback rate, as the bit pattern of a double.
    Rate(u64),
    /// Whether playback is shuffled.
    Shuffle(bool),
    /// The metadata of the current element.
    Metadata(Metadata),
    /// The volume level, as the bit pattern of a double.
    Volume(u64),
    /// The minimum playback rate, as the bit pattern of a double.
    MinimumRate(u64),
    /// The maximum playback rate, as the bit pattern of a double.
    MaximumRate(u64),
    /// Whether `Next` can be called.
    CanGoNext(bool),
    /// Whether `Previous` can be called.
    CanGoPrevious(bool),
    /// Whether playback can be started.
    CanPlay(bool),
    /// Whether playback can be paused.
    CanPause(bool),
    /// Whether the position can be controlled.
    CanSeek(bool),
}

/// Whether `p` belongs to the `org.mpris.MediaPlayer2` interface; the others
/// belong to `org.mpris.MediaPlayer2.Player`.
pub open spec fn is_root_property(p: Property) -> bool {
    match p {
        Property::CanQuit(_)
        | Property::Fullscreen(_)
        | Property::CanSetFullscreen(_)
        | Property::CanRaise(_)
        | Property::HasTrackList(_)
        | Property::Identity(_)
        | Property::DesktopEntry(_)
        | Property::SupportedUriSchemes(_)
        | Property::SupportedMimeTypes(_) => true,
        _ => false,
    }
}

impl Property {
    /// The name of the property on the bus.
    pub open spec fn name(self) -> Seq<char> {
        match self {
            Property::CanQuit(_) => "CanQuit"@,
            Property::Fullscreen(_) => "Fullscreen"@,
            Property::CanSetFullscreen(_) => "CanSetFullscreen"@,
            Property::CanRaise(_) => "CanRaise"@,
            Property::HasTrackList(_) => "HasTrackList"@,
            Property::Identity(_) => "Identity"@,
            Property::DesktopEntry(_) => "DesktopEntry"@,
            Property::SupportedUriSchemes(_) => "SupportedUriSchemes"@,
            Property::SupportedMimeTypes(_) => "SupportedMimeTypes"@,
            Property::PlaybackStatus(_) => "PlaybackStatus"@,
            Property::LoopStatus(_) => "LoopStatus"@,
            Property::Rate(_) => "Rate"@,
            Property::Shuffle(_) => "Shuffle"@,
            Property::Metadata(_) => "Metadata"@,
            Property::Volume(_) => "Volume"@,
            Property::MinimumRate(_) => "MinimumRate"@,
            Property::MaximumRate(_) => "MaximumRate"@,
            Property::CanGoNext(_) => "CanGoNext"@,
            Property::CanGoPrevious(_) => "CanGoPrevious"@,
            Property::CanPlay(_) => "CanPlay"@,
            Property::CanPause(_) => "CanPause"@,
            Property::CanSeek(_) => "CanSeek"@,
        }
    }

    /// Returns the name of the property on the bus.
    pub fn as_str(&self) -> (r: &'static str)
        ensures
            r@ == self.name(),
    {
        match self {
            Property::CanQuit(_) => "CanQuit",
            Property::Fullscreen(_) => "Fullscreen",
            Property::CanSetFullscreen(_) => "CanSetFullscreen",
            Property::CanRaise(_) => "CanRaise",
            Property::HasTrackList(_) => "HasTrackList",
            Property::Identity(_) => "Identity",
            Property::DesktopEntry(_) => "DesktopEntry",
            Property::SupportedUriSchemes(_) => "SupportedUriSchemes",
            Property::SupportedMimeTypes(_) => "SupportedMimeTypes",
            Property::PlaybackStatus(_) => "PlaybackStatus",
            Property::LoopStatus(_) => "LoopStatus",
            Property::Rate(_) => "Rate",
            Property::Shuffle(_) => "Shuffle",
            Property::Metadata(_) => "Metadata",
            Property::Volume(_) => "Volume",
            Property::MinimumRate(_) => "MinimumRate",
            Property::MaximumRate(_) => "MaximumRate",
            Property::CanGoNext(_) => "CanGoNext",
            Property::CanGoPrevious(_) => "CanGoPrevious",
            Property::CanPlay(_) => "CanPlay",
            Property::CanPause(_) => "CanPause",
            Property::CanSeek(_) => "CanSeek",
        }
    }

    /// Whether the property belongs to the `org.mpris.MediaPlayer2` interface.
    pub fn is_root(&self) -> (r: bool)
        ensures
            r == is_root_property(*self),
    {
        match self {
            Property::CanQuit(_)
            | Property::Fullscreen(_)
            | Property::CanSetFullscreen(_)
            | Property::CanRaise(_)
            | Property::HasTrackList(_)
            | Property::Identity(_)
            | Property::DesktopEntry(_)
            | Property::SupportedUriSchemes(_)
            | Property::SupportedMimeTypes(_) => true,
            _ => false,
        }
    }
}

/// The properties of `s` that belong to the `org.mpris.MediaPlayer2` interface,
/// in order.
pub open spec fn root_properties(s: Seq<Property>) -> Seq<Property> {
    s.filter(|p: Property| is_root_property(p))
}

/// The properties of `s` that belong to the `org.mpris.MediaPlayer2.Player`
/// interface, in order.
pub open spec fn player_properties(s: Seq<Property>) -> Seq<Property> {
    s.filter(|p: Property| !is_root_property(p))
}

/// Whether `p` is named otherwise than `name`.
pub open spec fn named_other_than(name: Seq<char>) -> spec_fn(Property) -> bool {
    |p: Property| p.name() != name
}

/// The properties of `s` not named `name`, in order.
pub open spec fn without_name(s: Seq<Property>, name: Seq<char>) -> Seq<Property> {
    s.filter(named_other_than(name))
}

/// Whether no two properties of `s` have the same name.
pub open spec fn names_distinct(s: Seq<Property>) -> bool {
    forall|i: int, j: int| 0 <= i < j < s.len() ==> #[trigger] s[i].name() != #[trigger] s[j].name()
}

/// For each name in `s`, the last property of `s` with that name: each
/// property given replaces any earlier one of the same name.
pub open spec fn last_per_name(s: Seq<Property>) -> Seq<Property>
    decreases s.len(),
{
    if s.len() == 0 {
        s
    } else {
        without_name(last_per_name(s.drop_last()), s.last().name()).push(s.last())
    }
}

proof fn lemma_filter_push<A>(s: Seq<A>, x: A, f: spec_fn(A) -> bool)
    ensures
        s.push(x).filter(f) == (if f(x) {
            s.filter(f).push(x)
        } else {
            s.filter(f)
        }),
{
    reveal(Seq::filter);
    assert(s.push(x).drop_last() =~= s);
}

proof fn lemma_filter_names_distinct(s: Seq<Property>, f: spec_fn(Property) -> bool)
    requires
        names_distinct(s),
    ensures
        names_distinct(s.filter(f)),
    decreases s.len(),
{
    reveal(Seq::filter);
    if s.len() > 0 {
        let rest = s.drop_last();
        assert forall|i: int, j: int| 0 <= i < j < rest.len() implies #[trigger] rest[i].name()
            != #[trigger] rest[j].name() by {
            assert(rest[i] == s[i] && rest[j] == s[j]);
        }
        lemma_filter_names_distinct(rest, f);
        if f(s.last()) {
            let r = rest.filter(f);
            assert forall|i: int| 0 <= i < r.len() implies #[trigger] r[i].name() != s.last().name() by {
                assert(r.contains(r[i]));
                rest.lemma_filter_contains_rev(f, r[i]);
                let k = choose|k: int| 0 <= k < rest.len() && rest[k] == r[i];
                assert(s[k] == rest[k]);
                assert(s[s.len() - 1] == s.last());
            }
            let t = r.push(s.last());
            assert forall|i: int, j: int| 0 <= i < j < t.len() implies #[trigger] t[i].name()
                != #[trigger] t[j].name() by {
                assert(t[i] == r[i]);
                if j == t.len() - 1 {
                    assert(t[j] == s.last());
                } else {
                    assert(t[j] == r[j]);
                }
            }
        }
    }
}

/// What [`player_changes`] sends for one interface names each property at
/// most once.
pub proof fn law_last_per_name_names_distinct(s: Seq<Property>)
    ensures
        names_distinct(last_per_name(s)),
    decreases s.len(),
{
    if s.len() > 0 {
        law_last_per_name_names_distinct(s.drop_last());
        let t = last_per_name(s.drop_last());
        let f = named_other_than(s.last().name());
        lemma_filter_names_distinct(t, f);
        let w = without_name(t, s.last().name());
        assert forall|i: int| 0 <= i < w.len() implies #[trigger] w[i].name() != s.last().name() by {
            t.lemma_filter_pred(f, i);
        }
        let u = w.push(s.last());
        assert forall|i: int, j: int| 0 <= i < j < u.len() implies #[trigger] u[i].name()
            != #[trigger] u[j].name() by {
            assert(u[i] == w[i]);
            if j == u.len() - 1 {
                assert(u[j] == s.last());
            } else {
                assert(u[j] == w[j]);
            }
        }
    }
}

/// A property of `s` that no later property of `s` replaces (none has its
/// name) is among what [`player_changes`] sends for its interface.
pub proof fn law_last_per_name_keeps_last(s: Seq<Property>, i: int)
    requires
        0 <= i < s.len(),
        forall|j: int| i < j < s.len() ==> #[trigger] s[j].name() != s[i].name(),
    ensures
        last_per_name(s).contains(s[i]),
    decreases s.len(),
{
    let t = last_per_name(s.drop_last());
    let w = without_name(t, s.last().name());
    let u = w.push(s.last());
    if i == s.len() - 1 {
        assert(u[w.len() as int] == s.last());
    } else {
        let rest = s.drop_last();
        assert forall|j: int| i < j < rest.len() implies #[trigger] rest[j].name() != rest[i].name() by {
            assert(rest[j] == s[j]);
            assert(s[j].name() != s[i].name());
        }
        law_last_per_name_keeps_last(rest, i);
        assert(s[s.len() - 1].name() != s[i].name());
        let k = choose|k: int| 0 <= k < t.len() && t[k] == s[i];
        t.lemma_filter_contains(named_other_than(s.last().name()), k);
        let m = choose|m: int| 0 <= m < w.len() && w[m] == s[i];
        assert(u[m] == s[i]);
    }
}

/// The properties announced on the `org.mpris.MediaPlayer2` interface are
/// `CanQuit`, `Fullscreen`, `CanSetFullscreen`, `CanRaise`, `HasTrackList`,
/// `Identity`, `DesktopEntry`, `SupportedUriSchemes` and `SupportedMimeTypes`;
/// every other one is announced on `org.mpris.MediaPlayer2.Player`.
pub proof fn law_root_property_variants(p: Property)
    ensures
        is_root_property(p) <==> (p is CanQuit
            || p is Fullscreen
            || p is CanSetFullscreen
            || p is CanRaise
            || p is HasTrackList
            || p is Identity
            || p is DesktopEntry
            || p is SupportedUriSchemes
            || p is SupportedMimeTypes),
{
}

/// A single changed property is sent in the signal of its own interface and
/// in no other.
pub proof fn law_single_property_lands_in_its_interface(p: Property)
    ensures
        (p is CanQuit
            || p is Fullscreen
            || p is CanSetFullscreen
            || p is CanRaise
            || p is HasTrackList
            || p is Identity
            || p is DesktopEntry
            || p is SupportedUriSchemes
            || p is SupportedMimeTypes) ==> last_per_name(root_properties(seq![p])) == seq![p]
            && last_per_name(player_properties(seq![p])) == Seq::<Property>::empty(),
        !(p is CanQuit
            || p is Fullscreen
            || p is CanSetFullscreen
            || p is CanRaise
            || p is HasTrackList
            || p is Identity
            || p is DesktopEntry
            || p is SupportedUriSchemes
            || p is SupportedMimeTypes) ==> last_per_name(root_properties(seq![p])) == Seq::<Property>::empty()
            && last_per_name(player_properties(seq![p])) == seq![p],
{
    reveal(Seq::filter);
    let e = Seq::<Property>::empty();
    let one = seq![p];
    assert(one.drop_last() =~= e);
    assert(one.last() == p);
    assert(e.filter(|q: Property| is_root_property(q)) == e);
    assert(e.filter(|q: Property| !is_root_property(q)) == e);
    assert(last_per_name(e) == e);
    assert(without_name(e, p.name()) == e);
    assert(e.push(p) =~= one);
    if is_root_property(p) {
        assert(root_properties(one) == one);
        assert(player_properties(one) == e);
        assert(last_per_name(one) == one);
    } else {
        assert(root_properties(one) == e);
        assert(player_properties(one) == one);
        assert(last_per_name(one) == one);
    }
}

/// A `Tracks` entry never changes which `CanEditTracks` value is sent.
pub proof fn law_tracks_leaves_can_edit_tracks(s: Seq<TrackListProperty>)
    ensures
        last_can_edit_tracks(s.push(TrackListProperty::Tracks)) == last_can_edit_tracks(s),
{
    assert(s.push(TrackListProperty::Tracks).drop_last() =~= s);
}

/// The `CanEditTracks` value sent is the last one given, whatever stands
/// around it.
pub proof fn law_last_can_edit_tracks_wins(s: Seq<TrackListProperty>, i: int, b: bool)
    requires
        0 <= i < s.len(),
        s[i] == TrackListProperty::CanEditTracks(b),
        forall|j: int| i < j < s.len() ==> !(#[trigger] s[j] is CanEditTracks),
    ensures
        last_can_edit_tracks(s) == Some(b),
    decreases s.len(),
{
    if i < s.len() - 1 {
        let t = s.drop_last();
        assert(s.last() == s[s.len() - 1]);
        assert(!(s[s.len() - 1] is CanEditTracks));
        assert forall|j: int| i < j < t.len() implies !(#[trigger] t[j] is CanEditTracks) by {
            assert(t[j] == s[j]);
        }
        law_last_can_edit_tracks_wins(t, i, b);
    } else {
        assert(s.last() == s[i]);
    }
}

/// Where no `CanEditTracks` is given, no value of it is sent.
pub proof fn law_no_can_edit_tracks_sends_none(s: Seq<TrackListProperty>)
    requires
        forall|j: int| 0 <= j < s.len() ==> !(#[trigger] s[j] is CanEditTracks),
    ensures
        last_can_edit_tracks(s) == None::<bool>,
    decreases s.len(),
{
    if s.len() > 0 {
        let t = s.drop_last();
        assert(s.last() == s[s.len() - 1]);
        assert forall|j: int| 0 <= j < t.len() implies !(#[trigger] t[j] is CanEditTracks) by {
            assert(t[j] == s[j]);
        }
        law_no_can_edit_tracks_sends_none(t);
    }
}

/// Everything that [`player_changes`] sends for one interface was given, and
/// is the last property given under its name.
pub proof fn law_last_per_name_sends_only_last_given(s: Seq<Property>, x: Property)
    requires
        last_per_name(s).contains(x),
    ensures
        exists|i: int|
            0 <= i < s.len() && s[i] == x && forall|j: int|
                i < j < s.len() ==> #[trigger] s[j].name() != x.name(),
    decreases s.len(),
{
    let t = last_per_name(s.drop_last());
    let f = named_other_than(s.last().name());
    let w = without_name(t, s.last().name());
    let u = w.push(s.last());
    let k = choose|k: int| 0 <= k < u.len() && u[k] == x;
    if k == w.len() {
        assert(s[s.len() - 1] == x);
    } else {
        assert(w[k] == x);
        t.lemma_filter_pred(f, k);
        assert(x.name() != s.last().name());
        assert(w.contains(x));
        t.lemma_filter_contains_rev(f, x);
        law_last_per_name_sends_only_last_given(s.drop_last(), x);
        let r = s.drop_last();
        let i = choose|i: int|
            0 <= i < r.len() && r[i] == x && forall|j: int|
                i < j < r.len() ==> #[trigger] r[j].name() != x.name();
        assert(s[i] == x);
        assert forall|j: int| i < j < s.len() implies #[trigger] s[j].name() != x.name() by {
            if j < r.len() {
                assert(s[j] == r[j]);
                assert(r[j].name() != x.name());
            } else {
                assert(s[j] == s.last());
            }
        }
    }
}

/// What [`player_changes`] sends for `org.mpris.MediaPlayer2` holds only
/// properties of that interface, and what it sends for
/// `org.mpris.MediaPlayer2.Player` none of them.
pub proof fn law_sent_on_own_interface(s: Seq<Property>, x: Property)
    ensures
        last_per_name(root_properties(s)).contains(x) ==> is_root_property(x),
        last_per_name(player_properties(s)).contains(x) ==> !is_root_property(x),
{
    let fr = |p: Property| is_root_property(p);
    let fp = |p: Property| !is_root_property(p);
    if last_per_name(root_properties(s)).contains(x) {
        law_last_per_name_sends_only_last_given(root_properties(s), x);
        let r = s.filter(fr);
        assert(r == root_properties(s));
        let i = choose|i: int| 0 <= i < r.len() && r[i] == x && forall|j: int|
            i < j < r.len() ==> #[trigger] r[j].name() != x.name();
        s.lemma_filter_pred(fr, i);
    }
    if last_per_name(player_properties(s)).contains(x) {
        law_last_per_name_sends_only_last_given(player_properties(s), x);
        let r = s.filter(fp);
        assert(r == player_properties(s));
        let i = choose|i: int| 0 <= i < r.len() && r[i] == x && forall|j: int|
            i < j < r.len() ==> #[trigger] r[j].name() != x.name();
        s.lemma_filter_pred(fp, i);
    }
}

/// Removes from `v` the properties named `name`.
fn remove_named(v: Vec<Property>, name: &str) -> (r: Vec<Property>)
    ensures
        r@ == without_name(v@, name@),
{
    let ghost orig = v@;
    let mut v = v;
    let mut r: Vec<Property> = Vec::new();
    let mut k: usize = 0;
    assert(orig.len() == v.len());
    assert(orig.take(0) =~= Seq::<Property>::empty());
    proof {
        reveal(Seq::filter);
    }
    while v.len() > 0
        invariant
            k <= orig.len() <= usize::MAX,
            v@ == orig.skip(k as int),
            r@ == without_name(orig.take(k as int), name@),
        decreases v.len(),
    {
        let p = v.remove(0);
        assert(orig.take(k + 1) =~= orig.take(k as int).push(p));
        proof {
            lemma_filter_push(orig.take(k as int), p, named_other_than(name@));
        }
        if !str_eq(p.as_str(), name) {
            r.push(p);
        }
        assert(v@ =~= orig.skip(k + 1));
        k = k + 1;
    }
    assert(orig.take(k as int) =~= orig);
    r
}

/// Sorts the changed player properties by interface, for the
/// `PropertiesChanged` signals of `org.mpris.MediaPlayer2` (first) and of
/// `org.mpris.MediaPlayer2.Player` (second). Under each name the last value
/// given is the one sent.
pub fn player_changes(properties: Vec<Property>) -> (r: (Vec<Property>, Vec<Property>))
    ensures
        r.0@ == last_per_name(root_properties(properties@)),
        r.1@ == last_per_name(player_properties(properties@)),
{
    let ghost orig = properties@;
    let mut properties = properties;
    let mut root: Vec<Property> = Vec::new();
    let mut player: Vec<Property> = Vec::new();
    let mut k: usize = 0;
    assert(orig.len() == properties.len());
    proof {
        reveal(Seq::filter);
        assert(orig.take(0) =~= Seq::<Property>::empty());
    }
    while properties.len() > 0
        invariant
            k <= orig.len() <= usize::MAX,
            properties@ == orig.skip(k as int),
            root@ == last_per_name(root_properties(orig.take(k as int))),
            player@ == last_per_name(player_properties(orig.take(k as int))),
        decreases properties.len(),
    {
        let p = properties.remove(0);
        let ghost prev = orig.take(k as int);
        assert(orig.take(k + 1) =~= prev.push(p));
        proof {
            lemma_filter_push(prev, p, |q: Property| is_root_property(q));
            lemma_filter_push(prev, p, |q: Property| !is_root_property(q));
        }
        if p.is_root() {
            let others = remove_named(root, p.as_str());
            root = others;
            proof {
                let s = root_properties(prev).push(p);
                assert(s.drop_last() =~= root_properties(prev));
            }
            root.push(p);
        } else {
            let others = remove_named(player, p.as_str());
            player = others;
            proof {
                let s = player_properties(prev).push(p);
                assert(s.drop_last() =~= player_properties(prev));
            }
            player.push(p);
        }
        assert(properties@ =~= orig.skip(k + 1));
        k = k + 1;
    }
    assert(orig.take(k as int) =~= orig);
    (root, player)
}

} // verus!
