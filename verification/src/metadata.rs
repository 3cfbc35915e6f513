use vstd::prelude::*;

use crate::text::{clone_strings, str_eq};
use crate::time::Time;
use crate::track_id::TrackId;
use crate::value::{
    law_value_eq_is_content_eq, law_value_eq_symmetric, strings_view, value_view_eq, Value, ValueView,
};

verus! {

/// Combined date and time.
///
/// This should be sent as strings in ISO 8601 extended format (eg:
/// 2007-04-29T14:35:51). If the timezone is known, the internet profile format
/// of ISO 8601, as specified in RFC 3339, should be used (eg:
/// 2007-04-29T14:35:51+02:00).
pub type DateTime = String;

/// The keys of a list of entries.
pub open spec fn entry_keys(entries: Seq<(String, Value)>) -> Seq<Seq<char>> {
    entries.map_values(|e: (String, Value)| e.0@)
}

/// The map that a list of entries with distinct keys stands for.
pub open spec fn entries_map(entries: Seq<(String, Value)>) -> Map<Seq<char>, ValueView> {
    Map::new(
        |k: Seq<char>| entry_keys(entries).contains(k),
        |k: Seq<char>| entries[entry_keys(entries).index_of(k)].1@,
    )
}

/// Whether two metadata maps compare equal: the same keys, and under each key
/// values that compare equal (doubles compared as doubles).
pub open spec fn metadata_eq(a: Map<Seq<char>, ValueView>, b: Map<Seq<char>, ValueView>) -> bool {
    &&& a.dom() == b.dom()
    &&& forall|k: Seq<char>| #[trigger] a.contains_key(k) ==> value_view_eq(a[k], b[k])
}

/// The map `m` after `key` is set to `value`, or removed when `value` is `None`.
pub open spec fn map_updated(
    m: Map<Seq<char>, ValueView>,
    key: Seq<char>,
    value: Option<ValueView>,
) -> Map<Seq<char>, ValueView> {
    match value {
        Some(v) => m.insert(key, v),
        None => m.remove(key),
    }
}

/// The view of an optional value.
pub open spec fn opt_view<T: View>(o: Option<T>) -> Option<T::V> {
    match o {
        Some(x) => Some(x@),
        None => None,
    }
}

/// The characters of each string of an optional list of strings.
pub open spec fn opt_strings_view(o: Option<Vec<String>>) -> Option<Seq<Seq<char>>> {
    match o {
        Some(v) => Some(strings_view(v@)),
        None => None,
    }
}

/// The string that `m` holds under `key`, if it holds a string there.
pub open spec fn str_field(m: Map<Seq<char>, ValueView>, key: Seq<char>) -> Option<Seq<char>> {
    if m.contains_key(key) {
        match m[key] {
            ValueView::Str(s) => Some(s),
            _ => None,
        }
    } else {
        None
    }
}

/// The object path that `m` holds under `key`, if it holds an object path there.
pub open spec fn path_field(m: Map<Seq<char>, ValueView>, key: Seq<char>) -> Option<Seq<char>> {
    if m.contains_key(key) {
        match m[key] {
            ValueView::ObjectPath(p) => Some(p),
            _ => None,
        }
    } else {
        None
    }
}

/// The list of strings that `m` holds under `key`, if it holds one there.
pub open spec fn strings_field(m: Map<Seq<char>, ValueView>, key: Seq<char>) -> Option<
    Seq<Seq<char>>,
> {
    if m.contains_key(key) {
        match m[key] {
            ValueView::StrArray(v) => Some(v),
            _ => None,
        }
    } else {
        None
    }
}

/// The 64-bit integer that `m` holds under `key`, if it holds one there.
pub open spec fn time_field(m: Map<Seq<char>, ValueView>, key: Seq<char>) -> Option<int> {
    if m.contains_key(key) {
        match m[key] {
            ValueView::I64(n) => Some(n as int),
            _ => None,
        }
    } else {
        None
    }
}

/// The 32-bit integer that `m` holds under `key`, if it holds one there.
pub open spec fn i32_field(m: Map<Seq<char>, ValueView>, key: Seq<char>) -> Option<i32> {
    if m.contains_key(key) {
        match m[key] {
            ValueView::I32(n) => Some(n),
            _ => None,
        }
    } else {
        None
    }
}

/// The bit pattern of the double that `m` holds under `key`, if it holds one there.
pub open spec fn f64_bits_field(m: Map<Seq<char>, ValueView>, key: Seq<char>) -> Option<u64> {
    if m.contains_key(key) {
        match m[key] {
            ValueView::F64Bits(n) => Some(n),
            _ => None,
        }
    } else {
        None
    }
}

/// The string value for an optional string.
pub open spec fn opt_str_value(o: Option<String>) -> Option<ValueView> {
    match o {
        Some(s) => Some(ValueView::Str(s@)),
        None => None,
    }
}

/// The object path value for an optional track ID.
pub open spec fn opt_path_value(o: Option<TrackId>) -> Option<ValueView> {
    match o {
        Some(t) => Some(ValueView::ObjectPath(t@)),
        None => None,
    }
}

/// The 64-bit integer value, in microseconds, for an optional time.
pub open spec fn opt_time_value(o: Option<Time>) -> Option<ValueView> {
    match o {
        Some(t) => Some(ValueView::I64(t@ as i64)),
        None => None,
    }
}

/// The string array value for an optional list of strings.
pub open spec fn opt_strings_value(o: Option<Vec<String>>) -> Option<ValueView> {
    match o {
        Some(v) => Some(ValueView::StrArray(strings_view(v@))),
        None => None,
    }
}

/// The 32-bit integer value for an optional integer.
pub open spec fn opt_i32_value(o: Option<i32>) -> Option<ValueView> {
    match o {
        Some(n) => Some(ValueView::I32(n)),
        None => None,
    }
}

/// The double value for an optional bit pattern.
pub open spec fn opt_f64_bits_value(o: Option<u64>) -> Option<ValueView> {
    match o {
        Some(n) => Some(ValueView::F64Bits(n)),
        None => None,
    }
}

/// In a sequence without duplicates, the index of the element at `i` is `i`.
proof fn lemma_index_of_unique<A>(s: Seq<A>, i: int)
    requires
        s.no_duplicates(),
        0 <= i < s.len(),
    ensures
        s.index_of(s[i]) == i,
{
    assert(s.contains(s[i]));
}

/// Metadata that holds no double compares equal to other metadata exactly
/// when both hold the same attributes with the same values.
pub proof fn law_metadata_eq_without_doubles(a: Map<Seq<char>, ValueView>, b: Map<Seq<char>, ValueView>)
    requires
        forall|k: Seq<char>| #[trigger] a.contains_key(k) ==> !(a[k] is F64Bits),
    ensures
        metadata_eq(a, b) <==> a == b,
{
    if metadata_eq(a, b) {
        assert forall|k: Seq<char>| #[trigger] a.contains_key(k) implies a[k] == b[k] by {
            law_value_eq_is_content_eq(a[k], b[k]);
        }
        assert(a =~= b);
    }
    if a == b {
        assert forall|k: Seq<char>| #[trigger] a.contains_key(k) implies value_view_eq(a[k], b[k]) by {
            law_value_eq_is_content_eq(a[k], b[k]);
        }
    }
}

/// Reading an attribute right after it is set gives the value that was set.
pub proof fn law_get_after_set(m: Map<Seq<char>, ValueView>, key: Seq<char>, v: ValueView)
    ensures
        map_updated(m, key, Some(v)).contains_key(key),
        map_updated(m, key, Some(v))[key] == v,
{
}

/// An attribute that is set to nothing is no longer held.
pub proof fn law_get_after_remove(m: Map<Seq<char>, ValueView>, key: Seq<char>)
    ensures
        !map_updated(m, key, None).contains_key(key),
{
}

/// Setting or removing one attribute leaves every other attribute as it was.
pub proof fn law_set_leaves_other_keys(
    m: Map<Seq<char>, ValueView>,
    key: Seq<char>,
    v: Option<ValueView>,
    other: Seq<char>,
)
    requires
        other != key,
    ensures
        map_updated(m, key, v).contains_key(other) == m.contains_key(other),
        m.contains_key(other) ==> map_updated(m, key, v)[other] == m[other],
{
}

/// When an attribute is set twice, the second value is the one that stays.
pub proof fn law_last_set_wins(
    m: Map<Seq<char>, ValueView>,
    key: Seq<char>,
    a: Option<ValueView>,
    b: Option<ValueView>,
)
    ensures
        map_updated(map_updated(m, key, a), key, b) == map_updated(m, key, b),
{
    assert(map_updated(map_updated(m, key, a), key, b) =~= map_updated(m, key, b));
}

/// A string attribute reads back as the string it was set to, or as nothing
/// once removed.
pub proof fn law_str_field_round_trip(
    m: Map<Seq<char>, ValueView>,
    key: Seq<char>,
    s: Option<String>,
)
    ensures
        str_field(map_updated(m, key, opt_str_value(s)), key) == opt_view(s),
{
}

/// A string-list attribute reads back as the strings it was set to, or as
/// nothing once removed.
pub proof fn law_strings_field_round_trip(
    m: Map<Seq<char>, ValueView>,
    key: Seq<char>,
    v: Option<Vec<String>>,
)
    ensures
        strings_field(map_updated(m, key, opt_strings_value(v)), key) == opt_strings_view(v),
{
}

/// A 32-bit integer attribute reads back as the integer it was set to, or as
/// nothing once removed.
pub proof fn law_i32_field_round_trip(m: Map<Seq<char>, ValueView>, key: Seq<char>, n: Option<i32>)
    ensures
        i32_field(map_updated(m, key, opt_i32_value(n)), key) == n,
{
}

/// A double attribute reads back as the bit pattern it was set to, or as
/// nothing once removed.
pub proof fn law_f64_bits_field_round_trip(
    m: Map<Seq<char>, ValueView>,
    key: Seq<char>,
    n: Option<u64>,
)
    ensures
        f64_bits_field(map_updated(m, key, opt_f64_bits_value(n)), key) == n,
{
}

/// A time attribute reads back as the time it was set to, or as nothing once
/// removed.
pub proof fn law_time_field_round_trip(
    m: Map<Seq<char>, ValueView>,
    key: Seq<char>,
    t: Option<Time>,
)
    ensures
        time_field(map_updated(m, key, opt_time_value(t)), key) == opt_view(t),
{
    if let Some(t) = t {
        Time::lemma_view_range(t);
    }
}

/// A track ID attribute reads back as the track ID it was set to, or as
/// nothing once removed.
pub proof fn law_track_id_field_round_trip(
    m: Map<Seq<char>, ValueView>,
    key: Seq<char>,
    t: Option<TrackId>,
)
    ensures
        path_field(map_updated(m, key, opt_path_value(t)), key) == opt_view(t),
{
}

/// A mapping from metadata attribute names to values.
///
/// The `mpris:trackid` attribute must always be present.
///
/// If the length of the track is known, it should be provided in the metadata
/// property with the `mpris:length` key.
///
/// If there is an image associated with the track, a URL for it may be provided
/// using the `mpris:artUrl` key.
///
/// Its view is the map from attribute names to values.
#[derive(Debug)]
pub struct Metadata {
    entries: Vec<(String, Value)>,
}

impl View for Metadata {
    type V = Map<Seq<char>, ValueView>;

    closed spec fn view(&self) -> Map<Seq<char>, ValueView> {
        entries_map(self.entries@)
    }
}

impl Metadata {
    #[verifier::type_invariant]
    spec fn keys_distinct(&self) -> bool {
        entry_keys(self.entries@).no_duplicates()
    }

    /// Creates an empty [`Metadata`].
    pub fn new() -> (m: Metadata)
        ensures
            m@ == Map::<Seq<char>, ValueView>::empty(),
    {
        let m = Metadata { entries: Vec::new() };
        assert(m@ =~= Map::<Seq<char>, ValueView>::empty());
        m
    }

    /// The attributes and their values, each attribute once.
    pub fn entries(&self) -> (r: &Vec<(String, Value)>)
        ensures
            entries_map(r@) == self@,
            entry_keys(r@).no_duplicates(),
    {
        proof {
            use_type_invariant(self);
        }
        &self.entries
    }

    /// The index of the entry for `key`, if there is one.
    fn position(&self, key: &str) -> (r: Option<usize>)
        ensures
            match r {
                Some(i) => i < self.entries@.len() && self.entries@[i as int].0@ == key@
                    && entry_keys(self.entries@).index_of(key@) == i,
                None => !entry_keys(self.entries@).contains(key@),
            },
    {
        proof {
            use_type_invariant(self);
        }
        let ghost keys = entry_keys(self.entries@);
        let n = self.entries.len();
        let mut i: usize = 0;
        while i < n
            invariant
                n == self.entries@.len(),
                keys == entry_keys(self.entries@),
                keys.no_duplicates(),
                0 <= i <= n,
                forall|k: int| 0 <= k < i ==> keys[k] != key@,
            decreases n - i,
        {
            if str_eq(self.entries[i].0.as_str(), key) {
                proof {
                    lemma_index_of_unique(keys, i as int);
                }
                return Some(i);
            }
            i = i + 1;
        }
        None
    }

    /// Returns a reference to the value corresponding to the key.
    pub fn get_value(&self, key: &str) -> (r: Option<&Value>)
        ensures
            match r {
                Some(v) => self@.contains_key(key@) && v@ == self@[key@],
                None => !self@.contains_key(key@),
            },
    {
        match self.position(key) {
            Some(i) => {
                proof {
                    assert(entry_keys(self.entries@)[i as int] == key@);
                }
                Some(&self.entries[i].1)
            },
            None => None,
        }
    }

    /// Sets the value for the given key and returns the previous value, if any.
    ///
    /// If the given value is `None`, the key is removed from the metadata,
    /// if any.
    pub fn set_value(&mut self, key: &str, value: Option<Value>) -> (prev: Option<Value>)
        ensures
            final(self)@ == map_updated(old(self)@, key@, opt_view(value)),
            match prev {
                Some(p) => old(self)@.contains_key(key@) && p@ == old(self)@[key@],
                None => !old(self)@.contains_key(key@),
            },
    {
        proof {
            use_type_invariant(&*self);
        }
        let pos = self.position(key);
        let mut entries: Vec<(String, Value)> = Vec::new();
        std::mem::swap(&mut entries, &mut self.entries);
        let ghost old_entries = entries@;
        let ghost old_keys = entry_keys(old_entries);
        let prev = match pos {
            Some(i) => {
                assert(old_keys[i as int] == key@);
                match value {
                    Some(v) => {
                        let mut entry = (key.to_owned(), v);
                        entries.set_and_swap(i, &mut entry);
                        proof {
                            let new_keys = entry_keys(entries@);
                            assert(new_keys =~= old_keys);
                            let new_map = entries_map(entries@);
                            let want = entries_map(old_entries).insert(key@, value->0@);
                            assert forall|k: Seq<char>| #[trigger]
                                new_map.contains_key(k) implies new_map[k] == want[k] by {
                                let j = new_keys.index_of(k);
                                assert(0 <= j < new_keys.len() && new_keys[j] == k);
                                if k != key@ {
                                    assert(j != i as int);
                                    assert(entries@[j] == old_entries[j]);
                                }
                            }
                            assert(new_map =~= want);
                        }
                        Some(entry.1)
                    },
                    None => {
                        let entry = entries.remove(i);
                        proof {
                            let new_keys = entry_keys(entries@);
                            assert(new_keys =~= old_keys.remove(i as int));
                            assert forall|a: int, b: int|
                                0 <= a < new_keys.len() && 0 <= b < new_keys.len() && a != b
                                    implies new_keys[a] != new_keys[b] by {
                                let a2 = if a < i { a } else { a + 1 };
                                let b2 = if b < i { b } else { b + 1 };
                                assert(new_keys[a] == old_keys[a2]);
                                assert(new_keys[b] == old_keys[b2]);
                            }
                            assert(entries_map(entries@) =~= entries_map(old_entries).remove(key@))
                                by {
                                assert forall|k: Seq<char>|
                                    old_keys.contains(k) && k != key@ implies #[trigger] new_keys.contains(
                                    k,
                                ) && entries@[new_keys.index_of(k)] == old_entries[old_keys.index_of(
                                    k,
                                )] by {
                                    let j = old_keys.index_of(k);
                                    assert(0 <= j < old_keys.len() && old_keys[j] == k);
                                    assert(j != i);
                                    let j2 = if j < i { j } else { j - 1 };
                                    assert(new_keys[j2] == k);
                                    lemma_index_of_unique(new_keys, j2);
                                }
                                assert forall|k: Seq<char>| new_keys.contains(k) implies #[trigger] old_keys.contains(
                                    k,
                                ) && k != key@ by {
                                    let j = new_keys.index_of(k);
                                    assert(0 <= j < new_keys.len() && new_keys[j] == k);
                                    let j2 = if j < i { j } else { j + 1 };
                                    assert(old_keys[j2] == k);
                                    assert(j2 != i);
                                }
                            }
                        }
                        Some(entry.1)
                    },
                }
            },
            None => {
                match value {
                    Some(v) => {
                        entries.push((key.to_owned(), v));
                        proof {
                            let new_keys = entry_keys(entries@);
                            assert(new_keys =~= old_keys.push(key@));
                            assert(entries_map(entries@) =~= entries_map(old_entries).insert(
                                key@,
                                value->0@,
                            )) by {
                                lemma_index_of_unique(new_keys, old_keys.len() as int);
                                assert forall|k: Seq<char>| #[trigger]
                                    old_keys.contains(k) implies new_keys.contains(k)
                                    && entries@[new_keys.index_of(k)] == old_entries[old_keys.index_of(
                                    k,
                                )] by {
                                    let j = old_keys.index_of(k);
                                    assert(0 <= j < old_keys.len() && old_keys[j] == k);
                                    assert(new_keys[j] == k);
                                    lemma_index_of_unique(new_keys, j);
                                }
                                assert forall|k: Seq<char>| new_keys.contains(k) implies #[trigger] old_keys.contains(
                                    k,
                                ) || k == key@ by {
                                    let j = new_keys.index_of(k);
                                    assert(0 <= j < new_keys.len() && new_keys[j] == k);
                                    if j < old_keys.len() {
                                        assert(old_keys[j] == k);
                                    }
                                }
                            }
                        }
                        None
                    },
                    None => {
                        assert(entries_map(entries@) =~= entries_map(old_entries).remove(key@));
                        None
                    },
                }
            },
        };
        self.entries = entries;
        prev
    }

    fn get_str(&self, key: &str) -> (r: Option<&str>)
        ensures
            opt_view(r) == str_field(self@, key@),
    {
        match self.get_value(key) {
            Some(Value::Str(s)) => Some(s.as_str()),
            _ => None,
        }
    }

    fn get_string(&self, key: &str) -> (r: Option<String>)
        ensures
            opt_view(r) == str_field(self@, key@),
    {
        match self.get_value(key) {
            Some(Value::Str(s)) => Some(s.clone()),
            _ => None,
        }
    }

    fn get_strings(&self, key: &str) -> (r: Option<Vec<String>>)
        ensures
            opt_strings_view(r) == strings_field(self@, key@),
    {
        match self.get_value(key) {
            Some(Value::StrArray(v)) => Some(clone_strings(v)),
            _ => None,
        }
    }

    fn get_i32(&self, key: &str) -> (r: Option<i32>)
        ensures
            r == i32_field(self@, key@),
    {
        match self.get_value(key) {
            Some(Value::I32(n)) => Some(*n),
            _ => None,
        }
    }

    fn get_f64_bits(&self, key: &str) -> (r: Option<u64>)
        ensures
            r == f64_bits_field(self@, key@),
    {
        match self.get_value(key) {
            Some(Value::F64Bits(n)) => Some(*n),
            _ => None,
        }
    }

    fn get_time(&self, key: &str) -> (r: Option<Time>)
        ensures
            opt_view(r) == time_field(self@, key@),
    {
        match self.get_value(key) {
            Some(Value::I64(n)) => Some(Time::from_micros(*n)),
            _ => None,
        }
    }

    fn get_track_id(&self, key: &str) -> (r: Option<TrackId>)
        ensures
            opt_view(r) == path_field(self@, key@),
    {
        match self.get_value(key) {
            Some(Value::ObjectPath(p)) => Some(TrackId::from(p.clone())),
            _ => None,
        }
    }

    /// A unique identity for this track within the context of an
    /// MPRIS object (eg: tracklist).
    pub fn trackid(&self) -> (r: Option<TrackId>)
        ensures
            opt_view(r) == path_field(self@, "mpris:trackid"@),
    {
        self.get_track_id("mpris:trackid")
    }

    /// The duration of the track.
    pub fn length(&self) -> (r: Option<Time>)
        ensures
            opt_view(r) == time_field(self@, "mpris:length"@),
    {
        self.get_time("mpris:length")
    }

    /// The location of an image representing the track or album.
    pub fn art_url(&self) -> (r: Option<String>)
        ensures
            opt_view(r) == str_field(self@, "mpris:artUrl"@),
    {
        self.get_string("mpris:artUrl")
    }

    /// The album name.
    pub fn album(&self) -> (r: Option<&str>)
        ensures
            opt_view(r) == str_field(self@, "xesam:album"@),
    {
        self.get_str("xesam:album")
    }

    /// The album artist(s).
    pub fn album_artist(&self) -> (r: Option<Vec<String>>)
        ensures
            opt_strings_view(r) == strings_field(self@, "xesam:albumArtist"@),
    {
        self.get_strings("xesam:albumArtist")
    }

    /// The track artist(s).
    pub fn artist(&self) -> (r: Option<Vec<String>>)
        ensures
            opt_strings_view(r) == strings_field(self@, "xesam:artist"@),
    {
        self.get_strings("xesam:artist")
    }

    /// The track lyrics.
    pub fn lyrics(&self) -> (r: Option<&str>)
        ensures
            opt_view(r) == str_field(self@, "xesam:asText"@),
    {
        self.get_str("xesam:asText")
    }

    /// The speed of the music, in beats per minute.
    pub fn audio_bpm(&self) -> (r: Option<i32>)
        ensures
            r == i32_field(self@, "xesam:audioBPM"@),
    {
        self.get_i32("xesam:audioBPM")
    }

    /// An automatically-generated rating, based on things such as how
    /// often it has been played, as the bit pattern of a double that should be
    /// in the range 0.0 to 1.0.
    pub fn auto_rating_bits(&self) -> (r: Option<u64>)
        ensures
            r == f64_bits_field(self@, "xesam:autoRating"@),
    {
        self.get_f64_bits("xesam:autoRating")
    }

    /// A (list of) freeform comment(s).
    pub fn comment(&self) -> (r: Option<Vec<String>>)
        ensures
            opt_strings_view(r) == strings_field(self@, "xesam:comment"@),
    {
        self.get_strings("xesam:comment")
    }

    /// The composer(s) of the track.
    pub fn composer(&self) -> (r: Option<Vec<String>>)
        ensures
            opt_strings_view(r) == strings_field(self@, "xesam:composer"@),
    {
        self.get_strings("xesam:composer")
    }

    /// When the track was created. Usually only the year component
    /// will be useful.
    pub fn content_created(&self) -> (r: Option<String>)
        ensures
            opt_view(r) == str_field(self@, "xesam:contentCreated"@),
    {
        self.get_string("xesam:contentCreated")
    }

    /// The disc number on the album that this track is from.
    pub fn disc_number(&self) -> (r: Option<i32>)
        ensures
            r == i32_field(self@, "xesam:discNumber"@),
    {
        self.get_i32("xesam:discNumber")
    }

    /// When the track was first played.
    pub fn first_used(&self) -> (r: Option<String>)
        ensures
            opt_view(r) == str_field(self@, "xesam:firstUsed"@),
    {
        self.get_string("xesam:firstUsed")
    }

    /// The genre(s) of the track.
    pub fn genre(&self) -> (r: Option<Vec<String>>)
        ensures
            opt_strings_view(r) == strings_field(self@, "xesam:genre"@),
    {
        self.get_strings("xesam:genre")
    }

    /// When the track was last played.
    pub fn last_used(&self) -> (r: Option<String>)
        ensures
            opt_view(r) == str_field(self@, "xesam:lastUsed"@),
    {
        self.get_string("xesam:lastUsed")
    }

    /// The lyricist(s) of the track.
    pub fn lyricist(&self) -> (r: Option<Vec<String>>)
        ensures
            opt_strings_view(r) == strings_field(self@, "xesam:lyricist"@),
    {
        self.get_strings("xesam:lyricist")
    }

    /// The track title.
    pub fn title(&self) -> (r: Option<&str>)
        ensures
            opt_view(r) == str_field(self@, "xesam:title"@),
    {
        self.get_str("xesam:title")
    }

    /// The track number on the album disc.
    pub fn track_number(&self) -> (r: Option<i32>)
        ensures
            r == i32_field(self@, "xesam:trackNumber"@),
    {
        self.get_i32("xesam:trackNumber")
    }

    /// The location of the media file.
    pub fn url(&self) -> (r: Option<String>)
        ensures
            opt_view(r) == str_field(self@, "xesam:url"@),
    {
        self.get_string("xesam:url")
    }

    /// The number of times the track has been played.
    pub fn use_count(&self) -> (r: Option<i32>)
        ensures
            r == i32_field(self@, "xesam:useCount"@),
    {
        self.get_i32("xesam:useCount")
    }

    /// A user-specified rating, as the bit pattern of a double that should
    /// be in the range 0.0 to 1.0.
    pub fn user_rating_bits(&self) -> (r: Option<u64>)
        ensures
            r == f64_bits_field(self@, "xesam:userRating"@),
    {
        self.get_f64_bits("xesam:userRating")
    }

    /// Sets a unique identity for this track within the context of an
    /// MPRIS object (eg: tracklist).
    ///
    /// `None` removes it.
    pub fn set_trackid(&mut self, trackid: Option<TrackId>)
        ensures
            final(self)@ == map_updated(old(self)@, "mpris:trackid"@, opt_path_value(trackid)),
    {
        let value = match trackid {
            Some(v) => Some(Value::ObjectPath(v.into_inner())),
            None => None,
        };
        self.set_value("mpris:trackid", value);
    }

    /// Sets the duration of the track.
    ///
    /// `None` removes it.
    pub fn set_length(&mut self, length: Option<Time>)
        ensures
            final(self)@ == map_updated(old(self)@, "mpris:length"@, opt_time_value(length)),
    {
        let value = match length {
            Some(v) => Some(Value::I64(v.as_micros())),
            None => None,
        };
        self.set_value("mpris:length", value);
    }

    /// Sets the location of an image representing the track or album.
    ///
    /// `None` removes it.
    pub fn set_art_url(&mut self, art_url: Option<String>)
        ensures
            final(self)@ == map_updated(old(self)@, "mpris:artUrl"@, opt_str_value(art_url)),
    {
        let value = match art_url {
            Some(v) => Some(Value::Str(v)),
            None => None,
        };
        self.set_value("mpris:artUrl", value);
    }

    /// Sets the album name.
    ///
    /// `None` removes it.
    pub fn set_album(&mut self, album: Option<String>)
        ensures
            final(self)@ == map_updated(old(self)@, "xesam:album"@, opt_str_value(album)),
    {
        let value = match album {
            Some(v) => Some(Value::Str(v)),
            None => None,
        };
        self.set_value("xesam:album", value);
    }

    /// Sets the album artist(s).
    ///
    /// `None` removes it.
    pub fn set_album_artist(&mut self, album_artist: Option<Vec<String>>)
        ensures
            final(self)@ == map_updated(old(self)@, "xesam:albumArtist"@, opt_strings_value(album_artist)),
    {
        let value = match album_artist {
            Some(v) => Some(Value::StrArray(v)),
            None => None,
        };
        self.set_value("xesam:albumArtist", value);
    }

    /// Sets the track artist(s).
    ///
    /// `None` removes it.
    pub fn set_artist(&mut self, artist: Option<Vec<String>>)
        ensures
            final(self)@ == map_updated(old(self)@, "xesam:artist"@, opt_strings_value(artist)),
    {
        let value = match artist {
            Some(v) => Some(Value::StrArray(v)),
            None => None,
        };
        self.set_value("xesam:artist", value);
    }

    /// Sets the track lyrics.
    ///
    /// `None` removes it.
    pub fn set_lyrics(&mut self, lyrics: Option<String>)
        ensures
            final(self)@ == map_updated(old(self)@, "xesam:asText"@, opt_str_value(lyrics)),
    {
        let value = match lyrics {
            Some(v) => Some(Value::Str(v)),
            None => None,
        };
        self.set_value("xesam:asText", value);
    }

    /// Sets the speed of the music, in beats per minute.
    ///
    /// `None` removes it.
    pub fn set_audio_bpm(&mut self, audio_bpm: Option<i32>)
        ensures
            final(self)@ == map_updated(old(self)@, "xesam:audioBPM"@, opt_i32_value(audio_bpm)),
    {
        let value = match audio_bpm {
            Some(v) => Some(Value::I32(v)),
            None => None,
        };
        self.set_value("xesam:audioBPM", value);
    }

    /// Sets an automatically-generated rating, given as the bit pattern
    /// of a double that should be in the range 0.0 to 1.0.
    ///
    /// `None` removes it.
    pub fn set_auto_rating_bits(&mut self, auto_rating: Option<u64>)
        ensures
            final(self)@ == map_updated(old(self)@, "xesam:autoRating"@, opt_f64_bits_value(auto_rating)),
    {
        let value = match auto_rating {
            Some(v) => Some(Value::F64Bits(v)),
            None => None,
        };
        self.set_value("xesam:autoRating", value);
    }

    /// Sets a (list of) freeform comment(s).
    ///
    /// `None` removes it.
    pub fn set_comment(&mut self, comment: Option<Vec<String>>)
        ensures
            final(self)@ == map_updated(old(self)@, "xesam:comment"@, opt_strings_value(comment)),
    {
        let value = match comment {
            Some(v) => Some(Value::StrArray(v)),
            None => None,
        };
        self.set_value("xesam:comment", value);
    }

    /// Sets the composer(s) of the track.
    ///
    /// `None` removes it.
    pub fn set_composer(&mut self, composer: Option<Vec<String>>)
        ensures
            final(self)@ == map_updated(old(self)@, "xesam:composer"@, opt_strings_value(composer)),
    {
        let value = match composer {
            Some(v) => Some(Value::StrArray(v)),
            None => None,
        };
        self.set_value("xesam:composer", value);
    }

    /// Sets when the track was created. Usually only the year component
    /// will be useful.
    ///
    /// `None` removes it.
    pub fn set_content_created(&mut self, content_created: Option<String>)
        ensures
            final(self)@ == map_updated(old(self)@, "xesam:contentCreated"@, opt_str_value(content_created)),
    {
        let value = match content_created {
            Some(v) => Some(Value::Str(v)),
            None => None,
        };
        self.set_value("xesam:contentCreated", value);
    }

    /// Sets the disc number on the album that this track is from.
    ///
    /// `None` removes it.
    pub fn set_disc_number(&mut self, disc_number: Option<i32>)
        ensures
            final(self)@ == map_updated(old(self)@, "xesam:discNumber"@, opt_i32_value(disc_number)),
    {
        let value = match disc_number {
            Some(v) => Some(Value::I32(v)),
            None => None,
        };
        self.set_value("xesam:discNumber", value);
    }

    /// Sets when the track was first played.
    ///
    /// `None` removes it.
    pub fn set_first_used(&mut self, first_used: Option<String>)
        ensures
            final(self)@ == map_updated(old(self)@, "xesam:firstUsed"@, opt_str_value(first_used)),
    {
        let value = match first_used {
            Some(v) => Some(Value::Str(v)),
            None => None,
        };
        self.set_value("xesam:firstUsed", value);
    }

    /// Sets the genre(s) of the track.
    ///
    /// `None` removes it.
    pub fn set_genre(&mut self, genre: Option<Vec<String>>)
        ensures
            final(self)@ == map_updated(old(self)@, "xesam:genre"@, opt_strings_value(genre)),
    {
        let value = match genre {
            Some(v) => Some(Value::StrArray(v)),
            None => None,
        };
        self.set_value("xesam:genre", value);
    }

    /// Sets when the track was last played.
    ///
    /// `None` removes it.
    pub fn set_last_used(&mut self, last_used: Option<String>)
        ensures
            final(self)@ == map_updated(old(self)@, "xesam:lastUsed"@, opt_str_value(last_used)),
    {
        let value = match last_used {
            Some(v) => Some(Value::Str(v)),
            None => None,
        };
        self.set_value("xesam:lastUsed", value);
    }

    /// Sets the lyricist(s) of the track.
    ///
    /// `None` removes it.
    pub fn set_lyricist(&mut self, lyricist: Option<Vec<String>>)
        ensures
            final(self)@ == map_updated(old(self)@, "xesam:lyricist"@, opt_strings_value(lyricist)),
    {
        let value = match lyricist {
            Some(v) => Some(Value::StrArray(v)),
            None => None,
        };
        self.set_value("xesam:lyricist", value);
    }

    /// Sets the track title.
    ///
    /// `None` removes it.
    pub fn set_title(&mut self, title: Option<String>)
        ensures
            final(self)@ == map_updated(old(self)@, "xesam:title"@, opt_str_value(title)),
    {
        let value = match title {
            Some(v) => Some(Value::Str(v)),
            None => None,
        };
        self.set_value("xesam:title", value);
    }

    /// Sets the track number on the album disc.
    ///
    /// `None` removes it.
    pub fn set_track_number(&mut self, track_number: Option<i32>)
        ensures
            final(self)@ == map_updated(old(self)@, "xesam:trackNumber"@, opt_i32_value(track_number)),
    {
        let value = match track_number {
            Some(v) => Some(Value::I32(v)),
            None => None,
        };
        self.set_value("xesam:trackNumber", value);
    }

    /// Sets the location of the media file.
    ///
    /// `None` removes it.
    pub fn set_url(&mut self, url: Option<String>)
        ensures
            final(self)@ == map_updated(old(self)@, "xesam:url"@, opt_str_value(url)),
    {
        let value = match url {
            Some(v) => Some(Value::Str(v)),
            None => None,
        };
        self.set_value("xesam:url", value);
    }

    /// Sets the number of times the track has been played.
    ///
    /// `None` removes it.
    pub fn set_use_count(&mut self, use_count: Option<i32>)
        ensures
            final(self)@ == map_updated(old(self)@, "xesam:useCount"@, opt_i32_value(use_count)),
    {
        let value = match use_count {
            Some(v) => Some(Value::I32(v)),
            None => None,
        };
        self.set_value("xesam:useCount", value);
    }

    /// Sets a user-specified rating, given as the bit pattern of a double
    /// that should be in the range 0.0 to 1.0.
    ///
    /// `None` removes it.
    pub fn set_user_rating_bits(&mut self, user_rating: Option<u64>)
        ensures
            final(self)@ == map_updated(old(self)@, "xesam:userRating"@, opt_f64_bits_value(user_rating)),
    {
        let value = match user_rating {
            Some(v) => Some(Value::F64Bits(v)),
            None => None,
        };
        self.set_value("xesam:userRating", value);
    }

    /// Whether every attribute of `self` is in `other` with a value that
    /// compares equal.
    fn is_covered_by(&self, other: &Metadata) -> (r: bool)
        ensures
            r == (forall|k: Seq<char>| #[trigger]
                self@.contains_key(k) ==> other@.contains_key(k) && value_view_eq(self@[k], other@[k])),
    {
        proof {
            use_type_invariant(self);
        }
        let ghost sk = entry_keys(self.entries@);
        let n = self.entries.len();
        let mut i: usize = 0;
        while i < n
            invariant
                n == self.entries@.len(),
                sk == entry_keys(self.entries@),
                sk.no_duplicates(),
                0 <= i <= n,
                forall|k: int|
                    0 <= k < i ==> #[trigger] other@.contains_key(sk[k]) && value_view_eq(
                        self@[sk[k]],
                        other@[sk[k]],
                    ),
            decreases n - i,
        {
            proof {
                lemma_index_of_unique(sk, i as int);
                assert(sk[i as int] == self.entries@[i as int].0@);
                assert(self@.contains_key(sk[i as int]));
                assert(self@[sk[i as int]] == self.entries@[i as int].1@);
            }
            let key = self.entries[i].0.as_str();
            assert(key@ == sk[i as int]);
            match other.get_value(key) {
                Some(v) => {
                    if !self.entries[i].1.equals(v) {
                        return false;
                    }
                },
                None => {
                    return false;
                },
            }
            assert(other@.contains_key(sk[i as int]) && value_view_eq(self@[sk[i as int]], other@[sk[i as int]]));
            assert forall|k: int| 0 <= k < i + 1 implies #[trigger] other@.contains_key(sk[k])
                && value_view_eq(self@[sk[k]], other@[sk[k]]) by {
                if k < i {
                } else {
                    assert(k == i);
                }
            }
            i = i + 1;
        }
        proof {
            assert forall|k: Seq<char>| #[trigger] self@.contains_key(k) implies other@.contains_key(k)
                && value_view_eq(self@[k], other@[k]) by {
                let x = sk.index_of(k);
                assert(0 <= x < sk.len() && sk[x] == k);
            }
        }
        true
    }

    /// Whether the two metadata maps hold the same attributes with values that
    /// compare equal.
    pub fn same_as(&self, other: &Metadata) -> (r: bool)
        ensures
            r == metadata_eq(self@, other@),
    {
        let r = self.is_covered_by(other) && other.is_covered_by(self);
        proof {
            if r {
                assert(self@.dom() =~= other@.dom());
            }
            if metadata_eq(self@, other@) {
                assert forall|k: Seq<char>| #[trigger] other@.contains_key(k) implies self@.contains_key(k)
                    && value_view_eq(other@[k], self@[k]) by {
                    assert(self@.dom().contains(k));
                    law_value_eq_symmetric(self@[k], other@[k]);
                }
            }
        }
        r
    }
}

impl Clone for Metadata {
    fn clone(&self) -> (r: Metadata)
        ensures
            r@ == self@,
    {
        proof {
            use_type_invariant(self);
        }
        let n = self.entries.len();
        let mut entries: Vec<(String, Value)> = Vec::new();
        let mut i: usize = 0;
        while i < n
            invariant
                n == self.entries@.len(),
                0 <= i <= n,
                entries@.len() == i,
                forall|k: int|
                    0 <= k < i ==> (#[trigger] entries@[k]).0@ == self.entries@[k].0@
                        && entries@[k].1@ == self.entries@[k].1@,
            decreases n - i,
        {
            let entry = (self.entries[i].0.clone(), self.entries[i].1.clone());
            entries.push(entry);
            i = i + 1;
        }
        proof {
            assert(entry_keys(entries@) =~= entry_keys(self.entries@));
            assert(entries_map(entries@) =~= entries_map(self.entries@));
        }
        Metadata { entries }
    }
}

impl PartialEq for Metadata {
    fn eq(&self, other: &Metadata) -> (r: bool) {
        self.same_as(other)
    }
}

impl vstd::std_specs::cmp::PartialEqSpecImpl for Metadata {
    open spec fn obeys_eq_spec() -> bool {
        true
    }

    open spec fn eq_spec(&self, other: &Metadata) -> bool {
        metadata_eq(self@, other@)
    }
}

impl Default for Metadata {
    /// An empty [`Metadata`].
    fn default() -> (m: Metadata)
        ensures
            m@ == Map::<Seq<char>, ValueView>::empty(),
    {
        Metadata::new()
    }
}

} // verus!

verus! {

/// A builder used to create [`Metadata`].
///
/// Its view is the view of the metadata being built.
#[derive(Debug)]
pub struct MetadataBuilder {
    m: Metadata,
}

impl View for MetadataBuilder {
    type V = Map<Seq<char>, ValueView>;

    closed spec fn view(&self) -> Map<Seq<char>, ValueView> {
        self.m@
    }
}

impl Metadata {
    /// Creates a new builder-pattern struct instance to construct [`Metadata`].
    pub fn builder() -> (b: MetadataBuilder)
        ensures
            b@ == Map::<Seq<char>, ValueView>::empty(),
    {
        MetadataBuilder { m: Metadata::new() }
    }
}

impl Default for MetadataBuilder {
    /// A builder of empty metadata.
    fn default() -> (b: MetadataBuilder)
        ensures
            b@ == Map::<Seq<char>, ValueView>::empty(),
    {
        Metadata::builder()
    }
}

impl MetadataBuilder {
    /// Sets a value for the given key.
    pub fn other(self, key: &str, value: Value) -> (r: MetadataBuilder)
        ensures
            r@ == self@.insert(key@, value@),
    {
        let mut m = self.m;
        m.set_value(key, Some(value));
        MetadataBuilder { m }
    }

    /// Sets a unique identity for this track within the context of an
    /// MPRIS object (eg: tracklist).
    pub fn trackid(self, trackid: TrackId) -> (r: MetadataBuilder)
        ensures
            r@ == map_updated(self@, "mpris:trackid"@, opt_path_value(Some(trackid))),
    {
        let mut m = self.m;
        m.set_trackid(Some(trackid));
        MetadataBuilder { m }
    }

    /// Sets the duration of the track.
    pub fn length(self, length: Time) -> (r: MetadataBuilder)
        ensures
            r@ == map_updated(self@, "mpris:length"@, opt_time_value(Some(length))),
    {
        let mut m = self.m;
        m.set_length(Some(length));
        MetadataBuilder { m }
    }

    /// Sets the location of an image representing the track or album.
    pub fn art_url(self, art_url: String) -> (r: MetadataBuilder)
        ensures
            r@ == map_updated(self@, "mpris:artUrl"@, opt_str_value(Some(art_url))),
    {
        let mut m = self.m;
        m.set_art_url(Some(art_url));
        MetadataBuilder { m }
    }

    /// Sets the album name.
    pub fn album(self, album: String) -> (r: MetadataBuilder)
        ensures
            r@ == map_updated(self@, "xesam:album"@, opt_str_value(Some(album))),
    {
        let mut m = self.m;
        m.set_album(Some(album));
        MetadataBuilder { m }
    }

    /// Sets the album artist(s).
    pub fn album_artist(self, album_artist: Vec<String>) -> (r: MetadataBuilder)
        ensures
            r@ == map_updated(self@, "xesam:albumArtist"@, opt_strings_value(Some(album_artist))),
    {
        let mut m = self.m;
        m.set_album_artist(Some(album_artist));
        MetadataBuilder { m }
    }

    /// Sets the track artist(s).
    pub fn artist(self, artist: Vec<String>) -> (r: MetadataBuilder)
        ensures
            r@ == map_updated(self@, "xesam:artist"@, opt_strings_value(Some(artist))),
    {
        let mut m = self.m;
        m.set_artist(Some(artist));
        MetadataBuilder { m }
    }

    /// Sets the track lyrics.
    pub fn lyrics(self, lyrics: String) -> (r: MetadataBuilder)
        ensures
            r@ == map_updated(self@, "xesam:asText"@, opt_str_value(Some(lyrics))),
    {
        let mut m = self.m;
        m.set_lyrics(Some(lyrics));
        MetadataBuilder { m }
    }

    /// Sets the speed of the music, in beats per minute.
    pub fn audio_bpm(self, audio_bpm: i32) -> (r: MetadataBuilder)
        ensures
            r@ == map_updated(self@, "xesam:audioBPM"@, opt_i32_value(Some(audio_bpm))),
    {
        let mut m = self.m;
        m.set_audio_bpm(Some(audio_bpm));
        MetadataBuilder { m }
    }

    /// Sets an automatically-generated rating, given as the bit pattern
    /// of a double that should be in the range 0.0 to 1.0.
    pub fn auto_rating_bits(self, auto_rating: u64) -> (r: MetadataBuilder)
        ensures
            r@ == map_updated(self@, "xesam:autoRating"@, opt_f64_bits_value(Some(auto_rating))),
    {
        let mut m = self.m;
        m.set_auto_rating_bits(Some(auto_rating));
        MetadataBuilder { m }
    }

    /// Sets a (list of) freeform comment(s).
    pub fn comment(self, comment: Vec<String>) -> (r: MetadataBuilder)
        ensures
            r@ == map_updated(self@, "xesam:comment"@, opt_strings_value(Some(comment))),
    {
        let mut m = self.m;
        m.set_comment(Some(comment));
        MetadataBuilder { m }
    }

    /// Sets the composer(s) of the track.
    pub fn composer(self, composer: Vec<String>) -> (r: MetadataBuilder)
        ensures
            r@ == map_updated(self@, "xesam:composer"@, opt_strings_value(Some(composer))),
    {
        let mut m = self.m;
        m.set_composer(Some(composer));
        MetadataBuilder { m }
    }

    /// Sets when the track was created. Usually only the year component
    /// will be useful.
    pub fn content_created(self, content_created: String) -> (r: MetadataBuilder)
        ensures
            r@ == map_updated(self@, "xesam:contentCreated"@, opt_str_value(Some(content_created))),
    {
        let mut m = self.m;
        m.set_content_created(Some(content_created));
        MetadataBuilder { m }
    }

    /// Sets the disc number on the album that this track is from.
    pub fn disc_number(self, disc_number: i32) -> (r: MetadataBuilder)
        ensures
            r@ == map_updated(self@, "xesam:discNumber"@, opt_i32_value(Some(disc_number))),
    {
        let mut m = self.m;
        m.set_disc_number(Some(disc_number));
        MetadataBuilder { m }
    }

    /// Sets when the track was first played.
    pub fn first_used(self, first_used: String) -> (r: MetadataBuilder)
        ensures
            r@ == map_updated(self@, "xesam:firstUsed"@, opt_str_value(Some(first_used))),
    {
        let mut m = self.m;
        m.set_first_used(Some(first_used));
        MetadataBuilder { m }
    }

    /// Sets the genre(s) of the track.
    pub fn genre(self, genre: Vec<String>) -> (r: MetadataBuilder)
        ensures
            r@ == map_updated(self@, "xesam:genre"@, opt_strings_value(Some(genre))),
    {
        let mut m = self.m;
        m.set_genre(Some(genre));
        MetadataBuilder { m }
    }

    /// Sets when the track was last played.
    pub fn last_used(self, last_used: String) -> (r: MetadataBuilder)
        ensures
            r@ == map_updated(self@, "xesam:lastUsed"@, opt_str_value(Some(last_used))),
    {
        let mut m = self.m;
        m.set_last_used(Some(last_used));
        MetadataBuilder { m }
    }

    /// Sets the lyricist(s) of the track.
    pub fn lyricist(self, lyricist: Vec<String>) -> (r: MetadataBuilder)
        ensures
            r@ == map_updated(self@, "xesam:lyricist"@, opt_strings_value(Some(lyricist))),
    {
        let mut m = self.m;
        m.set_lyricist(Some(lyricist));
        MetadataBuilder { m }
    }

    /// Sets the track title.
    pub fn title(self, title: String) -> (r: MetadataBuilder)
        ensures
            r@ == map_updated(self@, "xesam:title"@, opt_str_value(Some(title))),
    {
        let mut m = self.m;
        m.set_title(Some(title));
        MetadataBuilder { m }
    }

    /// Sets the track number on the album disc.
    pub fn track_number(self, track_number: i32) -> (r: MetadataBuilder)
        ensures
            r@ == map_updated(self@, "xesam:trackNumber"@, opt_i32_value(Some(track_number))),
    {
        let mut m = self.m;
        m.set_track_number(Some(track_number));
        MetadataBuilder { m }
    }

    /// Sets the location of the media file.
    pub fn url(self, url: String) -> (r: MetadataBuilder)
        ensures
            r@ == map_updated(self@, "xesam:url"@, opt_str_value(Some(url))),
    {
        let mut m = self.m;
        m.set_url(Some(url));
        MetadataBuilder { m }
    }

    /// Sets the number of times the track has been played.
    pub fn use_count(self, use_count: i32) -> (r: MetadataBuilder)
        ensures
            r@ == map_updated(self@, "xesam:useCount"@, opt_i32_value(Some(use_count))),
    {
        let mut m = self.m;
        m.set_use_count(Some(use_count));
        MetadataBuilder { m }
    }

    /// Sets a user-specified rating, given as the bit pattern of a double
    /// that should be in the range 0.0 to 1.0.
    pub fn user_rating_bits(self, user_rating: u64) -> (r: MetadataBuilder)
        ensures
            r@ == map_updated(self@, "xesam:userRating"@, opt_f64_bits_value(Some(user_rating))),
    {
        let mut m = self.m;
        m.set_user_rating_bits(Some(user_rating));
        MetadataBuilder { m }
    }

    /// Creates [`Metadata`] from the builder.
    pub fn build(self) -> (m: Metadata)
        ensures
            m@ == self@,
    {
        self.m
    }
}

} // verus!
