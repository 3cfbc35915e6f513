use vstd::prelude::*;

verus! {

/// Whether `c` may stand in an element of a well-known bus name: an ASCII
/// letter or digit, `_` or `-`.
pub open spec fn is_bus_name_char(c: char) -> bool {
    ||| ('a' <= c && c <= 'z')
    ||| ('A' <= c && c <= 'Z')
    ||| ('0' <= c && c <= '9')
    ||| c == '_'
    ||| c == '-'
}

/// Whether `c` is an ASCII digit.
pub open spec fn is_ascii_digit(c: char) -> bool {
    '0' <= c && c <= '9'
}

/// Whether `s` is a valid well-known D-Bus bus name, as zbus checks it: 3 to
/// 255 characters, each an ASCII letter or digit, `_`, `-` or `.`; at least
/// one `.`; no `.` at the start or right after another `.`; and no digit at
/// the start or right after a `.`.
pub open spec fn is_valid_well_known_name(s: Seq<char>) -> bool {
    &&& 3 <= s.len() <= 255
    &&& forall|i: int| 0 <= i < s.len() ==> (#[trigger] is_bus_name_char(s[i]) || s[i] == '.')
    &&& forall|i: int|
        0 <= i < s.len() && (s[i] == '.' || is_ascii_digit(s[i])) ==> i > 0 && #[trigger] s[i - 1]
            != '.'
    &&& exists|i: int| 0 <= i < s.len() && #[trigger] s[i] == '.'
}

/// The prefix of the bus names of MPRIS media players.
pub open spec fn mpris_bus_name_prefix() -> Seq<char> {
    "org.mpris.MediaPlayer2."@
}

/// Checks a well-known bus name with zbus, keeping its text.
///
/// Calls `zbus::names::WellKnownName::try_from(String)`; the contract claims
/// that it accepts exactly the names of [`is_valid_well_known_name`] (the
/// rules of zbus_names' `ensure_correct_well_known_name`, on a name whose
/// characters are all ASCII, which every accepted name is), and that the
/// accepted name has the text given. Of the error, only zbus' explanation is
/// kept, and nothing is stated of its text.
#[verifier::external_body]
fn well_known_name_try_from(name: String) -> (r: Result<String, String>)
    ensures
        r is Ok <==> is_valid_well_known_name(name@),
        r matches Ok(n) ==> n@ == name@,
{
    match zbus::names::WellKnownName::try_from(name) {
        Ok(n) => Ok(n.as_str().to_owned()),
        Err(zbus::names::Error::InvalidWellKnownName(m)) => Err(m),
        Err(e) => Err(e.to_string()),
    }
}

/// The error for a bus name suffix that does not give a valid bus name; it
/// holds zbus' explanation.
#[derive(Debug, PartialEq, Eq)]
pub struct InvalidBusName(pub String);

/// The well-known bus name `org.mpris.MediaPlayer2.<bus_name_suffix>` that a
/// media player is served under, or an error if it is not a valid bus name.
pub fn mpris_bus_name(bus_name_suffix: &str) -> (r: Result<String, InvalidBusName>)
    ensures
        r is Ok <==> is_valid_well_known_name(mpris_bus_name_prefix() + bus_name_suffix@),
        r matches Ok(n) ==> n@ == mpris_bus_name_prefix() + bus_name_suffix@,
{
    let mut name = String::from_str("org.mpris.MediaPlayer2.");
    name.append(bus_name_suffix);
    match well_known_name_try_from(name) {
        Ok(n) => Ok(n),
        Err(message) => Err(InvalidBusName(message)),
    }
}

/// A suffix that is not empty, holds only ASCII letters, digits, `_` and `-`,
/// and does not begin with a digit, as D-Bus asks of a
/// unique identifier, gives a valid bus name when it is at most 232
/// characters long (so that the whole name fits in 255).
pub proof fn law_identifier_suffix_gives_valid_name(suffix: Seq<char>)
    requires
        1 <= suffix.len() <= 232,
        forall|i: int| 0 <= i < suffix.len() ==> #[trigger] is_bus_name_char(suffix[i]),
        !is_ascii_digit(suffix[0]),
    ensures
        is_valid_well_known_name(mpris_bus_name_prefix() + suffix),
{
    reveal_strlit("org.mpris.MediaPlayer2.");
    let p = mpris_bus_name_prefix();
    let s = p + suffix;
    assert(p.len() == 23);
    assert(s[3] == '.');
    assert forall|i: int| 0 <= i < s.len() implies (#[trigger] is_bus_name_char(s[i]) || s[i]
        == '.') by {
        if i >= 23 {
            assert(s[i] == suffix[i - 23]);
        }
    }
    assert forall|i: int|
        0 <= i < s.len() && (s[i] == '.' || is_ascii_digit(s[i])) implies i > 0 && #[trigger] s[i
        - 1] != '.' by {
        if i > 23 {
            assert(s[i - 1] == suffix[i - 24]);
            assert(is_bus_name_char(suffix[i - 24]));
        } else if i == 23 {
            assert(s[i] == suffix[0]);
            assert(is_bus_name_char(suffix[0]));
        } else {
            assert(s[i] == p[i]);
            assert(i > 0 ==> s[i - 1] == p[i - 1]);
            assert(p =~= seq![
                'o', 'r', 'g', '.', 'm', 'p', 'r', 'i', 's', '.', 'M', 'e', 'd', 'i', 'a', 'P',
                'l', 'a', 'y', 'e', 'r', '2', '.',
            ]);
        }
    }
}

} // verus!
