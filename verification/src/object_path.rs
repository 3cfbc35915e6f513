use vstd::prelude::*;

verus! {

broadcast use vstd::string::group_string_axioms;

/// Whether `c` may stand in a D-Bus object path: an ASCII letter or digit, `_` or `/`.
pub open spec fn is_object_path_char(c: char) -> bool {
    ||| ('a' <= c && c <= 'z')
    ||| ('A' <= c && c <= 'Z')
    ||| ('0' <= c && c <= '9')
    ||| c == '_'
    ||| c == '/'
}

/// Whether `s` is a valid D-Bus object path: it is not empty, starts with `/`,
/// holds only ASCII letters, digits, `_` and `/`, has no `//`, and does not end
/// with `/` unless it is `/` itself.
pub open spec fn is_valid_object_path(s: Seq<char>) -> bool {
    &&& s.len() > 0
    &&& s[0] == '/'
    &&& forall|i: int| 0 <= i < s.len() ==> is_object_path_char(#[trigger] s[i])
    &&& forall|i: int| 1 <= i < s.len() ==> !(#[trigger] s[i] == '/' && s[i - 1] == '/')
    &&& (s.len() > 1 ==> s[s.len() - 1] != '/')
}

/// The ASCII code of `/`.
const SLASH: u8 = 47;

/// Whether the byte `b` is the ASCII code of a letter or digit, `_` or `/`.
fn is_object_path_byte(b: u8) -> (r: bool)
    ensures
        r == ((97 <= b && b <= 122) || (65 <= b && b <= 90) || (48 <= b && b <= 57) || b == 95
            || b == 47),
{
    (97 <= b && b <= 122) || (65 <= b && b <= 90) || (48 <= b && b <= 57) || b == 95 || b == SLASH
}

/// Checks whether `s` is a valid D-Bus object path.
pub fn check_object_path(s: &str) -> (r: bool)
    ensures
        r == is_valid_object_path(s@),
{
    if !s.is_ascii() {
        proof {
            let k = choose|k: int| 0 <= k < s@.len() && !('\0' <= #[trigger] s@[k] <= '\u{7f}');
            assert(!is_object_path_char(s@[k]));
        }
        return false;
    }
    let bytes = s.as_bytes();
    let n = bytes.len();
    proof {
        assert(bytes@ =~= Seq::new(s@.len(), |i| s@.index(i) as u8));
        assert forall|i: int| 0 <= i < s@.len() implies (bytes@[i] as int) == (s@[i] as int) by {
            assert('\0' <= s@[i] <= '\u{7f}');
        }
    }
    if n == 0 {
        return false;
    }
    let mut prev: u8 = 0;
    let mut i: usize = 0;
    while i < n
        invariant
            n == bytes@.len(),
            n == s@.len(),
            n > 0,
            0 <= i <= n,
            forall|k: int| 0 <= k < s@.len() ==> (bytes@[k] as int) == (s@[k] as int),
            i > 0 ==> s@[0] == '/',
            i > 0 ==> prev == bytes@[i - 1],
            forall|k: int| 0 <= k < i ==> is_object_path_char(#[trigger] s@[k]),
            forall|k: int| 1 <= k < i ==> !(#[trigger] s@[k] == '/' && s@[k - 1] == '/'),
            forall|k: int| 0 <= k < i ==> (n > 1 && k == n - 1 ==> s@[k] != '/'),
        decreases n - i,
    {
        let c = bytes[i];
        assert(c as int == s@[i as int] as int);
        if i == 0 && c != SLASH {
            return false;
        } else if c == SLASH && i > 0 && prev == SLASH {
            return false;
        } else if n > 1 && i == n - 1 && c == SLASH {
            return false;
        } else if !is_object_path_byte(c) {
            return false;
        }
        prev = c;
        i = i + 1;
    }
    true
}

} // verus!

verus! {

/// The error for a string that is not a valid D-Bus object path.
#[derive(Debug, Clone, Copy, PartialEq, Eq, Structural)]
pub struct InvalidObjectPath;

/// An owned D-Bus object path, which is always valid.
///
/// Its view is the path's characters.
#[derive(Debug)]
pub struct OwnedObjectPath {
    path: String,
}

impl View for OwnedObjectPath {
    type V = Seq<char>;

    closed spec fn view(&self) -> Seq<char> {
        self.path@
    }
}

impl OwnedObjectPath {
    #[verifier::type_invariant]
    spec fn is_valid(&self) -> bool {
        is_valid_object_path(self.path@)
    }

    /// Parses `s` as an object path, failing if it is not a valid one.
    pub fn try_from(s: &str) -> (r: Result<OwnedObjectPath, InvalidObjectPath>)
        ensures
            r is Ok <==> is_valid_object_path(s@),
            r matches Ok(p) ==> p@ == s@,
    {
        if check_object_path(s) {
            Ok(OwnedObjectPath { path: s.to_owned() })
        } else {
            Err(InvalidObjectPath)
        }
    }

    /// Parses the owned string `s` as an object path, failing if it is not a valid one.
    pub fn try_from_string(s: String) -> (r: Result<OwnedObjectPath, InvalidObjectPath>)
        ensures
            r is Ok <==> is_valid_object_path(s@),
            r matches Ok(p) ==> p@ == s@,
    {
        if check_object_path(s.as_str()) {
            Ok(OwnedObjectPath { path: s })
        } else {
            Err(InvalidObjectPath)
        }
    }

    /// The root path, `/`.
    pub fn root() -> (p: OwnedObjectPath)
        ensures
            p@ == seq!['/'],
    {
        let s = "/";
        proof {
            reveal_strlit("/");
        }
        OwnedObjectPath { path: s.to_owned() }
    }

    /// The path as a string slice; it is always a valid object path.
    pub fn as_str(&self) -> (r: &str)
        ensures
            r@ == self@,
            is_valid_object_path(r@),
    {
        proof {
            use_type_invariant(self);
        }
        self.path.as_str()
    }
}

impl Clone for OwnedObjectPath {
    fn clone(&self) -> (r: OwnedObjectPath)
        ensures
            r@ == self@,
    {
        proof {
            use_type_invariant(self);
        }
        OwnedObjectPath { path: self.path.clone() }
    }
}

impl PartialEq for OwnedObjectPath {
    fn eq(&self, other: &OwnedObjectPath) -> (r: bool) {
        self.path == other.path
    }
}

impl vstd::std_specs::cmp::PartialEqSpecImpl for OwnedObjectPath {
    open spec fn obeys_eq_spec() -> bool {
        true
    }

    open spec fn eq_spec(&self, other: &OwnedObjectPath) -> bool {
        self@ == other@
    }
}

impl Eq for OwnedObjectPath {

}

} // verus!

verus! {

/// The object path that the text `s` stands for, if it is a valid one.
pub open spec fn parse_object_path(s: Seq<char>) -> Option<Seq<char>> {
    if is_valid_object_path(s) {
        Some(s)
    } else {
        None
    }
}

/// The text of a valid object path parses back to the same path.
pub proof fn law_object_path_round_trip(path: Seq<char>)
    requires
        is_valid_object_path(path),
    ensures
        parse_object_path(path) == Some(path),
{
}

/// Appending an element to a valid object path gives a valid object path,
/// whatever character the element starts with: an element is any non-empty
/// run of ASCII letters, digits and `_`, and it follows the root `/` directly
/// or another path after one `/`.
pub proof fn law_object_path_append_element(p: Seq<char>, e: Seq<char>)
    requires
        is_valid_object_path(p),
        e.len() > 0,
        forall|i: int|
            0 <= i < e.len() ==> ('a' <= #[trigger] e[i] <= 'z') || ('A' <= e[i] <= 'Z') || ('0'
                <= e[i] <= '9') || e[i] == '_',
    ensures
        is_valid_object_path(
            if p.len() == 1 {
                p + e
            } else {
                p + seq!['/'] + e
            },
        ),
{
    let q = if p.len() == 1 {
        p + e
    } else {
        p + seq!['/'] + e
    };
    let m = q.len() - e.len();
    assert(forall|i: int| m <= i < q.len() ==> q[i] == e[i - m]);
    assert(forall|i: int| 0 <= i < p.len() ==> q[i] == p[i]);
    assert(p.len() > 1 ==> q[p.len() as int] == '/');
    assert forall|i: int| 0 <= i < q.len() implies is_object_path_char(#[trigger] q[i]) by {
        if i >= m {
            assert(q[i] == e[i - m]);
        } else if i < p.len() {
            assert(q[i] == p[i]);
        }
    }
    assert forall|i: int| 1 <= i < q.len() implies !(#[trigger] q[i] == '/' && q[i - 1] == '/') by {
        if i >= m {
            assert(q[i] == e[i - m]);
        } else if i < p.len() {
            assert(q[i] == p[i] && q[i - 1] == p[i - 1]);
        } else {
            assert(q[i - 1] == p[p.len() - 1]);
        }
    }
    assert(q[q.len() - 1] == e[e.len() - 1]);
}

proof fn lemma_last_slash(q: Seq<char>, n: int) -> (j: int)
    requires
        0 < n <= q.len(),
        q[0] == '/',
    ensures
        0 <= j < n,
        q[j] == '/',
        forall|k: int| j < k < n ==> q[k] != '/',
    decreases n,
{
    if q[n - 1] == '/' {
        n - 1
    } else {
        lemma_last_slash(q, n - 1)
    }
}

/// Every valid object path is the root `/`, or a valid object path with one
/// element appended (as in [`law_object_path_append_element`]): a non-empty
/// run of ASCII letters, digits and `_`.
pub proof fn law_object_path_decomposes(q: Seq<char>)
    requires
        is_valid_object_path(q),
    ensures
        q.len() == 1 ==> q == seq!['/'],
        q.len() > 1 ==> exists|p: Seq<char>, e: Seq<char>|
            #![trigger is_valid_object_path(p), e.len()]
            {
                &&& is_valid_object_path(p)
                &&& e.len() > 0
                &&& forall|i: int|
                    0 <= i < e.len() ==> ('a' <= #[trigger] e[i] <= 'z') || ('A' <= e[i] <= 'Z')
                        || ('0' <= e[i] <= '9') || e[i] == '_'
                &&& q == (if p.len() == 1 {
                    p + e
                } else {
                    p + seq!['/'] + e
                })
            },
{
    if q.len() == 1 {
        assert(q =~= seq!['/']);
    } else {
        let n = q.len() as int;
        let j = lemma_last_slash(q, n);
        assert(q[n - 1] != '/');
        let e = q.subrange(j + 1, n);
        assert forall|i: int| 0 <= i < e.len() implies ('a' <= #[trigger] e[i] <= 'z') || ('A'
            <= e[i] <= 'Z') || ('0' <= e[i] <= '9') || e[i] == '_' by {
            assert(e[i] == q[j + 1 + i]);
            assert(is_object_path_char(q[j + 1 + i]));
        }
        if j == 0 {
            let p = q.subrange(0, 1);
            assert(p =~= seq!['/']);
            assert(q =~= p + e);
            assert(is_valid_object_path(p));
            assert(q == (if p.len() == 1 { p + e } else { p + seq!['/'] + e }));
        } else {
            assert(j != 1) by {
                if j == 1 {
                    assert(q[1] == '/' && q[0] == '/');
                }
            }
            let p = q.subrange(0, j);
            assert(q[j] == '/' && !(q[j] == '/' && q[j - 1] == '/'));
            assert(p[p.len() - 1] == q[j - 1]);
            assert forall|i: int| 0 <= i < p.len() implies is_object_path_char(#[trigger] p[i]) by {
                assert(p[i] == q[i]);
            }
            assert forall|i: int| 1 <= i < p.len() implies !(#[trigger] p[i] == '/' && p[i - 1]
                == '/') by {
                assert(p[i] == q[i] && p[i - 1] == q[i - 1]);
            }
            assert(is_valid_object_path(p));
            assert(q =~= p + seq!['/'] + e);
            assert(q == (if p.len() == 1 { p + e } else { p + seq!['/'] + e }));
        }
    }
}

/// The root path `/` is a valid object path.
pub proof fn law_root_is_valid()
    ensures
        is_valid_object_path(seq!['/']),
{
}

} // verus!
