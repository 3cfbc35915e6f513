use vstd::prelude::*;

use zbus::zvariant::Type;

verus! {

/// The D-Bus signature of a 64-bit signed integer, `x`, as zvariant gives it.
///
/// Calls `<i64 as zvariant::Type>::signature`; the contract claims that it
/// is the one-character signature `x` (zvariant's `SIGNATURE_STR` for `i64`).
#[verifier::external_body]
pub(crate) fn i64_signature() -> (s: String)
    ensures
        s@ == seq!['x'],
{
    <i64 as Type>::signature().as_str().to_owned()
}

/// The D-Bus signature of a structure of an object path and two strings,
/// `(oss)`, as zvariant gives it.
///
/// Calls `zvariant::Type::signature` for the tuple of those three types; the
/// contract claims that it is `(` followed by `o`, `s`, `s` and `)`, as zvariant's
/// tuple implementation concatenates the fields' signatures between parentheses.
#[verifier::external_body]
pub(crate) fn object_path_str_str_signature() -> (s: String)
    ensures
        s@ == seq!['(', 'o', 's', 's', ')'],
{
    <(zbus::zvariant::ObjectPath<'static>, String, String) as Type>::signature().as_str().to_owned()
}

/// The D-Bus signature of a structure of a boolean and a structure of an
/// object path and two strings, `(b(oss))`, as zvariant gives it.
///
/// Calls `zvariant::Type::signature` for the nested tuple of those types; the
/// contract claims that it is `(b(oss))`, by the same concatenation.
#[verifier::external_body]
pub(crate) fn bool_object_path_str_str_signature() -> (s: String)
    ensures
        s@ == seq!['(', 'b', '(', 'o', 's', 's', ')', ')'],
{
    <(bool, (zbus::zvariant::ObjectPath<'static>, String, String)) as Type>::signature().as_str().to_owned()
}

} // verus!
