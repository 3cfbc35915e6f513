use vstd::prelude::*;

use crate::object_path::OwnedObjectPath;
use crate::text::{clone_strings, strings_eq};

verus! {

/// The characters of each string in `v`.
pub open spec fn strings_view(v: Seq<String>) -> Seq<Seq<char>> {
    v.map_values(|s: String| s@)
}

/// Whether the double with bit pattern `b` is a NaN: all exponent bits set and
/// a fraction that is not zero.
pub open spec fn f64_bits_is_nan(b: u64) -> bool {
    (b & 0x7ff0_0000_0000_0000u64) == 0x7ff0_0000_0000_0000u64 && (b & 0x000f_ffff_ffff_ffffu64)
        != 0
}

/// Whether the double with bit pattern `b` is a zero, of either sign.
pub open spec fn f64_bits_is_zero(b: u64) -> bool {
    (b & 0x7fff_ffff_ffff_ffffu64) == 0
}

/// Whether the doubles with bit patterns `a` and `b` compare equal as doubles
/// (IEEE 754): no NaN equals anything, the two zeros are equal, and otherwise
/// equal doubles have the same bits.
pub open spec fn f64_bits_eq(a: u64, b: u64) -> bool {
    !f64_bits_is_nan(a) && !f64_bits_is_nan(b) && (a == b || (f64_bits_is_zero(a)
        && f64_bits_is_zero(b)))
}

/// Whether two values compare equal: of the same type and with the same
/// contents, doubles compared as doubles.
pub open spec fn value_view_eq(a: ValueView, b: ValueView) -> bool {
    match (a, b) {
        (ValueView::F64Bits(x), ValueView::F64Bits(y)) => f64_bits_eq(x, y),
        _ => a == b,
    }
}

/// Comparing two values gives the same answer in either order.
pub proof fn law_value_eq_symmetric(a: ValueView, b: ValueView)
    ensures
        value_view_eq(a, b) == value_view_eq(b, a),
{
}

/// Two doubles compare equal only when they are the same double: the same bit
/// pattern, or the two zeros (`0x0` and `0x8000_0000_0000_0000`). The zeros are
/// equal to each other, every double other than a NaN equals itself (the
/// infinities too), and a NaN (all exponent bits set, fraction not zero) equals
/// nothing.
pub proof fn law_f64_bits_eq_is_double_eq(a: u64, b: u64)
    ensures
        f64_bits_eq(a, b) ==> a == b || ((a == 0 || a == 0x8000_0000_0000_0000u64) && (b == 0 || b
            == 0x8000_0000_0000_0000u64)),
        (a == 0 || a == 0x8000_0000_0000_0000u64) && (b == 0 || b == 0x8000_0000_0000_0000u64)
            ==> f64_bits_eq(a, b),
        a == b && (a & 0x7ff0_0000_0000_0000u64) != 0x7ff0_0000_0000_0000u64 ==> f64_bits_eq(a, b),
        a == b && (a == 0x7ff0_0000_0000_0000u64 || a == 0xfff0_0000_0000_0000u64) ==> f64_bits_eq(
            a,
            b,
        ),
        (a & 0x7ff0_0000_0000_0000u64) == 0x7ff0_0000_0000_0000u64 && (a & 0x000f_ffff_ffff_ffffu64)
            != 0 ==> !f64_bits_eq(a, b) && !f64_bits_eq(b, a),
{
    assert((a & 0x7fff_ffff_ffff_ffffu64) == 0 <==> (a == 0 || a == 0x8000_0000_0000_0000u64))
        by (bit_vector);
    assert((b & 0x7fff_ffff_ffff_ffffu64) == 0 <==> (b == 0 || b == 0x8000_0000_0000_0000u64))
        by (bit_vector);
    assert((a == 0x7ff0_0000_0000_0000u64 || a == 0xfff0_0000_0000_0000u64) ==> (a
        & 0x000f_ffff_ffff_ffffu64) == 0) by (bit_vector);
    assert((a == 0 || a == 0x8000_0000_0000_0000u64) ==> (a & 0x7ff0_0000_0000_0000u64) == 0)
        by (bit_vector);
    assert((b == 0 || b == 0x8000_0000_0000_0000u64) ==> (b & 0x7ff0_0000_0000_0000u64) == 0)
        by (bit_vector);
}

/// Apart from two doubles, values compare equal exactly when they hold the
/// same contents: the same type and the same value.
pub proof fn law_value_eq_is_content_eq(a: ValueView, b: ValueView)
    requires
        !(a is F64Bits && b is F64Bits),
    ensures
        value_view_eq(a, b) <==> a == b,
{
}

/// Two doubles held as values compare as doubles.
pub proof fn law_value_eq_doubles(a: u64, b: u64)
    ensures
        value_view_eq(ValueView::F64Bits(a), ValueView::F64Bits(b)) == f64_bits_eq(a, b),
{
}

/// Compares the doubles with bit patterns `a` and `b` as doubles.
pub(crate) fn f64_bits_equal(a: u64, b: u64) -> (r: bool)
    ensures
        r == f64_bits_eq(a, b),
{
    let a_nan = (a & 0x7ff0_0000_0000_0000u64) == 0x7ff0_0000_0000_0000u64 && (a
        & 0x000f_ffff_ffff_ffffu64) != 0;
    let b_nan = (b & 0x7ff0_0000_0000_0000u64) == 0x7ff0_0000_0000_0000u64 && (b
        & 0x000f_ffff_ffff_ffffu64) != 0;
    let a_zero = (a & 0x7fff_ffff_ffff_ffffu64) == 0;
    let b_zero = (b & 0x7fff_ffff_ffff_ffffu64) == 0;
    !a_nan && !b_nan && (a == b || (a_zero && b_zero))
}

/// What a [`Value`] holds, as mathematical values.
pub enum ValueView {
    Bool(bool),
    I32(i32),
    U32(u32),
    I64(i64),
    F64Bits(u64),
    Str(Seq<char>),
    ObjectPath(Seq<char>),
    StrArray(Seq<Seq<char>>),
}

/// A D-Bus variant value of one of the types that MPRIS metadata and
/// properties use.
///
/// A double is held as its IEEE 754 bit pattern (`f64::to_bits`).
#[derive(Debug)]
pub enum Value {
    /// A boolean (`b`).
    Bool(bool),
    /// A signed 32-bit integer (`i`).
    I32(i32),
    /// An unsigned 32-bit integer (`u`).
    U32(u32),
    /// A signed 64-bit integer (`x`).
    I64(i64),
    /// A double (`d`), by its bit pattern.
    F64Bits(u64),
    /// A string (`s`).
    Str(String),
    /// An object path (`o`).
    ObjectPath(OwnedObjectPath),
    /// An array of strings (`as`).
    StrArray(Vec<String>),
}

impl View for Value {
    type V = ValueView;

    open spec fn view(&self) -> ValueView {
        match self {
            Value::Bool(b) => ValueView::Bool(*b),
            Value::I32(n) => ValueView::I32(*n),
            Value::U32(n) => ValueView::U32(*n),
            Value::I64(n) => ValueView::I64(*n),
            Value::F64Bits(n) => ValueView::F64Bits(*n),
            Value::Str(s) => ValueView::Str(s@),
            Value::ObjectPath(p) => ValueView::ObjectPath(p@),
            Value::StrArray(v) => ValueView::StrArray(strings_view(v@)),
        }
    }
}

impl Value {
    /// Whether the two values are of the same type and hold the same contents,
    /// doubles compared as doubles.
    pub fn equals(&self, other: &Value) -> (r: bool)
        ensures
            r == value_view_eq(self@, other@),
    {
        match (self, other) {
            (Value::Bool(a), Value::Bool(b)) => *a == *b,
            (Value::I32(a), Value::I32(b)) => *a == *b,
            (Value::U32(a), Value::U32(b)) => *a == *b,
            (Value::I64(a), Value::I64(b)) => *a == *b,
            (Value::F64Bits(a), Value::F64Bits(b)) => f64_bits_equal(*a, *b),
            (Value::Str(a), Value::Str(b)) => *a == *b,
            (Value::ObjectPath(a), Value::ObjectPath(b)) => *a == *b,
            (Value::StrArray(a), Value::StrArray(b)) => strings_eq(a, b),
            _ => false,
        }
    }
}

impl Clone for Value {
    fn clone(&self) -> (r: Value)
        ensures
            r@ == self@,
    {
        match self {
            Value::Bool(b) => Value::Bool(*b),
            Value::I32(n) => Value::I32(*n),
            Value::U32(n) => Value::U32(*n),
            Value::I64(n) => Value::I64(*n),
            Value::F64Bits(n) => Value::F64Bits(*n),
            Value::Str(s) => Value::Str(s.clone()),
            Value::ObjectPath(p) => Value::ObjectPath(p.clone()),
            Value::StrArray(v) => Value::StrArray(clone_strings(v)),
        }
    }
}

impl PartialEq for Value {
    fn eq(&self, other: &Value) -> (r: bool) {
        self.equals(other)
    }
}

impl vstd::std_specs::cmp::PartialEqSpecImpl for Value {
    open spec fn obeys_eq_spec() -> bool {
        true
    }

    open spec fn eq_spec(&self, other: &Value) -> bool {
        value_view_eq(self@, other@)
    }
}

/// The error of a conversion from a [`Value`].
#[derive(Debug, PartialEq, Eq)]
pub enum ValueError {
    /// The value is not of the type that the conversion takes.
    IncorrectType,
    /// The value is of the right type but its contents are not accepted.
    Message(String),
}

} // verus!
