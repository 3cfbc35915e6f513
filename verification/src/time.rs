use vstd::prelude::*;

use crate::signature::i64_signature;

verus! {

/// Whether `x` is a value of `i64`.
pub open spec fn fits_i64(x: int) -> bool {
    i64::MIN <= x <= i64::MAX
}

/// Integer division of `a` by a positive `d`, rounding toward zero, as Rust's `/` does.
pub open spec fn div_toward_zero(a: int, d: int) -> int
    recommends
        d > 0,
{
    if a >= 0 {
        a / d
    } else {
        -((-a) / d)
    }
}

/// The absolute value of `a`.
pub open spec fn abs_int(a: int) -> int {
    if a < 0 {
        -a
    } else {
        a
    }
}

/// A whole number of seconds reads back as that number of seconds.
pub proof fn law_secs_round_trip(secs: int)
    ensures
        div_toward_zero(secs * 1_000_000, 1_000_000) == secs,
{
    if secs >= 0 {
        assert((secs * 1_000_000) / 1_000_000 == secs) by (nonlinear_arith);
    } else {
        assert(((-secs) * 1_000_000) / 1_000_000 == -secs) by (nonlinear_arith);
        assert(-(secs * 1_000_000) == (-secs) * 1_000_000) by (nonlinear_arith);
    }
}

/// A whole number of milliseconds reads back as that number of milliseconds.
pub proof fn law_millis_round_trip(millis: int)
    ensures
        div_toward_zero(millis * 1000, 1000) == millis,
{
    if millis >= 0 {
        assert((millis * 1000) / 1000 == millis) by (nonlinear_arith);
    } else {
        assert(((-millis) * 1000) / 1000 == -millis) by (nonlinear_arith);
        assert(-(millis * 1000) == (-millis) * 1000) by (nonlinear_arith);
    }
}

/// Nanoseconds are kept to the microsecond below them in size: what is dropped
/// is less than a microsecond, and the sign is kept.
pub proof fn law_nanos_truncation(nanos: int)
    ensures
        abs_int(nanos - div_toward_zero(nanos, 1000) * 1000) < 1000,
        abs_int(div_toward_zero(nanos, 1000) * 1000) <= abs_int(nanos),
        div_toward_zero(nanos, 1000) * nanos >= 0,
{
    if nanos >= 0 {
        assert(0 <= nanos - (nanos / 1000) * 1000 < 1000) by (nonlinear_arith);
        assert((nanos / 1000) * nanos >= 0) by (nonlinear_arith)
            requires
                nanos >= 0,
        ;
    } else {
        let m = -nanos;
        assert(0 <= m - (m / 1000) * 1000 < 1000) by (nonlinear_arith);
        assert(-(m / 1000) * nanos >= 0) by (nonlinear_arith)
            requires
                nanos < 0,
                m == -nanos,
        ;
        assert(-(m / 1000) * 1000 == -((m / 1000) * 1000)) by (nonlinear_arith);
    }
}

/// Exactly one of zero, negative and positive holds of a time.
pub proof fn law_sign_trichotomy(t: Time)
    ensures
        (t@ == 0) as int + (t@ < 0) as int + (t@ > 0) as int == 1,
{
}

/// Checked addition does not depend on the order of its operands.
pub proof fn law_checked_add_commutes(a: Time, b: Time)
    ensures
        fits_i64(a@ + b@) == fits_i64(b@ + a@),
        a@ + b@ == b@ + a@,
{
}

/// Subtracting what was added gives back the first time.
pub proof fn law_sub_undoes_add(a: Time, b: Time)
    requires
        fits_i64(a@ + b@),
    ensures
        fits_i64((a@ + b@) - b@),
        (a@ + b@) - b@ == a@,
{
    Time::lemma_view_range(a);
}

/// The absolute value of a time other than the minimum is not negative and
/// has the same size.
pub proof fn law_abs_not_negative(t: Time)
    requires
        t@ != i64::MIN,
    ensures
        abs_int(t@) >= 0,
        fits_i64(abs_int(t@)),
{
    Time::lemma_view_range(t);
}

/// A time which can be negative, counted in whole microseconds.
///
/// Its view is the number of microseconds.
#[derive(Clone, Copy, PartialEq, Eq, Structural, PartialOrd, Ord, Hash, Debug)]
pub struct Time(i64);

impl View for Time {
    type V = int;

    closed spec fn view(&self) -> int {
        self.0 as int
    }
}

impl Time {
    /// Every time is a microsecond count that fits in an `i64`.
    pub proof fn lemma_view_range(t: Time)
        ensures
            fits_i64(t@),
    {
    }

    /// Two times with the same microsecond count are the same time.
    pub proof fn lemma_view_injective(a: Time, b: Time)
        ensures
            a@ == b@ <==> a == b,
    {
    }

    /// The D-Bus signature of a time, `x`: it is sent as a 64-bit signed integer.
    pub fn signature() -> (s: String)
        ensures
            s@ == seq!['x'],
    {
        i64_signature()
    }

    /// A time of zero.
    #[allow(non_snake_case)]
    pub fn ZERO() -> (t: Time)
        ensures
            t@ == 0,
    {
        Time(0)
    }

    /// The minimum time.
    #[allow(non_snake_case)]
    pub fn MIN() -> (t: Time)
        ensures
            t@ == i64::MIN,
    {
        Time(i64::MIN)
    }

    /// The maximum time.
    #[allow(non_snake_case)]
    pub fn MAX() -> (t: Time)
        ensures
            t@ == i64::MAX,
    {
        Time(i64::MAX)
    }

    /// Creates a new `Time` from the specified number of whole seconds.
    pub fn from_secs(secs: i64) -> (t: Time)
        requires
            fits_i64(secs * 1_000_000),
        ensures
            t@ == secs * 1_000_000,
    {
        Time::from_micros(secs * 1_000_000)
    }

    /// Creates a new `Time` from the specified number of whole milliseconds.
    pub fn from_millis(millis: i64) -> (t: Time)
        requires
            fits_i64(millis * 1000),
        ensures
            t@ == millis * 1000,
    {
        Time::from_micros(millis * 1000)
    }

    /// Creates a new `Time` from the specified number of whole microseconds.
    pub fn from_micros(micros: i64) -> (t: Time)
        ensures
            t@ == micros,
    {
        Time(micros)
    }

    /// Creates a new `Time` from the specified number of whole nanoseconds,
    /// dropping what is below a microsecond (rounding toward zero).
    pub fn from_nanos(nanos: i64) -> (t: Time)
        ensures
            t@ == div_toward_zero(nanos as int, 1000),
    {
        Time::from_micros(nanos / 1000)
    }

    /// Returns the number of whole seconds contained by this `Time`.
    pub fn as_secs(&self) -> (s: i64)
        ensures
            s == div_toward_zero(self@, 1_000_000),
    {
        self.as_micros() / 1_000_000
    }

    /// Returns the number of whole milliseconds contained by this `Time`.
    pub fn as_millis(&self) -> (m: i64)
        ensures
            m == div_toward_zero(self@, 1000),
    {
        self.as_micros() / 1000
    }

    /// Returns the number of whole microseconds contained by this `Time`.
    pub fn as_micros(&self) -> (m: i64)
        ensures
            m == self@,
    {
        self.0
    }

    /// Returns the number of whole nanoseconds contained by this `Time`.
    pub fn as_nanos(&self) -> (n: i64)
        requires
            fits_i64(self@ * 1000),
        ensures
            n == self@ * 1000,
    {
        self.as_micros() * 1000
    }

    /// Returns true if this `Time` is zero.
    pub fn is_zero(&self) -> (b: bool)
        ensures
            b == (self@ == 0),
    {
        self.0 == 0
    }

    /// Returns true if this `Time` is negative.
    pub fn is_negative(&self) -> (b: bool)
        ensures
            b == (self@ < 0),
    {
        self.0 < 0
    }

    /// Returns true if this `Time` is positive.
    pub fn is_positive(&self) -> (b: bool)
        ensures
            b == (self@ > 0),
    {
        self.0 > 0
    }

    /// Returns the time as an absolute (non-negative) value.
    ///
    /// The minimum time has no absolute value that is a time.
    pub fn abs(&self) -> (t: Time)
        requires
            self@ != i64::MIN,
        ensures
            t@ == abs_int(self@),
    {
        if self.0 < 0 {
            Time(-self.0)
        } else {
            Time(self.0)
        }
    }

    /// Checked `Time` addition. Computes `self + other`, returning `None`
    /// if overflow occurred.
    pub fn checked_add(self, other: Time) -> (r: Option<Time>)
        ensures
            match r {
                Some(t) => fits_i64(self@ + other@) && t@ == self@ + other@,
                None => !fits_i64(self@ + other@),
            },
    {
        match self.0.checked_add(other.0) {
            Some(inner) => Some(Time(inner)),
            None => None,
        }
    }

    /// Checked `Time` subtraction. Computes `self - other`, returning `None`
    /// if overflow occurred.
    pub fn checked_sub(self, other: Time) -> (r: Option<Time>)
        ensures
            match r {
                Some(t) => fits_i64(self@ - other@) && t@ == self@ - other@,
                None => !fits_i64(self@ - other@),
            },
    {
        match self.0.checked_sub(other.0) {
            Some(inner) => Some(Time(inner)),
            None => None,
        }
    }

    /// Saturating `Time` addition. Computes `self + other`, returning
    /// `Time::MAX` if overflow occurred.
    pub fn saturating_add(self, other: Time) -> (t: Time)
        ensures
            t@ == if fits_i64(self@ + other@) {
                self@ + other@
            } else {
                i64::MAX as int
            },
    {
        match self.checked_add(other) {
            Some(inner) => inner,
            None => Time::MAX(),
        }
    }

    /// Saturating `Time` subtraction. Computes `self - other`, returning
    /// `Time::MIN` if overflow occurred.
    pub fn saturating_sub(self, other: Time) -> (t: Time)
        ensures
            t@ == if fits_i64(self@ - other@) {
                self@ - other@
            } else {
                i64::MIN as int
            },
    {
        match self.checked_sub(other) {
            Some(inner) => inner,
            None => Time::MIN(),
        }
    }
}

impl Default for Time {
    /// A time of zero.
    fn default() -> (t: Time)
        ensures
            t@ == 0,
    {
        Time(0)
    }
}

impl core::ops::Add for Time {
    type Output = Time;

    /// Computes `self + other`; the sum must be a time.
    fn add(self, other: Time) -> (t: Time)
        ensures
            t@ == self@ + other@,
    {
        Time(self.0 + other.0)
    }
}

impl vstd::std_specs::ops::AddSpecImpl for Time {
    open spec fn obeys_add_spec() -> bool {
        true
    }

    open spec fn add_req(self, rhs: Time) -> bool {
        fits_i64(self@ + rhs@)
    }

    closed spec fn add_spec(self, rhs: Time) -> Time {
        Time((self@ + rhs@) as i64)
    }
}

impl core::ops::Sub for Time {
    type Output = Time;

    /// Computes `self - other`; the difference must be a time.
    fn sub(self, other: Time) -> (t: Time)
        ensures
            t@ == self@ - other@,
    {
        Time(self.0 - other.0)
    }
}

impl vstd::std_specs::ops::SubSpecImpl for Time {
    open spec fn obeys_sub_spec() -> bool {
        true
    }

    open spec fn sub_req(self, rhs: Time) -> bool {
        fits_i64(self@ - rhs@)
    }

    closed spec fn sub_spec(self, rhs: Time) -> Time {
        Time((self@ - rhs@) as i64)
    }
}

} // verus!
