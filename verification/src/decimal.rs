//! Fixed-point decimal numbers, computed by `rust_decimal`.
//!
//! A [`Decimal`] holds the two integers that `rust_decimal` calls mantissa and
//! scale. The arithmetic is done by that crate; this module gives each
//! operation a contract over [`DecimalView`]. Rounding and the written form
//! are stated in full. Sums, differences and products are named: the crate
//! rounds and rescales a result that has outgrown 96 bits, and reports an
//! overflow where that is not enough, in more steps than a contract can hold.

use crate::text::{digits, lemma_digits_nonempty, padded_digits, pow10};
use vstd::prelude::*;

verus! {

/// The largest magnitude of a mantissa, `2^96 - 1`.
pub const MAX_MANTISSA: i128 = 79228162514264337593543950335;

/// The largest scale.
pub const MAX_SCALE: u32 = 28;

/// The number `mantissa / 10^scale`, written with `scale` decimal places.
pub struct DecimalView {
    pub mantissa: int,
    pub scale: nat,
}

/// The view with the given mantissa and scale.
pub open spec fn dec(mantissa: int, scale: nat) -> DecimalView {
    DecimalView { mantissa, scale }
}

/// Whether a mantissa and a scale are within the limits of a [`Decimal`].
pub open spec fn valid(x: DecimalView) -> bool {
    -MAX_MANTISSA <= x.mantissa <= MAX_MANTISSA && x.scale <= MAX_SCALE
}

/// The absolute value of `m`.
pub open spec fn magnitude(m: int) -> nat {
    if m < 0 {
        (-m) as nat
    } else {
        m as nat
    }
}

/// `n / d` rounded to the nearest integer, a tie going to the even neighbour.
pub open spec fn round_half_even(n: nat, d: nat) -> nat
    recommends
        d > 0,
{
    let q = n / d;
    let r = n % d;
    if 2 * r > d || (2 * r == d && q % 2 == 1) {
        q + 1
    } else {
        q
    }
}

/// `x` with at most `places` decimal places: unchanged where it has no more,
/// else rounded half to even to exactly that many.
pub open spec fn rounded(x: DecimalView, places: nat) -> DecimalView {
    if x.scale <= places {
        x
    } else {
        let q = round_half_even(magnitude(x.mantissa), pow10((x.scale - places) as nat));
        dec(
            if x.mantissa < 0 {
                -(q as int)
            } else {
                q as int
            },
            places,
        )
    }
}

/// The written form of `x`: a minus sign where it is negative, the digits of
/// the whole part, and, where the scale is not zero, a point and exactly
/// `scale` digits.
pub open spec fn decimal_text(x: DecimalView) -> Seq<char> {
    let unit = pow10(x.scale);
    let whole = digits(magnitude(x.mantissa) / unit);
    let sign = if x.mantissa < 0 {
        seq!['-']
    } else {
        Seq::<char>::empty()
    };
    if x.scale == 0 {
        sign + whole
    } else {
        sign + whole + seq!['.'] + padded_digits(magnitude(x.mantissa) % unit, x.scale)
    }
}

/// What `rust_decimal` returns for `a - b`: `None` where it reports an
/// overflow.
pub uninterp spec fn decimal_difference(a: DecimalView, b: DecimalView) -> Option<DecimalView>;

/// What `rust_decimal` returns for `a * b`: `None` where it reports an
/// overflow.
pub uninterp spec fn decimal_product(a: DecimalView, b: DecimalView) -> Option<DecimalView>;

/// What `rust_decimal` returns for `a + b`: `None` where it reports an
/// overflow.
pub uninterp spec fn decimal_sum(a: DecimalView, b: DecimalView) -> Option<DecimalView>;

/// A decimal number of at most 96 bits and at most 28 decimal places. Two are
/// equal where mantissa and scale are: `1.0` and `1.00` differ.
#[derive(Clone, Copy, Debug, PartialEq, Eq)]
pub struct Decimal {
    mantissa: i128,
    scale: u32,
}

impl View for Decimal {
    type V = DecimalView;

    closed spec fn view(&self) -> DecimalView {
        dec(self.mantissa as int, self.scale as nat)
    }
}

/// Calls `rust_decimal::Decimal::checked_sub` on the two numbers, handed over by
/// `from_i128_with_scale` and read back with `mantissa` and `scale`. Trusted:
/// what comes back is the named difference, and lies within a decimal's limits.
#[verifier::external_body]
fn sub_outside(a: &Decimal, b: &Decimal) -> (r: Option<(i128, u32)>)
    requires
        valid(a@),
        valid(b@),
    ensures
        match r {
            Some((m, s)) => decimal_difference(a@, b@) == Some(dec(m as int, s as nat)) && valid(
                dec(m as int, s as nat),
            ),
            None => decimal_difference(a@, b@) is None,
        },
{
    let x = rust_decimal::Decimal::from_i128_with_scale(a.mantissa, a.scale);
    let y = rust_decimal::Decimal::from_i128_with_scale(b.mantissa, b.scale);
    match x.checked_sub(y) {
        Some(d) => Some((d.mantissa(), d.scale())),
        None => None,
    }
}

/// Calls `rust_decimal::Decimal::checked_mul` on the two numbers, handed over by
/// `from_i128_with_scale` and read back with `mantissa` and `scale`. Trusted:
/// what comes back is the named product, and lies within a decimal's limits.
#[verifier::external_body]
fn mul_outside(a: &Decimal, b: &Decimal) -> (r: Option<(i128, u32)>)
    requires
        valid(a@),
        valid(b@),
    ensures
        match r {
            Some((m, s)) => decimal_product(a@, b@) == Some(dec(m as int, s as nat)) && valid(
                dec(m as int, s as nat),
            ),
            None => decimal_product(a@, b@) is None,
        },
{
    let x = rust_decimal::Decimal::from_i128_with_scale(a.mantissa, a.scale);
    let y = rust_decimal::Decimal::from_i128_with_scale(b.mantissa, b.scale);
    match x.checked_mul(y) {
        Some(d) => Some((d.mantissa(), d.scale())),
        None => None,
    }
}

/// Calls `rust_decimal::Decimal::checked_add` on the two numbers, handed over by
/// `from_i128_with_scale` and read back with `mantissa` and `scale`. Trusted:
/// what comes back is the named sum, and lies within a decimal's limits.
#[verifier::external_body]
fn add_outside(a: &Decimal, b: &Decimal) -> (r: Option<(i128, u32)>)
    requires
        valid(a@),
        valid(b@),
    ensures
        match r {
            Some((m, s)) => decimal_sum(a@, b@) == Some(dec(m as int, s as nat)) && valid(
                dec(m as int, s as nat),
            ),
            None => decimal_sum(a@, b@) is None,
        },
{
    let x = rust_decimal::Decimal::from_i128_with_scale(a.mantissa, a.scale);
    let y = rust_decimal::Decimal::from_i128_with_scale(b.mantissa, b.scale);
    match x.checked_add(y) {
        Some(d) => Some((d.mantissa(), d.scale())),
        None => None,
    }
}

/// Calls `rust_decimal::Decimal::round_dp`. Trusted: a number with no more
/// than `places` decimal places comes back as it is, any other rounded half to
/// even to exactly `places` places.
#[verifier::external_body]
fn round_outside(a: &Decimal, places: u32) -> (r: (i128, u32))
    requires
        valid(a@),
    ensures
        dec(r.0 as int, r.1 as nat) == rounded(a@, places as nat),
{
    let x = rust_decimal::Decimal::from_i128_with_scale(a.mantissa, a.scale);
    let d = x.round_dp(places);
    (d.mantissa(), d.scale())
}

/// Calls `to_string` on a `rust_decimal::Decimal`. Trusted: it writes a minus
/// sign for a negative number, the whole part without leading zeros and, for
/// a scale above zero, a point and exactly `scale` digits.
#[verifier::external_body]
fn text_outside(a: &Decimal) -> (r: String)
    requires
        valid(a@),
    ensures
        r@ == decimal_text(a@),
{
    rust_decimal::Decimal::from_i128_with_scale(a.mantissa, a.scale).to_string()
}

/// The written form of a decimal is never empty.
pub proof fn lemma_text_nonempty(x: DecimalView)
    ensures
        decimal_text(x).len() > 0,
{
    lemma_digits_nonempty(magnitude(x.mantissa) / pow10(x.scale));
}

/// Ten to a positive power is at least ten.
proof fn lemma_pow10_at_least_ten(k: nat)
    requires
        k > 0,
    ensures
        pow10(k) >= 10,
    decreases k,
{
    if k > 1 {
        lemma_pow10_at_least_ten((k - 1) as nat);
    } else {
        assert(pow10(0) == 1);
    }
}

/// Rounding to a divisor of at least ten does not lead away from zero past `n`.
proof fn lemma_round_half_even_bound(n: nat, d: nat)
    requires
        d >= 10,
    ensures
        round_half_even(n, d) <= n,
{
    let q = n / d;
    let r = n % d;
    assert(n == d * q + r && 0 <= r < d) by (nonlinear_arith)
        requires
            q == n / d,
            r == n % d,
            d >= 10,
    ;
    assert(d * q >= 10 * q) by (nonlinear_arith)
        requires
            d >= 10,
    ;
}

/// Rounding keeps a decimal within its limits, and leaves it with the fewer
/// of its own decimal places and `places`.
pub proof fn lemma_rounded_valid(x: DecimalView, places: nat)
    requires
        valid(x),
    ensures
        valid(rounded(x, places)),
        rounded(x, places).scale == if x.scale <= places {
            x.scale
        } else {
            places
        },
{
    if x.scale > places {
        let k = (x.scale - places) as nat;
        lemma_pow10_at_least_ten(k);
        lemma_round_half_even_bound(magnitude(x.mantissa), pow10(k));
    }
}

impl Decimal {
    #[verifier::type_invariant]
    spec fn within_limits(self) -> bool {
        -MAX_MANTISSA <= self.mantissa <= MAX_MANTISSA && self.scale <= MAX_SCALE
    }

    /// The decimal `mantissa / 10^scale`, or `None` where the mantissa needs
    /// more than 96 bits or the scale is above 28.
    pub fn new(mantissa: i128, scale: u32) -> (r: Option<Decimal>)
        ensures
            r is Some <==> valid(dec(mantissa as int, scale as nat)),
            r matches Some(d) ==> d@ == dec(mantissa as int, scale as nat),
    {
        if -MAX_MANTISSA <= mantissa && mantissa <= MAX_MANTISSA && scale <= MAX_SCALE {
            Some(Decimal { mantissa, scale })
        } else {
            None
        }
    }

    /// Zero, with no decimal places.
    pub fn zero() -> (r: Decimal)
        ensures
            r@ == dec(0, 0),
    {
        Decimal { mantissa: 0, scale: 0 }
    }

    /// The whole number `n`.
    pub fn from_u32(n: u32) -> (r: Decimal)
        ensures
            r@ == dec(n as int, 0),
    {
        Decimal { mantissa: n as i128, scale: 0 }
    }

    /// The mantissa.
    pub fn mantissa(&self) -> (r: i128)
        ensures
            r == self@.mantissa,
            valid(self@),
    {
        proof {
            use_type_invariant(self);
        }
        self.mantissa
    }

    /// The number of decimal places.
    pub fn scale(&self) -> (r: u32)
        ensures
            r == self@.scale,
            valid(self@),
    {
        proof {
            use_type_invariant(self);
        }
        self.scale
    }

    /// `self - other`, or `None` where the difference overflows.
    pub fn checked_sub(&self, other: &Decimal) -> (r: Option<Decimal>)
        ensures
            r is Some <==> decimal_difference(self@, other@) is Some,
            r matches Some(d) ==> decimal_difference(self@, other@) == Some(d@),
    {
        proof {
            use_type_invariant(self);
            use_type_invariant(other);
        }
        match sub_outside(self, other) {
            Some((m, s)) => Some(Decimal { mantissa: m, scale: s }),
            None => None,
        }
    }

    /// `self * other`, or `None` where the product overflows.
    pub fn checked_mul(&self, other: &Decimal) -> (r: Option<Decimal>)
        ensures
            r is Some <==> decimal_product(self@, other@) is Some,
            r matches Some(d) ==> decimal_product(self@, other@) == Some(d@),
    {
        proof {
            use_type_invariant(self);
            use_type_invariant(other);
        }
        match mul_outside(self, other) {
            Some((m, s)) => Some(Decimal { mantissa: m, scale: s }),
            None => None,
        }
    }

    /// `self + other`, or `None` where the sum overflows.
    pub fn checked_add(&self, other: &Decimal) -> (r: Option<Decimal>)
        ensures
            r is Some <==> decimal_sum(self@, other@) is Some,
            r matches Some(d) ==> decimal_sum(self@, other@) == Some(d@),
    {
        proof {
            use_type_invariant(self);
            use_type_invariant(other);
        }
        match add_outside(self, other) {
            Some((m, s)) => Some(Decimal { mantissa: m, scale: s }),
            None => None,
        }
    }

    /// `self` with at most `places` decimal places, rounded half to even.
    pub fn round_dp(&self, places: u32) -> (r: Decimal)
        ensures
            r@ == rounded(self@, places as nat),
    {
        proof {
            use_type_invariant(self);
            lemma_rounded_valid(self@, places as nat);
        }
        let (m, s) = round_outside(self, places);
        Decimal { mantissa: m, scale: s }
    }

    /// The written form, such as `-12.50`.
    pub fn to_text(&self) -> (r: String)
        ensures
            r@ == decimal_text(self@),
    {
        proof {
            use_type_invariant(self);
        }
        text_outside(self)
    }
}

} // verus!
