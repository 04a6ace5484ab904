//! Amounts of money as decimal numbers: an integer and the number of its
//! digits that stand behind the decimal point.

use vstd::prelude::*;

use crate::text::decimal;
use crate::text::fixed_point;
use crate::text::lemma_ten_to_monotonic;
use crate::text::power_of_ten;
use crate::text::ten_to;

verus! {

/// The largest integer part of an amount: 96 bits.
pub const MAX_MANTISSA: i128 = 0x0000_0000_ffff_ffff_ffff_ffff_ffff_ffff;

/// The largest number of digits behind the decimal point.
pub const MAX_SCALE: u32 = 28;

/// The amount `mantissa / 10^scale`.
#[derive(Debug, Clone, Copy, PartialEq, Eq, Structural)]
pub struct Money {
    pub mantissa: i128,
    pub scale: u32,
}

impl Money {
    /// Whether the amount fits the decimal format: at most 96 bits and 28
    /// decimal places.
    pub open spec fn well_formed(self) -> bool {
        -MAX_MANTISSA <= self.mantissa <= MAX_MANTISSA && self.scale <= MAX_SCALE
    }

    /// Whether the amount is below zero.
    pub open spec fn is_negative(self) -> bool {
        self.mantissa < 0
    }

    /// Whether the amount is above zero.
    pub open spec fn is_positive(self) -> bool {
        self.mantissa > 0
    }

    /// Whether `self` is a smaller amount than `other`: both are brought to
    /// a common denominator.
    pub open spec fn less_than(self, other: Money) -> bool {
        self.mantissa * ten_to(other.scale as nat) < other.mantissa * ten_to(self.scale as nat)
    }

    /// Zero.
    pub fn zero() -> (amount: Money)
        ensures
            amount == (Money { mantissa: 0, scale: 0 }),
            amount.well_formed(),
    {
        Money { mantissa: 0, scale: 0 }
    }

    /// A whole number of units.
    pub fn from_units(units: i64) -> (amount: Money)
        ensures
            amount == (Money { mantissa: units as i128, scale: 0 }),
            amount.well_formed(),
    {
        Money { mantissa: units as i128, scale: 0 }
    }

    /// Whether the amount is below zero.
    pub fn is_sign_negative(&self) -> (negative: bool)
        ensures
            negative == self.is_negative(),
    {
        self.mantissa < 0
    }

    /// The amount with its sign turned.
    pub fn negated(&self) -> (amount: Money)
        requires
            self.well_formed(),
        ensures
            amount.mantissa == -self.mantissa,
            amount.scale == self.scale,
            amount.well_formed(),
    {
        Money { mantissa: -self.mantissa, scale: self.scale }
    }
}

/// Compares two amounts with the `<` of `rust_decimal::Decimal`.
///
/// Trusted: the crate orders decimals by their value, whatever their scales,
/// so the first is less exactly if it is so after both are brought to a
/// common denominator. Building the decimals needs amounts that fit the
/// format, which `requires` asks for.
#[verifier::external_body]
pub(crate) fn decimal_less(a: Money, b: Money) -> (less: bool)
    requires
        a.well_formed(),
        b.well_formed(),
    ensures
        less == a.less_than(b),
{
    let left = rust_decimal::Decimal::from_i128_with_scale(a.mantissa, a.scale);
    let right = rust_decimal::Decimal::from_i128_with_scale(b.mantissa, b.scale);
    left < right
}

/// What the `checked_sub` of `rust_decimal::Decimal` returns for the first
/// amount less the second, each given by its mantissa and its scale: the
/// mantissa and scale of the difference, or nothing where it overflows.
pub uninterp spec fn decimal_difference(
    mantissa: i128,
    scale: u32,
    other_mantissa: i128,
    other_scale: u32,
) -> Option<(i128, u32)>;

/// Subtracts two amounts with `rust_decimal::Decimal::checked_sub`.
///
/// Trusted: the result is the one named by `decimal_difference`, which the
/// crate computes from the two amounts alone; a difference that comes back
/// is a decimal and so fits the format. Building the decimals needs amounts
/// that fit the format, which `requires` asks for.
#[verifier::external_body]
pub(crate) fn decimal_checked_sub(a: Money, b: Money) -> (difference: Option<Money>)
    requires
        a.well_formed(),
        b.well_formed(),
    ensures
        match difference {
            Some(amount) => decimal_difference(a.mantissa, a.scale, b.mantissa, b.scale) == Some(
                (amount.mantissa, amount.scale),
            ) && amount.well_formed(),
            None => decimal_difference(a.mantissa, a.scale, b.mantissa, b.scale) is None,
        },
{
    let left = rust_decimal::Decimal::from_i128_with_scale(a.mantissa, a.scale);
    let right = rust_decimal::Decimal::from_i128_with_scale(b.mantissa, b.scale);
    match left.checked_sub(right) {
        Some(result) => Some(Money { mantissa: result.mantissa(), scale: result.scale() }),
        None => None,
    }
}

/// What the `checked_mul` of `rust_decimal::Decimal` returns for the product
/// of two amounts, each given by its mantissa and its scale: the mantissa and
/// scale of the product, or nothing where it overflows.
pub uninterp spec fn decimal_product(
    mantissa: i128,
    scale: u32,
    other_mantissa: i128,
    other_scale: u32,
) -> Option<(i128, u32)>;

/// Multiplies two amounts with `rust_decimal::Decimal::checked_mul`.
///
/// Trusted: the result is the one named by `decimal_product`, which the
/// crate computes from the two amounts alone; a product that comes back is a
/// decimal and so fits the format.
#[verifier::external_body]
pub(crate) fn decimal_checked_mul(a: Money, b: Money) -> (product: Option<Money>)
    requires
        a.well_formed(),
        b.well_formed(),
    ensures
        match product {
            Some(amount) => decimal_product(a.mantissa, a.scale, b.mantissa, b.scale) == Some(
                (amount.mantissa, amount.scale),
            ) && amount.well_formed(),
            None => decimal_product(a.mantissa, a.scale, b.mantissa, b.scale) is None,
        },
{
    let left = rust_decimal::Decimal::from_i128_with_scale(a.mantissa, a.scale);
    let right = rust_decimal::Decimal::from_i128_with_scale(b.mantissa, b.scale);
    match left.checked_mul(right) {
        Some(result) => Some(Money { mantissa: result.mantissa(), scale: result.scale() }),
        None => None,
    }
}

/// What the `checked_div` of `rust_decimal::Decimal` returns for the first
/// amount divided by the second, each given by its mantissa and its scale:
/// the mantissa and scale of the quotient, or nothing where it overflows or
/// the second amount is zero.
pub uninterp spec fn decimal_quotient(
    mantissa: i128,
    scale: u32,
    other_mantissa: i128,
    other_scale: u32,
) -> Option<(i128, u32)>;

/// Divides two amounts with `rust_decimal::Decimal::checked_div`.
///
/// Trusted: the result is the one named by `decimal_quotient`, which the
/// crate computes from the two amounts alone; a quotient that comes back is
/// a decimal and so fits the format; and there is none for a divisor of
/// zero.
#[verifier::external_body]
pub(crate) fn decimal_checked_div(a: Money, b: Money) -> (quotient: Option<Money>)
    requires
        a.well_formed(),
        b.well_formed(),
    ensures
        match quotient {
            Some(amount) => decimal_quotient(a.mantissa, a.scale, b.mantissa, b.scale) == Some(
                (amount.mantissa, amount.scale),
            ) && amount.well_formed() && b.mantissa != 0,
            None => decimal_quotient(a.mantissa, a.scale, b.mantissa, b.scale) is None,
        },
{
    let left = rust_decimal::Decimal::from_i128_with_scale(a.mantissa, a.scale);
    let right = rust_decimal::Decimal::from_i128_with_scale(b.mantissa, b.scale);
    match left.checked_div(right) {
        Some(result) => Some(Money { mantissa: result.mantissa(), scale: result.scale() }),
        None => None,
    }
}

/// Writes an amount with the `Display` impl of `rust_decimal::Decimal`.
///
/// Trusted: the crate writes a minus sign for a negative amount, then the
/// digits of the mantissa, with a point in front of the last `scale` of
/// them where the scale is not zero, and a zero in front of the point where
/// no digit would stand there. Building the decimal needs an amount that
/// fits the format, which `requires` asks for.
#[verifier::external_body]
pub(crate) fn decimal_text(a: Money) -> (text: String)
    requires
        a.well_formed(),
    ensures
        text@ == a.text(),
{
    rust_decimal::Decimal::from_i128_with_scale(a.mantissa, a.scale).to_string()
}

impl Money {
    /// The amount in decimal notation, with as many digits behind the point
    /// as its scale says: 1234 at scale 2 is "12.34".
    pub open spec fn text(self) -> Seq<char> {
        let size = if self.mantissa < 0 {
            (-self.mantissa) as nat
        } else {
            self.mantissa as nat
        };
        let digits = if self.scale == 0 {
            decimal(size)
        } else {
            fixed_point(size, self.scale as nat)
        };
        if self.mantissa < 0 {
            seq!['-'] + digits
        } else {
            digits
        }
    }

    /// The amount in decimal notation.
    pub fn to_text(&self) -> (text: String)
        requires
            self.well_formed(),
        ensures
            text@ == self.text(),
    {
        decimal_text(*self)
    }

    /// The difference of two amounts as decimal arithmetic gives it, or
    /// nothing where it overflows.
    pub open spec fn minus(self, other: Money) -> Option<Money> {
        match decimal_difference(self.mantissa, self.scale, other.mantissa, other.scale) {
            Some((mantissa, scale)) => Some(Money { mantissa, scale }),
            None => None,
        }
    }

    /// The product of two amounts as decimal arithmetic gives it, or nothing
    /// where it overflows.
    pub open spec fn times(self, other: Money) -> Option<Money> {
        match decimal_product(self.mantissa, self.scale, other.mantissa, other.scale) {
            Some((mantissa, scale)) => Some(Money { mantissa, scale }),
            None => None,
        }
    }

    /// The quotient of two amounts as decimal arithmetic gives it, or
    /// nothing where it overflows or `other` is zero.
    pub open spec fn over(self, other: Money) -> Option<Money> {
        match decimal_quotient(self.mantissa, self.scale, other.mantissa, other.scale) {
            Some((mantissa, scale)) => Some(Money { mantissa, scale }),
            None => None,
        }
    }

    /// `self` times `other`, or nothing where the product overflows.
    pub fn checked_mul(&self, other: &Money) -> (product: Option<Money>)
        requires
            self.well_formed(),
            other.well_formed(),
        ensures
            product == self.times(*other),
            product matches Some(amount) ==> amount.well_formed(),
    {
        decimal_checked_mul(*self, *other)
    }

    /// `self` divided by `other`, or nothing where the quotient overflows
    /// or `other` is zero.
    pub fn checked_div(&self, other: &Money) -> (quotient: Option<Money>)
        requires
            self.well_formed(),
            other.well_formed(),
        ensures
            quotient == self.over(*other),
            quotient matches Some(amount) ==> amount.well_formed() && other.mantissa != 0,
    {
        decimal_checked_div(*self, *other)
    }

    /// The amount as a share in basis points, kept between nothing and the
    /// whole: zero for an amount that is not positive, 10 000 for one and
    /// above, and in between the amount times 10 000, rounded down.
    pub open spec fn capped_basis_points(self) -> u32 {
        if self.mantissa <= 0 {
            0
        } else if self.mantissa >= ten_to(self.scale as nat) {
            10_000
        } else {
            (self.mantissa * 10_000 / (ten_to(self.scale as nat) as int)) as u32
        }
    }

    /// The amount as a share in basis points, kept between nothing and the
    /// whole.
    pub fn to_capped_basis_points(&self) -> (share: u32)
        requires
            self.well_formed(),
        ensures
            share == self.capped_basis_points(),
            share <= 10_000,
    {
        if self.mantissa <= 0 {
            return 0;
        }
        proof {
            lemma_ten_to_monotonic(self.scale as nat, 28);
            assert(ten_to(28) == 10_000_000_000_000_000_000_000_000_000) by {
                reveal_with_fuel(ten_to, 29);
            }
        }
        let unit = power_of_ten(self.scale) as i128;
        if self.mantissa >= unit {
            return 10_000;
        }
        let scaled: i128 = self.mantissa * 10_000;
        let share = scaled / unit;
        assert(share < 10_000) by (nonlinear_arith)
            requires
                0 < self.mantissa < unit,
                share == (self.mantissa * 10_000) / (unit as int),
        ;
        assert(share >= 0) by (nonlinear_arith)
            requires
                0 < self.mantissa < unit,
                share == (self.mantissa * 10_000) / (unit as int),
        ;
        share as u32
    }

    /// The amount without its sign.
    pub fn abs(&self) -> (amount: Money)
        requires
            self.well_formed(),
        ensures
            amount.mantissa == (if self.mantissa < 0 {
                -self.mantissa
            } else {
                self.mantissa as int
            }),
            amount.scale == self.scale,
            amount.well_formed(),
    {
        if self.mantissa < 0 {
            Money { mantissa: -self.mantissa, scale: self.scale }
        } else {
            *self
        }
    }

    /// `self` less `other`, or nothing where the difference overflows.
    pub fn checked_sub(&self, other: &Money) -> (difference: Option<Money>)
        requires
            self.well_formed(),
            other.well_formed(),
        ensures
            difference == self.minus(*other),
            difference matches Some(amount) ==> amount.well_formed(),
    {
        decimal_checked_sub(*self, *other)
    }

    /// Whether the amount fits the decimal format.
    pub fn is_valid(&self) -> (valid: bool)
        ensures
            valid == self.well_formed(),
    {
        -MAX_MANTISSA <= self.mantissa && self.mantissa <= MAX_MANTISSA && self.scale <= MAX_SCALE
    }

    /// Whether `self` is a smaller amount than `other`.
    pub fn is_less_than(&self, other: &Money) -> (less: bool)
        requires
            self.well_formed(),
            other.well_formed(),
        ensures
            less == self.less_than(*other),
    {
        decimal_less(*self, *other)
    }

    /// Whether the amount is above zero.
    pub fn is_sign_positive(&self) -> (positive: bool)
        ensures
            positive == self.is_positive(),
    {
        self.mantissa > 0
    }
}

/// An amount is less than zero exactly if it is negative.
pub proof fn lemma_less_than_zero(a: Money)
    ensures
        a.less_than(Money { mantissa: 0, scale: 0 }) == a.is_negative(),
        (Money { mantissa: 0, scale: 0 }).less_than(a) == a.is_positive(),
{
    lemma_ten_to_monotonic(a.scale as nat, a.scale as nat);
    assert(ten_to(0) == 1);
    let p = ten_to(a.scale as nat);
    assert(a.mantissa * 1 == a.mantissa);
    assert(0 * p == 0);
}

/// The order of amounts is transitive: an amount below a second one that is
/// below a third is below the third.
pub proof fn lemma_less_than_is_transitive(a: Money, b: Money, c: Money)
    requires
        a.less_than(b),
        b.less_than(c),
    ensures
        a.less_than(c),
{
    lemma_ten_to_monotonic(a.scale as nat, a.scale as nat);
    lemma_ten_to_monotonic(b.scale as nat, b.scale as nat);
    lemma_ten_to_monotonic(c.scale as nat, c.scale as nat);
    let x = ten_to(a.scale as nat) as int;
    let y = ten_to(b.scale as nat) as int;
    let z = ten_to(c.scale as nat) as int;
    let l = a.mantissa as int;
    let m = b.mantissa as int;
    let n = c.mantissa as int;
    assert((l * y) * z < (m * x) * z) by (nonlinear_arith)
        requires
            l * y < m * x,
            z >= 1,
    ;
    assert((m * z) * x < (n * y) * x) by (nonlinear_arith)
        requires
            m * z < n * y,
            x >= 1,
    ;
    assert((l * z) * y < (n * x) * y) by (nonlinear_arith)
        requires
            (l * y) * z < (m * x) * z,
            (m * z) * x < (n * y) * x,
    ;
    assert(l * z < n * x) by (nonlinear_arith)
        requires
            (l * z) * y < (n * x) * y,
            y >= 1,
    ;
}

impl Default for Money {
    fn default() -> (amount: Money)
        ensures
            amount == (Money { mantissa: 0, scale: 0 }),
    {
        Money { mantissa: 0, scale: 0 }
    }
}

} // verus!
