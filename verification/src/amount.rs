//! Fixed-point decimal numbers as `rust_decimal` represents them: a signed
//! 96-bit mantissa and a scale between 0 and 28.

use vstd::prelude::*;

use crate::text::{nat_digits, zero_padded};

verus! {

/// Largest mantissa magnitude a decimal can hold (2^96 - 1).
pub const MAX_MANTISSA: i128 = 79228162514264337593543950335;

/// Largest number of fractional digits a decimal can hold.
pub const MAX_SCALE: u32 = 28;

/// `10^n`.
pub open spec fn pow10(n: nat) -> int
    decreases n,
{
    if n == 0 {
        1
    } else {
        10 * pow10((n - 1) as nat)
    }
}

/// The number of digits between `s` and the largest scale (0 beyond it).
pub open spec fn room(s: nat) -> nat {
    if s <= MAX_SCALE {
        (MAX_SCALE - s) as nat
    } else {
        0
    }
}

/// The parts `(mantissa, scale)` describe a representable decimal.
pub open spec fn parts_ok(p: (i128, u32)) -> bool {
    p.1 <= MAX_SCALE && -MAX_MANTISSA <= p.0 <= MAX_MANTISSA
}

/// The numeric value of `(mantissa, scale)`, counted in units of `10^-28`.
pub open spec fn val(p: (i128, u32)) -> int {
    p.0 * pow10(room(p.1 as nat))
}

/// A value (in units of `10^-28`) fits a decimal of scale `s` without losing digits.
pub open spec fn fits_at(v: int, s: nat) -> bool {
    -(MAX_MANTISSA * pow10(room(s))) <= v <= MAX_MANTISSA * pow10(
        room(s),
    )
}

pub open spec fn max_nat(a: nat, b: nat) -> nat {
    if a >= b {
        a
    } else {
        b
    }
}

/// What `rust_decimal`'s `checked_add` returns for two decimals given by their parts.
pub uninterp spec fn decimal_add(am: i128, ascale: u32, bm: i128, bscale: u32) -> Option<(i128, u32)>;

/// What `rust_decimal`'s `checked_sub` returns for two decimals given by their parts.
pub uninterp spec fn decimal_sub(am: i128, ascale: u32, bm: i128, bscale: u32) -> Option<(i128, u32)>;

/// What `rust_decimal`'s `checked_mul` returns for two decimals given by their parts.
pub uninterp spec fn decimal_mul(am: i128, ascale: u32, bm: i128, bscale: u32) -> Option<(i128, u32)>;

/// What `rust_decimal` parses from a text (`str::parse::<Decimal>`), as
/// parts; `None` where it reports an error.
pub uninterp spec fn decimal_parse(s: Seq<char>) -> Option<(i128, u32)>;

pub open spec fn add_parts(a: (i128, u32), b: (i128, u32)) -> Option<(i128, u32)> {
    decimal_add(a.0, a.1, b.0, b.1)
}

pub open spec fn sub_parts(a: (i128, u32), b: (i128, u32)) -> Option<(i128, u32)> {
    decimal_sub(a.0, a.1, b.0, b.1)
}

pub open spec fn mul_parts(a: (i128, u32), b: (i128, u32)) -> Option<(i128, u32)> {
    decimal_mul(a.0, a.1, b.0, b.1)
}

/// Mantissa of `round_dp(dp)` with midpoints rounded to the even neighbour.
pub open spec fn rounded_mantissa(m: int, s: nat, dp: nat) -> int {
    if s <= dp {
        m
    } else {
        let d = pow10((s - dp) as nat);
        let a = if m < 0 { -m } else { m };
        let q = a / d;
        let r = a % d;
        let q2 = if 2 * r > d || (2 * r == d && q % 2 == 1) { q + 1 } else { q };
        if m < 0 { -q2 } else { q2 }
    }
}

/// Parts of `round_dp(dp)` applied to a decimal with the given parts.
pub open spec fn round_parts(p: (i128, u32), dp: u32) -> (i128, u32) {
    if p.1 <= dp {
        p
    } else {
        (rounded_mantissa(p.0 as int, p.1 as nat, dp as nat) as i128, dp)
    }
}

/// A decimal number `mantissa / 10^scale` with a 96-bit mantissa and a
/// scale of at most 28, as `rust_decimal::Decimal` holds it.
#[derive(Clone, Copy, Debug)]
pub struct Amount {
    mantissa: i128,
    scale: u32,
}

impl View for Amount {
    type V = (i128, u32);

    closed spec fn view(&self) -> (i128, u32) {
        (self.mantissa, self.scale)
    }
}

/// An amount is determined by its parts.
pub proof fn lemma_parts_determine(a: Amount, b: Amount)
    requires
        a@ == b@,
    ensures
        a == b,
{
}

impl Amount {
    #[verifier::type_invariant]
    spec fn inv(self) -> bool {
        parts_ok((self.mantissa, self.scale))
    }

    /// The decimal with the given mantissa and scale, if they are representable.
    pub fn new(mantissa: i128, scale: u32) -> (r: Option<Amount>)
        ensures
            r is Some <==> parts_ok((mantissa, scale)),
            r matches Some(a) ==> a@ == (mantissa, scale),
    {
        if scale <= MAX_SCALE && -MAX_MANTISSA <= mantissa && mantissa <= MAX_MANTISSA {
            Some(Amount { mantissa, scale })
        } else {
            None
        }
    }

    /// Zero with scale 0 (`Decimal::ZERO`).
    pub fn zero() -> (r: Amount)
        ensures
            r@ == (0i128, 0u32),
    {
        Amount { mantissa: 0, scale: 0 }
    }

    /// `Decimal::new(m, s)`: the decimal `m / 10^s`.
    pub fn from_i64_with_scale(m: i64, s: u32) -> (r: Amount)
        requires
            s <= MAX_SCALE,
        ensures
            r@ == (m as i128, s),
    {
        Amount { mantissa: m as i128, scale: s }
    }

    /// The integer `n` as a decimal of scale 0 (`Decimal::from(i32)`).
    pub fn from_i32(n: i32) -> (r: Amount)
        ensures
            r@ == (n as i128, 0u32),
    {
        Amount { mantissa: n as i128, scale: 0 }
    }

    pub fn mantissa(&self) -> (r: i128)
        ensures
            r == self@.0,
    {
        self.mantissa
    }

    pub fn scale(&self) -> (r: u32)
        ensures
            r == self@.1,
    {
        self.scale
    }

    /// The parts of every decimal are representable.
    pub fn parts_are_ok(&self)
        ensures
            parts_ok(self@),
    {
        proof {
            use_type_invariant(self);
        }
    }

    /// The negation (`-d`): the same scale and the opposite mantissa.
    pub fn neg(&self) -> (r: Amount)
        ensures
            r@ == ((-self@.0) as i128, self@.1),
            val(r@) == -val(self@),
    {
        proof {
            use_type_invariant(self);
        }
        proof {
            vstd::arithmetic::mul::lemma_mul_unary_negation(
                self.mantissa as int,
                pow10(room(self.scale as nat)),
            );
        }
        Amount { mantissa: -self.mantissa, scale: self.scale }
    }

    /// The value is zero.
    pub fn is_zero(&self) -> (r: bool)
        ensures
            r == (val(self@) == 0),
    {
        proof {
            lemma_pow10_positive(room(self.scale as nat));
            lemma_sign_of_product(self.mantissa as int, pow10(room(self.scale as nat)));
        }
        self.mantissa == 0
    }

    /// The value is greater than zero.
    pub fn is_positive(&self) -> (r: bool)
        ensures
            r == (val(self@) > 0),
    {
        proof {
            lemma_pow10_positive(room(self.scale as nat));
            lemma_sign_of_product(self.mantissa as int, pow10(room(self.scale as nat)));
        }
        self.mantissa > 0
    }

    /// The value is less than zero.
    pub fn is_negative(&self) -> (r: bool)
        ensures
            r == (val(self@) < 0),
    {
        proof {
            lemma_pow10_positive(room(self.scale as nat));
            lemma_sign_of_product(self.mantissa as int, pow10(room(self.scale as nat)));
        }
        self.mantissa < 0
    }

    /// `rust_decimal::Decimal::checked_add`. The result is what the crate
    /// computes, named `decimal_add`; when the exact sum has at most the larger
    /// of the two scales and fits in 96 bits at that scale, the crate returns
    /// it unrounded. The result never has more fractional digits than the
    /// larger scale of the operands. Beyond that (when the crate rounds or
    /// reports overflow) nothing is stated.
    #[verifier::external_body]
    pub(crate) fn checked_add(&self, other: &Amount) -> (r: Option<Amount>)
        ensures
            opt_parts(r) == decimal_add(self@.0, self@.1, other@.0, other@.1),
            r is Some ==> r.unwrap()@.1 <= max_nat(self@.1 as nat, other@.1 as nat),
            fits_at(val(self@) + val(other@), max_nat(self@.1 as nat, other@.1 as nat)) ==> r is Some && val(r.unwrap()@) == val(self@) + val(other@),
    {
        let a = rust_decimal::Decimal::from_i128_with_scale(self.mantissa, self.scale);
        let b = rust_decimal::Decimal::from_i128_with_scale(other.mantissa, other.scale);
        match a.checked_add(b) {
            Some(d) => Some(Amount { mantissa: d.mantissa(), scale: d.scale() }),
            None => None,
        }
    }

    /// `rust_decimal::Decimal::checked_sub`, named `decimal_sub`; exact under
    /// the same condition as `checked_add`.
    #[verifier::external_body]
    pub(crate) fn checked_sub(&self, other: &Amount) -> (r: Option<Amount>)
        ensures
            opt_parts(r) == decimal_sub(self@.0, self@.1, other@.0, other@.1),
            r is Some ==> r.unwrap()@.1 <= max_nat(self@.1 as nat, other@.1 as nat),
            fits_at(val(self@) - val(other@), max_nat(self@.1 as nat, other@.1 as nat)) ==> r is Some && val(r.unwrap()@) == val(self@) - val(other@),
    {
        let a = rust_decimal::Decimal::from_i128_with_scale(self.mantissa, self.scale);
        let b = rust_decimal::Decimal::from_i128_with_scale(other.mantissa, other.scale);
        match a.checked_sub(b) {
            Some(d) => Some(Amount { mantissa: d.mantissa(), scale: d.scale() }),
            None => None,
        }
    }

    /// `rust_decimal::Decimal::checked_mul`, named `decimal_mul`. A zero operand
    /// gives `Decimal::ZERO`; when the scales add up to at most 28 and the
    /// product of the mantissas fits in 96 bits, the product is exact, with
    /// that mantissa and scale. Otherwise the crate rounds or reports
    /// overflow, and nothing more is stated.
    #[verifier::external_body]
    pub(crate) fn checked_mul(&self, other: &Amount) -> (r: Option<Amount>)
        ensures
            opt_parts(r) == decimal_mul(self@.0, self@.1, other@.0, other@.1),
            (self@.0 == 0 || other@.0 == 0) ==> opt_parts(r) == Some((0i128, 0u32)),
            (self@.0 != 0 && other@.0 != 0 && self@.1 + other@.1 <= MAX_SCALE && -MAX_MANTISSA <= self@.0 * other@.0 <= MAX_MANTISSA) ==> opt_parts(r) == Some(((self@.0 * other@.0) as i128, (self@.1 + other@.1) as u32)),
    {
        let a = rust_decimal::Decimal::from_i128_with_scale(self.mantissa, self.scale);
        let b = rust_decimal::Decimal::from_i128_with_scale(other.mantissa, other.scale);
        match a.checked_mul(b) {
            Some(d) => Some(Amount { mantissa: d.mantissa(), scale: d.scale() }),
            None => None,
        }
    }

    /// `rust_decimal::Decimal::round_dp`: rounds to `dp` fractional digits,
    /// midpoints to the even neighbour; a decimal with at most `dp` digits is
    /// returned unchanged.
    #[verifier::external_body]
    pub(crate) fn round_dp(&self, dp: u32) -> (r: Amount)
        ensures
            r@ == round_parts(self@, dp),
    {
        let a = rust_decimal::Decimal::from_i128_with_scale(self.mantissa, self.scale);
        let d = a.round_dp(dp);
        Amount { mantissa: d.mantissa(), scale: d.scale() }
    }

    /// `str::parse::<rust_decimal::Decimal>()`: the decimal a text spells,
    /// named `decimal_parse`; `None` where the crate reports an error.
    #[verifier::external_body]
    pub fn parse(s: &str) -> (r: Option<Amount>)
        ensures
            opt_parts(r) == decimal_parse(s@),
    {
        match s.parse::<rust_decimal::Decimal>() {
            Ok(d) => Some(Amount { mantissa: d.mantissa(), scale: d.scale() }),
            Err(_) => None,
        }
    }

    /// `Display` of `rust_decimal::Decimal` (`to_string`).
    #[verifier::external_body]
    pub fn to_text(&self) -> (r: String)
        ensures
            r@ == decimal_text(self@),
    {
        rust_decimal::Decimal::from_i128_with_scale(self.mantissa, self.scale).to_string()
    }

    /// `format!("{:.2}", d)` on `rust_decimal::Decimal`.
    #[verifier::external_body]
    pub fn to_text_2dp(&self) -> (r: String)
        ensures
            r@ == decimal_text_2dp(self@),
    {
        format!("{:.2}", rust_decimal::Decimal::from_i128_with_scale(self.mantissa, self.scale))
    }

    /// `<` on `rust_decimal::Decimal`: compares the numeric values.
    #[verifier::external_body]
    pub fn less_than(&self, other: &Amount) -> (r: bool)
        ensures
            r == (val(self@) < val(other@)),
    {
        let a = rust_decimal::Decimal::from_i128_with_scale(self.mantissa, self.scale);
        let b = rust_decimal::Decimal::from_i128_with_scale(other.mantissa, other.scale);
        a < b
    }

    /// `==` on `rust_decimal::Decimal`: compares the numeric values, so
    /// `1.0 == 1.00`.
    #[verifier::external_body]
    pub fn num_eq(&self, other: &Amount) -> (r: bool)
        ensures
            r == (val(self@) == val(other@)),
    {
        let a = rust_decimal::Decimal::from_i128_with_scale(self.mantissa, self.scale);
        let b = rust_decimal::Decimal::from_i128_with_scale(other.mantissa, other.scale);
        a == b
    }
}

/// `Display` of a decimal: a minus sign for a negative mantissa, the
/// whole part, and for a positive scale a point followed by exactly `scale`
/// fractional digits.
pub open spec fn decimal_text(p: (i128, u32)) -> Seq<char> {
    let a: nat = (if p.0 < 0 { -(p.0 as int) } else { p.0 as int }) as nat;
    let d = pow10(p.1 as nat) as nat;
    let sign = if p.0 < 0 { seq!['-'] } else { Seq::<char>::empty() };
    let frac = if p.1 > 0 { seq!['.'] + zero_padded(a % d, p.1 as nat) } else { Seq::<char>::empty() };
    sign + nat_digits(a / d) + frac
}

/// `{:.2}` of a decimal: the digits beyond the second fractional one are cut
/// off (not rounded) and missing ones are filled with zeros.
pub open spec fn decimal_text_2dp(p: (i128, u32)) -> Seq<char> {
    let a: nat = (if p.0 < 0 { -(p.0 as int) } else { p.0 as int }) as nat;
    let a2: nat = if p.1 >= 2 { a / (pow10((p.1 - 2) as nat) as nat) } else { a * (pow10((2 - p.1) as nat) as nat) };
    let sign = if p.0 < 0 { seq!['-'] } else { Seq::<char>::empty() };
    sign + nat_digits(a2 / 100) + seq!['.'] + zero_padded(a2 % 100, 2)
}

pub open spec fn opt_parts(r: Option<Amount>) -> Option<(i128, u32)> {
    match r {
        Some(a) => Some(a@),
        None => None,
    }
}

/// The parts of each decimal of a sequence.
pub open spec fn parts_of(s: Seq<Amount>) -> Seq<(i128, u32)> {
    s.map_values(|a: Amount| a@)
}

/// Parts of `Iterator::sum` over decimals: `Decimal::ZERO` plus each item in
/// turn with `checked_add`; `None` once an addition fails.
pub open spec fn sum_parts(xs: Seq<(i128, u32)>) -> Option<(i128, u32)>
    decreases xs.len(),
{
    if xs.len() == 0 {
        Some((0i128, 0u32))
    } else {
        match sum_parts(xs.drop_last()) {
            Some(acc) => add_parts(acc, xs.last()),
            None => None,
        }
    }
}

/// The exact sum of the values.
pub open spec fn val_sum(xs: Seq<(i128, u32)>) -> int
    decreases xs.len(),
{
    if xs.len() == 0 {
        0
    } else {
        val_sum(xs.drop_last()) + val(xs.last())
    }
}

/// The sum of the magnitudes of the values.
pub open spec fn abs_sum(xs: Seq<(i128, u32)>) -> int
    decreases xs.len(),
{
    if xs.len() == 0 {
        0
    } else {
        abs_sum(xs.drop_last()) + (if val(xs.last()) < 0 { -val(xs.last()) } else { val(xs.last()) })
    }
}

/// The largest scale among the items (0 for none).
pub open spec fn max_scale(xs: Seq<(i128, u32)>) -> nat
    decreases xs.len(),
{
    if xs.len() == 0 {
        0
    } else {
        max_nat(max_scale(xs.drop_last()), xs.last().1 as nat)
    }
}

/// Every partial sum fits a decimal of the largest scale among the items,
/// so summing them loses no digit.
pub open spec fn sum_fits(xs: Seq<(i128, u32)>) -> bool {
    abs_sum(xs) <= MAX_MANTISSA * pow10(room(max_scale(xs)))
}

/// `Iterator::sum` over decimals.
pub fn sum_amounts(v: &Vec<Amount>) -> (r: Option<Amount>)
    ensures
        opt_parts(r) == sum_parts(parts_of(v@)),
        sum_fits(parts_of(v@)) ==> r is Some && val(r.unwrap()@) == val_sum(parts_of(v@))
            && r.unwrap()@.1 <= max_scale(parts_of(v@)),
{
    let ghost xs = parts_of(v@);
    let mut acc = Amount::zero();
    let mut i: usize = 0;
    proof {
        assert(xs.take(0) =~= Seq::<(i128, u32)>::empty());
    }
    while i < v.len()
        invariant
            0 <= i <= v.len(),
            xs == parts_of(v@),
            sum_parts(xs.take(i as int)) == Some(acc@),
            sum_fits(xs) ==> val(acc@) == val_sum(xs.take(i as int)) && acc@.1 <= max_scale(
                xs.take(i as int),
            ),
        decreases v.len() - i,
    {
        let x = &v[i];
        x.parts_are_ok();
        acc.parts_are_ok();
        let ghost pre = xs.take(i as int);
        let ghost post = xs.take(i + 1);
        proof {
            assert(post.drop_last() =~= pre);
            assert(post.last() == x@);
            if sum_fits(xs) {
                lemma_sum_step_fits(xs, i as int, acc@);
            }
        }
        match acc.checked_add(x) {
            Some(next) => {
                acc = next;
            },
            None => {
                proof {
                    lemma_sum_parts_none_extends(xs, i + 1);
                }
                return None;
            },
        }
        i = i + 1;
    }
    proof {
        assert(xs.take(v.len() as int) =~= xs);
    }
    Some(acc)
}

/// While the whole sum fits, adding the next item to the exact sum of the
/// items before it fits the larger of the two scales.
pub proof fn lemma_sum_step_fits(xs: Seq<(i128, u32)>, k: int, acc: (i128, u32))
    requires
        sum_fits(xs),
        0 <= k < xs.len(),
        val(acc) == val_sum(xs.take(k)),
        acc.1 <= max_scale(xs.take(k)),
    ensures
        fits_at(val(acc) + val(xs[k]), max_nat(acc.1 as nat, xs[k].1 as nat)),
{
    let post = xs.take(k + 1);
    assert(post.drop_last() =~= xs.take(k));
    assert(post.last() == xs[k]);
    lemma_prefix_bounds(xs, k + 1);
    lemma_val_sum_bounded(post);
    let m = max_nat(acc.1 as nat, xs[k].1 as nat);
    assert(m <= max_scale(post));
    assert(m <= max_scale(xs));
    assert(room(max_scale(xs)) <= room(m));
    lemma_pow10_monotonic(room(max_scale(xs)), room(m));
    vstd::arithmetic::mul::lemma_mul_inequality(
        pow10(room(max_scale(xs))),
        pow10(room(m)),
        MAX_MANTISSA as int,
    );
    vstd::arithmetic::mul::lemma_mul_is_commutative(MAX_MANTISSA as int, pow10(room(max_scale(xs))));
    vstd::arithmetic::mul::lemma_mul_is_commutative(MAX_MANTISSA as int, pow10(room(m)));
}

/// Once a prefix fails to sum, every longer prefix fails too.
pub proof fn lemma_sum_parts_none_extends(xs: Seq<(i128, u32)>, k: int)
    requires
        0 <= k <= xs.len(),
        sum_parts(xs.take(k)) is None,
    ensures
        sum_parts(xs) is None,
    decreases xs.len() - k,
{
    if k < xs.len() {
        assert(xs.take(k + 1).drop_last() =~= xs.take(k));
        lemma_sum_parts_none_extends(xs, k + 1);
    } else {
        assert(xs.take(k) =~= xs);
    }
}

/// A prefix has no larger magnitude sum and no larger scale than the whole.
pub proof fn lemma_prefix_bounds(xs: Seq<(i128, u32)>, k: int)
    requires
        0 <= k <= xs.len(),
    ensures
        abs_sum(xs.take(k)) <= abs_sum(xs),
        max_scale(xs.take(k)) <= max_scale(xs),
    decreases xs.len() - k,
{
    if k < xs.len() {
        lemma_prefix_bounds(xs, k + 1);
        assert(xs.take(k + 1).drop_last() =~= xs.take(k));
    } else {
        assert(xs.take(k) =~= xs);
    }
}

/// The sum is bounded by the sum of the magnitudes.
pub proof fn lemma_val_sum_bounded(xs: Seq<(i128, u32)>)
    ensures
        -abs_sum(xs) <= val_sum(xs) <= abs_sum(xs),
        abs_sum(xs) >= 0,
    decreases xs.len(),
{
    if xs.len() > 0 {
        lemma_val_sum_bounded(xs.drop_last());
    }
}

pub proof fn lemma_pow10_positive(n: nat)
    ensures
        pow10(n) > 0,
    decreases n,
{
    if n > 0 {
        lemma_pow10_positive((n - 1) as nat);
    }
}

pub proof fn lemma_pow10_add(a: nat, b: nat)
    ensures
        pow10(a + b) == pow10(a) * pow10(b),
    decreases a,
{
    if a > 0 {
        lemma_pow10_add((a - 1) as nat, b);
        assert(pow10(a + b) == 10 * pow10((a - 1 + b) as nat));
        vstd::arithmetic::mul::lemma_mul_is_associative(10, pow10((a - 1) as nat), pow10(b));
    }
}

pub proof fn lemma_pow10_monotonic(a: nat, b: nat)
    requires
        a <= b,
    ensures
        pow10(a) <= pow10(b),
{
    lemma_pow10_add(a, (b - a) as nat);
    lemma_pow10_positive(a);
    lemma_pow10_positive((b - a) as nat);
    vstd::arithmetic::mul::lemma_mul_inequality(1, pow10((b - a) as nat), pow10(a));
    vstd::arithmetic::mul::lemma_mul_is_commutative(pow10(a), pow10((b - a) as nat));
}

proof fn lemma_sign_of_product(m: int, p: int)
    requires
        p > 0,
    ensures
        (m * p == 0) == (m == 0),
        (m * p > 0) == (m > 0),
        (m * p < 0) == (m < 0),
{
    if m > 0 {
        vstd::arithmetic::mul::lemma_mul_strictly_positive(m, p);
    } else if m < 0 {
        vstd::arithmetic::mul::lemma_mul_strictly_positive(-m, p);
        vstd::arithmetic::mul::lemma_mul_unary_negation(-m, p);
    }
}

} // verus!
