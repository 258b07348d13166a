//! Decimal numbers as the gateway reports them: a whole mantissa and the count
//! of its digits that stand behind the point. Arithmetic is `rust_decimal`'s.
use vstd::prelude::*;

verus! {

/// The most digits behind the point that a `Decimal` can have.
pub const MAX_SCALE: u32 = 28;

/// The largest mantissa, `2^96 - 1`.
pub const MAX_MANTISSA: i128 = 79228162514264337593543950335;

/// The number `mantissa / 10^scale`.
///
/// Numbers of one value can differ in scale (`1.5` and `1.50`), and the scale
/// shows in what the gateway prints, so it is part of the value here.
#[derive(Clone, Copy, Debug, PartialEq, Eq, Structural)]
pub struct Decimal {
    pub mantissa: i128,
    pub scale: u32,
}

/// What `a / b` is in `rust_decimal` for `a = m1 / 10^s1` and `b = m2 / 10^s2`:
/// mantissa and scale of the quotient, or `None` where that crate's `/` panics.
pub uninterp spec fn decimal_quotient(m1: i128, s1: u32, m2: i128, s2: u32) -> Option<(i128, u32)>;

/// `10^n`.
pub open spec fn pow10(n: nat) -> int {
    vstd::arithmetic::power::pow(10, n)
}

/// The parts as a number.
pub open spec fn from_parts(parts: (i128, u32)) -> Decimal {
    Decimal { mantissa: parts.0, scale: parts.1 }
}

/// Mantissa and scale of `m / 10^s` with the zeros at the end of its digits
/// behind the point dropped.
pub open spec fn stripped(m: int, s: nat) -> (int, nat)
    decreases s,
{
    if s > 0 && m % 10 == 0 {
        stripped(m / 10, (s - 1) as nat)
    } else {
        (m, s)
    }
}

/// The absolute value.
pub open spec fn magnitude(m: int) -> int {
    if m < 0 {
        -m
    } else {
        m
    }
}

impl Decimal {
    /// Mantissa and scale are within what `rust_decimal` can hold.
    pub open spec fn wf(self) -> bool {
        &&& -MAX_MANTISSA <= self.mantissa <= MAX_MANTISSA
        &&& self.scale <= MAX_SCALE
    }

    /// Both stand for one value, whatever their scales.
    pub open spec fn same_value(self, other: Decimal) -> bool {
        self.mantissa * pow10(other.scale as nat) == other.mantissa * pow10(self.scale as nat)
    }

    /// This number is `units / 10^decimals`.
    pub open spec fn stands_for(self, units: int, decimals: int) -> bool {
        self.mantissa * pow10(decimals as nat) == units * pow10(self.scale as nat)
    }

    /// No digit behind the point can be dropped.
    pub open spec fn is_normal(self) -> bool {
        self.scale == 0 || self.mantissa % 10 != 0
    }

    /// The number with the zeros at the end of its digits behind the point
    /// dropped.
    pub open spec fn normal_form(self) -> Decimal {
        let (m, s) = stripped(self.mantissa as int, self.scale as nat);
        Decimal { mantissa: m as i128, scale: s as u32 }
    }

    /// `self / other` as `rust_decimal` computes it, `None` where it panics.
    pub open spec fn quotient(self, other: Decimal) -> Option<Decimal> {
        match decimal_quotient(self.mantissa, self.scale, other.mantissa, other.scale) {
            Some(parts) => Some(from_parts(parts)),
            None => None,
        }
    }

    /// `self / other` is no larger than the largest `Decimal`.
    pub open spec fn quotient_fits(self, other: Decimal) -> bool {
        magnitude(self.mantissa as int) * pow10(other.scale as nat) <= MAX_MANTISSA * (magnitude(
            other.mantissa as int,
        ) * pow10(self.scale as nat))
    }

    /// This number is `a / b`, off by at most half a unit in its last digit.
    pub open spec fn is_quotient(self, a: Decimal, b: Decimal) -> bool {
        2 * magnitude(
            self.mantissa * (b.mantissa * pow10(a.scale as nat)) - a.mantissa * pow10(
                b.scale as nat,
            ) * pow10(self.scale as nat),
        ) <= magnitude(b.mantissa as int) * pow10(a.scale as nat)
    }

    /// This number is exactly `a / b`: times `b` it is `a`.
    pub open spec fn is_exactly(self, a: Decimal, b: Decimal) -> bool {
        self.mantissa * (b.mantissa * pow10(a.scale as nat)) == a.mantissa * pow10(b.scale as nat)
            * pow10(self.scale as nat)
    }

    /// This number has the value of `a / b` if any number has it exactly.
    pub open spec fn is_exact_where_possible(self, a: Decimal, b: Decimal) -> bool {
        forall|d: Decimal| d.wf() && #[trigger] d.is_exactly(a, b) ==> self.same_value(d)
    }

    /// This number is `a / b` to the last digit that there is room for: exactly,
    /// or rounded where a digit more would be one too many behind the point or
    /// make the mantissa too large.
    pub open spec fn is_full_quotient(self, a: Decimal, b: Decimal) -> bool {
        &&& self.wf()
        &&& self.is_quotient(a, b)
        &&& self.is_exactly(a, b) || self.scale == MAX_SCALE || 10 * magnitude(
            self.mantissa as int,
        ) > MAX_MANTISSA
    }

    /// This number has the value of `a / b` to the last digit that there is room
    /// for; it may itself lack zeros at its end.
    pub open spec fn has_all_digits(self, a: Decimal, b: Decimal) -> bool {
        exists|full: Decimal| full.is_full_quotient(a, b) && #[trigger] self.same_value(full)
    }

    /// The number `num / 10^scale`.
    pub fn new(num: i64, scale: u32) -> (result: Decimal)
        requires
            scale <= MAX_SCALE,
        ensures
            result == (Decimal { mantissa: num as i128, scale }),
            result.wf(),
    {
        let (mantissa, scale) = decimal_new(num, scale);
        Decimal { mantissa, scale }
    }

    /// The same value without zeros at the end of the digits behind the point.
    pub fn normalize(&self) -> (result: Decimal)
        requires
            self.wf(),
        ensures
            result == self.normal_form(),
            result.wf(),
    {
        let (mantissa, scale) = decimal_normalize(self.mantissa, self.scale);
        proof {
            lemma_stripped(self.mantissa as int, self.scale as nat);
        }
        Decimal { mantissa, scale }
    }

    /// `self / other`; `None` where there is no such number.
    pub fn checked_div(&self, other: &Decimal) -> (result: Option<Decimal>)
        requires
            self.wf(),
            other.wf(),
        ensures
            result == self.quotient(*other),
            result matches Some(q) ==> q.wf() && q.is_quotient(*self, *other),
            result matches Some(q) ==> q.is_exact_where_possible(*self, *other),
            result matches Some(q) ==> q.has_all_digits(*self, *other),
            other.mantissa == 0 ==> result is None,
            other.mantissa != 0 && self.quotient_fits(*other) ==> result is Some,
    {
        match decimal_checked_div(self.mantissa, self.scale, other.mantissa, other.scale) {
            Some((mantissa, scale)) => Some(Decimal { mantissa, scale }),
            None => None,
        }
    }
}

/// `rust_decimal::Decimal::new`: the number `num / 10^scale`, with that mantissa
/// and that scale. It panics on a scale above 28.
#[verifier::external_body]
fn decimal_new(num: i64, scale: u32) -> (result: (i128, u32))
    requires
        scale <= MAX_SCALE,
    ensures
        result == (num as i128, scale),
{
    let d = rust_decimal::Decimal::new(num, scale);
    (d.mantissa(), d.scale())
}

/// `rust_decimal::Decimal::normalize`: drops zeros at the end of the digits
/// behind the point, as long as there are digits behind the point.
#[verifier::external_body]
fn decimal_normalize(mantissa: i128, scale: u32) -> (result: (i128, u32))
    requires
        -MAX_MANTISSA <= mantissa <= MAX_MANTISSA,
        scale <= MAX_SCALE,
    ensures
        (result.0 as int, result.1 as nat) == stripped(mantissa as int, scale as nat),
{
    let d = rust_decimal::Decimal::from_i128_with_scale(mantissa, scale).normalize();
    (d.mantissa(), d.scale())
}

/// `rust_decimal::Decimal::checked_div`, which computes what `/` does and gives
/// `None` where `/` panics. The result depends on the two numbers alone, is a
/// number that the crate can hold, and is the quotient but for rounding by at
/// most half a unit in the last digit that it has. It is not rounded where the
/// exact quotient can be held, and else only in the last digit that there is
/// room for; zeros at the end may have been dropped since. There is none for a
/// divisor of zero; for another divisor there is one wherever the quotient is no
/// larger than the largest number. Which of two numbers it is that are equally
/// near, and which zeros at the end were dropped, is left unsaid.
#[verifier::external_body]
fn decimal_checked_div(m1: i128, s1: u32, m2: i128, s2: u32) -> (result: Option<(i128, u32)>)
    requires
        -MAX_MANTISSA <= m1 <= MAX_MANTISSA,
        s1 <= MAX_SCALE,
        -MAX_MANTISSA <= m2 <= MAX_MANTISSA,
        s2 <= MAX_SCALE,
    ensures
        result == decimal_quotient(m1, s1, m2, s2),
        result matches Some(q) ==> from_parts(q).wf() && from_parts(q).is_quotient(
            from_parts((m1, s1)),
            from_parts((m2, s2)),
        ),
        result matches Some(q) ==> from_parts(q).is_exact_where_possible(
            from_parts((m1, s1)),
            from_parts((m2, s2)),
        ),
        result matches Some(q) ==> from_parts(q).has_all_digits(
            from_parts((m1, s1)),
            from_parts((m2, s2)),
        ),
        m2 == 0 ==> result is None,
        m2 != 0 && from_parts((m1, s1)).quotient_fits(from_parts((m2, s2))) ==> result is Some,
{
    let dividend = rust_decimal::Decimal::from_i128_with_scale(m1, s1);
    let divisor = rust_decimal::Decimal::from_i128_with_scale(m2, s2);
    dividend.checked_div(divisor).map(|q| (q.mantissa(), q.scale()))
}

/// Dropping zeros keeps the value and brings mantissa and scale no further from
/// zero.
proof fn lemma_stripped(m: int, s: nat)
    ensures
        stripped(m, s).1 <= s,
        stripped(m, s).0 * pow10((s - stripped(m, s).1) as nat) == m,
        magnitude(stripped(m, s).0) <= magnitude(m),
        stripped(m, s).1 == 0 || stripped(m, s).0 % 10 != 0,
    decreases s,
{
    vstd::arithmetic::power::lemma_pow0(10);
    if s > 0 && m % 10 == 0 {
        let rest = stripped(m / 10, (s - 1) as nat);
        lemma_stripped(m / 10, (s - 1) as nat);
        let k = (s - 1 - rest.1) as nat;
        assert(pow10(k + 1) == 10 * pow10(k)) by {
            reveal(vstd::arithmetic::power::pow);
        }
        assert(rest.0 * (10 * pow10(k)) == 10 * (rest.0 * pow10(k))) by (nonlinear_arith);
    }
}

/// Dropping the zeros behind the point changes no value.
pub proof fn normal_form_keeps_value(d: Decimal)
    requires
        d.wf(),
    ensures
        d.normal_form().wf(),
        d.normal_form().same_value(d),
{
    let n = d.normal_form();
    lemma_stripped(d.mantissa as int, d.scale as nat);
    let k = (d.scale - n.scale) as nat;
    vstd::arithmetic::power::lemma_pow_adds(10, n.scale as nat, k);
    assert(n.mantissa * (pow10(n.scale as nat) * pow10(k)) == (n.mantissa * pow10(k)) * pow10(
        n.scale as nat,
    )) by (nonlinear_arith);
}

/// The normal form of `units / 10^decimals` stands for that, and no digit behind
/// its point is a zero that could be dropped.
pub proof fn normal_form_stands_for_its_units(units: i128, decimals: u32)
    requires
        -MAX_MANTISSA <= units <= MAX_MANTISSA,
        decimals <= MAX_SCALE,
    ensures
        (Decimal { mantissa: units, scale: decimals }).normal_form().stands_for(
            units as int,
            decimals as int,
        ),
        (Decimal { mantissa: units, scale: decimals }).normal_form().is_normal(),
{
    normal_form_keeps_value(Decimal { mantissa: units, scale: decimals });
    normal_form_is_normal(Decimal { mantissa: units, scale: decimals });
}

/// A normal form has no zeros left to drop, so taking it again changes nothing.
pub proof fn normal_form_is_normal(d: Decimal)
    requires
        d.wf(),
    ensures
        d.normal_form().is_normal(),
        d.normal_form().normal_form() == d.normal_form(),
{
    lemma_stripped(d.mantissa as int, d.scale as nat);
}

/// Numbers of one value have one normal form, whatever scales they came in.
pub proof fn same_value_same_normal_form(a: Decimal, b: Decimal)
    requires
        a.wf(),
        b.wf(),
        a.same_value(b),
    ensures
        a.normal_form() == b.normal_form(),
{
    let x = a.normal_form();
    let y = b.normal_form();
    normal_form_keeps_value(a);
    normal_form_keeps_value(b);
    normal_form_is_normal(a);
    normal_form_is_normal(b);
    lemma_same_value_transitive(x, a, b);
    lemma_same_value_transitive(x, b, y);
    lemma_normal_scale_is_least(x, y);
    lemma_normal_scale_is_least(y, x);
    let p = pow10(x.scale as nat);
    vstd::arithmetic::power::lemma_pow_positive(10, x.scale as nat);
    assert(x.mantissa == y.mantissa) by (nonlinear_arith)
        requires
            x.mantissa * p == y.mantissa * p,
            p > 0,
    ;
}

/// A quotient that a number is exactly is no larger than the largest number.
pub proof fn exact_quotients_fit(d: Decimal, a: Decimal, b: Decimal)
    requires
        d.wf(),
        d.is_exactly(a, b),
    ensures
        a.quotient_fits(b),
{
    let pa = pow10(a.scale as nat);
    let pb = pow10(b.scale as nat);
    let pd = pow10(d.scale as nat);
    let ma = magnitude(a.mantissa as int);
    let mb = magnitude(b.mantissa as int);
    let md = magnitude(d.mantissa as int);
    vstd::arithmetic::power::lemma_pow_positive(10, a.scale as nat);
    vstd::arithmetic::power::lemma_pow_positive(10, b.scale as nat);
    vstd::arithmetic::power::lemma_pow_positive(10, d.scale as nat);
    lemma_magnitude_of_product(d.mantissa as int, b.mantissa * pa);
    lemma_magnitude_of_product(b.mantissa as int, pa);
    lemma_magnitude_of_product(a.mantissa * pb, pd);
    lemma_magnitude_of_product(a.mantissa as int, pb);
    assert(ma * pb <= MAX_MANTISSA * (mb * pa)) by (nonlinear_arith)
        requires
            md * (mb * pa) == ma * pb * pd,
            0 <= ma,
            0 <= mb,
            0 <= md <= MAX_MANTISSA,
            pa > 0,
            pb > 0,
            pd > 0,
    ;
}

/// The absolute value of a product is the product of the absolute values.
proof fn lemma_magnitude_of_product(x: int, y: int)
    ensures
        magnitude(x * y) == magnitude(x) * magnitude(y),
{
    assert(magnitude(x * y) == magnitude(x) * magnitude(y)) by (nonlinear_arith);
}

/// What is exactly a quotient stays so in any other number of its value and for
/// any other divisor of the divisor's value.
pub proof fn exactness_is_of_values(d: Decimal, e: Decimal, a: Decimal, b: Decimal, c: Decimal)
    requires
        d.is_exactly(a, b),
        e.same_value(d),
        c.same_value(b),
    ensures
        e.is_exactly(a, c),
{
    let pa = pow10(a.scale as nat);
    let pb = pow10(b.scale as nat);
    let pc = pow10(c.scale as nat);
    let pd = pow10(d.scale as nat);
    let pe = pow10(e.scale as nat);
    vstd::arithmetic::power::lemma_pow_positive(10, b.scale as nat);
    vstd::arithmetic::power::lemma_pow_positive(10, d.scale as nat);
    let (ma, mb, mc) = (a.mantissa as int, b.mantissa as int, c.mantissa as int);
    let (md, me) = (d.mantissa as int, e.mantissa as int);
    let left = me * (mc * pa);
    let right = ma * pc * pe;
    assert(left * (pb * pd) == (me * pd) * (mc * pb) * pa) by (nonlinear_arith)
        requires
            left == me * (mc * pa),
    ;
    assert((md * pe) * (mb * pc) * pa == (md * (mb * pa)) * (pe * pc)) by (nonlinear_arith);
    assert((ma * pb * pd) * (pe * pc) == right * (pb * pd)) by (nonlinear_arith)
        requires
            right == ma * pc * pe,
    ;
    assert(left == right) by (nonlinear_arith)
        requires
            left * (pb * pd) == right * (pb * pd),
            pb > 0,
            pd > 0,
    ;
}

/// What has the digits of a quotient shares them with any other number of its
/// value.
pub proof fn digits_are_of_values(d: Decimal, e: Decimal, a: Decimal, b: Decimal)
    requires
        d.has_all_digits(a, b),
        e.same_value(d),
    ensures
        e.has_all_digits(a, b),
{
    let full = choose|full: Decimal|
        full.is_full_quotient(a, b) && #[trigger] d.same_value(full);
    lemma_same_value_transitive(e, d, full);
}

/// If `a` has the value of `b` and `b` that of `c`, then `a` has that of `c`.
proof fn lemma_same_value_transitive(a: Decimal, b: Decimal, c: Decimal)
    requires
        a.same_value(b),
        b.same_value(c),
    ensures
        a.same_value(c),
{
    let pa = pow10(a.scale as nat);
    let pb = pow10(b.scale as nat);
    let pc = pow10(c.scale as nat);
    vstd::arithmetic::power::lemma_pow_positive(10, b.scale as nat);
    assert((a.mantissa * pc) * pb == (c.mantissa * pa) * pb) by (nonlinear_arith)
        requires
            a.mantissa * pb == b.mantissa * pa,
            b.mantissa * pc == c.mantissa * pb,
    ;
    assert(a.mantissa * pc == c.mantissa * pa) by (nonlinear_arith)
        requires
            (a.mantissa * pc) * pb == (c.mantissa * pa) * pb,
            pb > 0,
    ;
}

/// No number of the value of a normal one has a smaller scale.
proof fn lemma_normal_scale_is_least(n: Decimal, other: Decimal)
    requires
        n.is_normal(),
        n.same_value(other),
    ensures
        n.scale <= other.scale,
{
    if other.scale < n.scale {
        let k = (n.scale - other.scale) as nat;
        let p = pow10(other.scale as nat);
        let q = pow10((k - 1) as nat);
        vstd::arithmetic::power::lemma_pow_adds(10, other.scale as nat, k);
        vstd::arithmetic::power::lemma_pow_positive(10, other.scale as nat);
        assert(pow10(k) == 10 * q) by {
            reveal(vstd::arithmetic::power::pow);
        }
        assert(n.mantissa == 10 * (other.mantissa * q)) by (nonlinear_arith)
            requires
                n.mantissa * p == other.mantissa * (p * (10 * q)),
                p > 0,
        ;
        assert(n.mantissa % 10 == 0);
    }
}

} // verus!
