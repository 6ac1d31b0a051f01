//! Exact rational numbers for the constant values of numeric expressions.
//!
//! A value is a pair `(numerator, denominator)` with a positive denominator,
//! both of any size; arithmetic follows the textbook formulas without
//! reducing.

use vstd::prelude::*;

use crate::big::{Big, lemma_pow10_step};
use crate::text::{find_char, find_in, is_digit, lemma_find_char};

verus! {

/// A rational number with parts that fit `i64`, as settings hold one.
#[derive(Clone, Copy, Debug, PartialEq, Eq, Structural)]
pub struct Ratio {
    pub num: i64,
    pub den: i64,
}

impl Ratio {
    pub open spec fn pair(self) -> (int, int) {
        (self.num as int, self.den as int)
    }

    pub open spec fn wf(self) -> bool {
        self.den > 0
    }

    /// The same value as a number.
    pub fn to_num(&self) -> (r: Num)
        requires
            self.wf(),
        ensures
            r.pair() == self.pair(),
            r.wf(),
    {
        Num::from_ratio(self.num, self.den)
    }
}

/// A rational number: the numerator has sign `neg` and magnitude `mag`,
/// the denominator `den` is positive.
#[derive(Debug)]
pub struct Num {
    pub neg: bool,
    pub mag: Big,
    pub den: Big,
}

/// The integer with sign `neg` and magnitude `m`.
pub open spec fn signed(neg: bool, m: nat) -> int {
    if neg {
        -(m as int)
    } else {
        m as int
    }
}

pub open spec fn pow10(k: nat) -> int
    decreases k,
{
    if k == 0 {
        1
    } else {
        10 * pow10((k - 1) as nat)
    }
}

pub open spec fn rat_add(a: (int, int), b: (int, int)) -> (int, int) {
    (a.0 * b.1 + b.0 * a.1, a.1 * b.1)
}

pub open spec fn rat_sub(a: (int, int), b: (int, int)) -> (int, int) {
    (a.0 * b.1 - b.0 * a.1, a.1 * b.1)
}

pub open spec fn rat_mul(a: (int, int), b: (int, int)) -> (int, int) {
    (a.0 * b.0, a.1 * b.1)
}

/// Quotient; none when dividing by zero.
pub open spec fn rat_div(a: (int, int), b: (int, int)) -> Option<(int, int)> {
    if b.0 == 0 {
        None
    } else if b.0 > 0 {
        Some((a.0 * b.1, a.1 * b.0))
    } else {
        Some((-(a.0 * b.1), -(a.1 * b.0)))
    }
}

/// Integer division rounding toward zero.
pub open spec fn tdiv(x: int, y: int) -> int {
    if y == 0 {
        0
    } else if (x >= 0) == (y > 0) {
        (if x >= 0 { x } else { -x }) / (if y > 0 { y } else { -y })
    } else {
        -((if x >= 0 { x } else { -x }) / (if y > 0 { y } else { -y }))
    }
}

/// Remainder with the sign of the dividend (`a - trunc(a / b) * b`); none when `b` is zero.
pub open spec fn rat_rem(a: (int, int), b: (int, int)) -> Option<(int, int)> {
    if b.0 == 0 {
        None
    } else {
        let q = tdiv(a.0 * b.1, a.1 * b.0);
        Some((a.0 * b.1 - q * b.0 * a.1, a.1 * b.1))
    }
}

pub open spec fn rat_neg(a: (int, int)) -> (int, int) {
    (-a.0, a.1)
}

/// `a < b` for positive denominators.
pub open spec fn rat_lt(a: (int, int), b: (int, int)) -> bool {
    a.0 * b.1 < b.0 * a.1
}

pub open spec fn rat_eq(a: (int, int), b: (int, int)) -> bool {
    a.0 * b.1 == b.0 * a.1
}

pub open spec fn fits_i64(x: int) -> bool {
    i64::MIN <= x <= i64::MAX
}

/// The value of an optional number.
pub open spec fn opt_pair(r: Option<Num>) -> Option<(int, int)> {
    match r {
        Some(n) => Some(n.pair()),
        None => None,
    }
}

/// An optional number that is well formed when present.
pub open spec fn opt_wf(r: Option<Num>) -> bool {
    r matches Some(n) ==> n.wf()
}

/// Absolute value.
pub open spec fn rat_abs(a: (int, int)) -> (int, int) {
    if a.0 < 0 {
        (-a.0, a.1)
    } else {
        a
    }
}

/// Rounding half away from zero (`f64::round`), for a positive denominator.
pub open spec fn round_half_away(a: (int, int)) -> int {
    if a.0 >= 0 {
        (2 * a.0 + a.1) / (2 * a.1)
    } else {
        -((2 * (-a.0) + a.1) / (2 * a.1))
    }
}

/// `x` brought into the range of `i64`, as `as i64` does with a float.
pub open spec fn clamp_i64(x: int) -> int {
    if x < i64::MIN {
        i64::MIN as int
    } else if x > i64::MAX {
        i64::MAX as int
    } else {
        x
    }
}

/// Rounding half away from zero, then into the range of `i64`
/// (`f64::round` followed by `as i64`).
pub open spec fn rat_round(a: (int, int)) -> int {
    clamp_i64(round_half_away(a))
}

/// The sign and magnitude of the sum of two signed magnitudes.
fn add_signed(an: bool, a: &Big, bn: bool, b: &Big) -> (r: (bool, Big))
    requires
        a.wf(),
        b.wf(),
    ensures
        r.1.wf(),
        signed(r.0, r.1.val()) == signed(an, a.val()) + signed(bn, b.val()),
{
    if an == bn {
        (an, a.add(b))
    } else {
        let (d, lt) = a.sub(b);
        if !lt {
            (an, d)
        } else {
            let (e, _) = b.sub(a);
            (bn, e)
        }
    }
}

/// Whether one signed magnitude is below another.
fn lt_signed(an: bool, a: &Big, bn: bool, b: &Big) -> (r: bool)
    requires
        a.wf(),
        b.wf(),
    ensures
        r == (signed(an, a.val()) < signed(bn, b.val())),
{
    if !an && !bn {
        a.less_than(b)
    } else if an && bn {
        b.less_than(a)
    } else if an {
        !(a.is_zero() && b.is_zero())
    } else {
        false
    }
}

/// Whether two signed magnitudes are equal.
fn eq_signed(an: bool, a: &Big, bn: bool, b: &Big) -> (r: bool)
    requires
        a.wf(),
        b.wf(),
    ensures
        r == (signed(an, a.val()) == signed(bn, b.val())),
{
    if an == bn {
        !a.less_than(b) && !b.less_than(a)
    } else {
        a.is_zero() && b.is_zero()
    }
}

/// The product of a signed magnitude and a natural number.
proof fn lemma_signed_mul(n: bool, m: nat, k: nat)
    ensures
        signed(n, m) * k == signed(n, m * k),
{
    if n {
        assert(-(m as int) * k == -((m * k) as int)) by (nonlinear_arith);
    }
}

impl Num {
    pub open spec fn pair(self) -> (int, int) {
        (signed(self.neg, self.mag.val()), self.den.val() as int)
    }

    pub open spec fn wf(self) -> bool {
        &&& self.mag.wf()
        &&& self.den.wf()
        &&& self.den.val() > 0
    }

    pub open spec fn below_zero(&self) -> bool {
        self.pair().0 < 0
    }

    pub open spec fn above_zero(&self) -> bool {
        self.pair().0 > 0
    }

    pub open spec fn at_zero(&self) -> bool {
        self.pair().0 == 0
    }

    pub fn from_int(v: i64) -> (r: Num)
        ensures
            r.pair() == (v as int, 1int),
            r.wf(),
    {
        let m: u64 = if v < 0 { (-(v as i128)) as u64 } else { v as u64 };
        Num { neg: v < 0, mag: Big::from_u64(m), den: Big::from_u64(1) }
    }

    /// The number `n / d`.
    pub fn from_ratio(n: i64, d: i64) -> (r: Num)
        requires
            d > 0,
        ensures
            r.pair() == (n as int, d as int),
            r.wf(),
    {
        let m: u64 = if n < 0 { (-(n as i128)) as u64 } else { n as u64 };
        Num { neg: n < 0, mag: Big::from_u64(m), den: Big::from_u64(d as u64) }
    }

    /// A copy.
    pub fn duplicate(&self) -> (r: Num)
        ensures
            r.pair() == self.pair(),
            self.wf() ==> r.wf(),
            r.neg == self.neg,
            r.mag.digits@ == self.mag.digits@,
            r.den.digits@ == self.den.digits@,
    {
        Num { neg: self.neg, mag: self.mag.duplicate(), den: self.den.duplicate() }
    }

    /// Whether the number is well formed.
    pub fn check(&self) -> (r: bool)
        ensures
            r == self.wf(),
    {
        self.mag.check() && self.den.check() && !self.den.is_zero()
    }

    pub fn add(&self, other: &Num) -> (r: Num)
        requires
            self.wf(),
            other.wf(),
        ensures
            r.pair() == rat_add(self.pair(), other.pair()),
            r.wf(),
    {
        let x = self.mag.mul(&other.den);
        let y = other.mag.mul(&self.den);
        let (neg, mag) = add_signed(self.neg, &x, other.neg, &y);
        let den = self.den.mul(&other.den);
        proof {
            lemma_signed_mul(self.neg, self.mag.val(), other.den.val());
            lemma_signed_mul(other.neg, other.mag.val(), self.den.val());
            assert(den.val() > 0) by (nonlinear_arith)
                requires
                    den.val() == self.den.val() * other.den.val(),
                    self.den.val() > 0,
                    other.den.val() > 0,
            ;
        }
        Num { neg, mag, den }
    }

    pub fn sub(&self, other: &Num) -> (r: Num)
        requires
            self.wf(),
            other.wf(),
        ensures
            r.pair() == rat_sub(self.pair(), other.pair()),
            r.wf(),
    {
        let x = self.mag.mul(&other.den);
        let y = other.mag.mul(&self.den);
        let (neg, mag) = add_signed(self.neg, &x, !other.neg, &y);
        let den = self.den.mul(&other.den);
        proof {
            lemma_signed_mul(self.neg, self.mag.val(), other.den.val());
            lemma_signed_mul(other.neg, other.mag.val(), self.den.val());
            lemma_signed_mul(!other.neg, other.mag.val(), self.den.val());
            assert(den.val() > 0) by (nonlinear_arith)
                requires
                    den.val() == self.den.val() * other.den.val(),
                    self.den.val() > 0,
                    other.den.val() > 0,
            ;
        }
        Num { neg, mag, den }
    }

    pub fn mul(&self, other: &Num) -> (r: Num)
        requires
            self.wf(),
            other.wf(),
        ensures
            r.pair() == rat_mul(self.pair(), other.pair()),
            r.wf(),
    {
        let mag = self.mag.mul(&other.mag);
        let den = self.den.mul(&other.den);
        proof {
            let a = self.mag.val();
            let b = other.mag.val();
            assert(signed(self.neg, a) * signed(other.neg, b) == signed(self.neg != other.neg, a * b)) by (nonlinear_arith);
            assert(den.val() > 0) by (nonlinear_arith)
                requires
                    den.val() == self.den.val() * other.den.val(),
                    self.den.val() > 0,
                    other.den.val() > 0,
            ;
        }
        Num { neg: self.neg != other.neg, mag, den }
    }

    /// The quotient; none when dividing by zero.
    pub fn div(&self, other: &Num) -> (r: Option<Num>)
        requires
            self.wf(),
            other.wf(),
        ensures
            opt_pair(r) == rat_div(self.pair(), other.pair()),
            opt_wf(r),
    {
        if other.mag.is_zero() {
            return None;
        }
        let mag = self.mag.mul(&other.den);
        let den = self.den.mul(&other.mag);
        proof {
            let a = self.mag.val();
            let bd = other.den.val();
            let ad = self.den.val();
            let bm = other.mag.val();
            lemma_signed_mul(self.neg, a, bd);
            assert(den.val() > 0) by (nonlinear_arith)
                requires
                    den.val() == ad * bm,
                    ad > 0,
                    bm > 0,
            ;
            if other.neg {
                assert(-(ad * signed(true, bm)) == ad * bm) by (nonlinear_arith);
                assert(-signed(self.neg, a * bd) == signed(self.neg != other.neg, a * bd));
            } else {
                assert(ad * signed(false, bm) == ad * bm);
            }
        }
        Some(Num { neg: self.neg != other.neg, mag, den })
    }

    /// The remainder with the sign of the dividend; none when `other` is zero.
    pub fn rem(&self, other: &Num) -> (r: Option<Num>)
        requires
            self.wf(),
            other.wf(),
        ensures
            opt_pair(r) == rat_rem(self.pair(), other.pair()),
            opt_wf(r),
    {
        if other.mag.is_zero() {
            return None;
        }
        let xm = self.mag.mul(&other.den);
        let ym = self.den.mul(&other.mag);
        let ghost xv = xm.val();
        let ghost yv = ym.val();
        proof {
            assert(yv > 0) by (nonlinear_arith)
                requires
                    yv == self.den.val() * other.mag.val(),
                    self.den.val() > 0,
                    other.mag.val() > 0,
            ;
        }
        let (q, r) = xm.divmod(&ym);
        let den = self.den.mul(&other.den);
        proof {
            let a = self.pair();
            let b = other.pair();
            lemma_signed_mul(self.neg, self.mag.val(), other.den.val());
            let x = a.0 * b.1;
            let y = a.1 * b.0;
            assert(x == signed(self.neg, xv));
            assert(y == signed(other.neg, yv)) by {
                lemma_signed_mul(other.neg, other.mag.val(), self.den.val());
                assert(a.1 * b.0 == b.0 * a.1) by (nonlinear_arith);
                assert(other.mag.val() * self.den.val() == yv) by (nonlinear_arith)
                    requires
                        yv == self.den.val() * other.mag.val(),
                ;
            }
            vstd::arithmetic::div_mod::lemma_fundamental_div_mod_converse(xv as int, yv as int, q.val() as int, r.val() as int);
            let qq = tdiv(x, y);
            assert(qq * y == signed(self.neg, q.val() * yv) || xv == 0) by (nonlinear_arith)
                requires
                    x == signed(self.neg, xv),
                    y == signed(other.neg, yv),
                    yv > 0,
                    q.val() == xv / yv,
                    qq == tdiv(x, y),
            ;
            assert(x - qq * y == signed(self.neg, r.val())) by (nonlinear_arith)
                requires
                    x == signed(self.neg, xv),
                    y == signed(other.neg, yv),
                    yv > 0,
                    q.val() == xv / yv,
                    q.val() * yv + r.val() == xv,
                    qq == tdiv(x, y),
            ;
            assert(qq * b.0 * a.1 == qq * y) by (nonlinear_arith)
                requires
                    y == a.1 * b.0,
            ;
            assert(den.val() > 0) by (nonlinear_arith)
                requires
                    den.val() == self.den.val() * other.den.val(),
                    self.den.val() > 0,
                    other.den.val() > 0,
            ;
        }
        Some(Num { neg: self.neg, mag: r, den })
    }

    pub fn neg(&self) -> (r: Num)
        requires
            self.wf(),
        ensures
            r.pair() == rat_neg(self.pair()),
            r.wf(),
    {
        let r = self.duplicate();
        Num { neg: !self.neg, mag: r.mag, den: r.den }
    }

    /// The absolute value.
    pub fn abs(&self) -> (r: Num)
        requires
            self.wf(),
        ensures
            r.pair() == rat_abs(self.pair()),
            r.wf(),
    {
        let r = self.duplicate();
        Num { neg: false, mag: r.mag, den: r.den }
    }

    pub fn less_than(&self, other: &Num) -> (r: bool)
        requires
            self.wf(),
            other.wf(),
        ensures
            r == rat_lt(self.pair(), other.pair()),
    {
        let x = self.mag.mul(&other.den);
        let y = other.mag.mul(&self.den);
        proof {
            lemma_signed_mul(self.neg, self.mag.val(), other.den.val());
            lemma_signed_mul(other.neg, other.mag.val(), self.den.val());
        }
        lt_signed(self.neg, &x, other.neg, &y)
    }

    pub fn same_value(&self, other: &Num) -> (r: bool)
        requires
            self.wf(),
            other.wf(),
        ensures
            r == rat_eq(self.pair(), other.pair()),
    {
        let x = self.mag.mul(&other.den);
        let y = other.mag.mul(&self.den);
        proof {
            lemma_signed_mul(self.neg, self.mag.val(), other.den.val());
            lemma_signed_mul(other.neg, other.mag.val(), self.den.val());
        }
        eq_signed(self.neg, &x, other.neg, &y)
    }

    /// The sign: -1, 0 or 1.
    pub fn sign(&self) -> (r: i8)
        requires
            self.wf(),
        ensures
            r == (if self.pair().0 < 0 { -1int } else if self.pair().0 == 0 { 0int } else { 1int }),
    {
        if self.mag.is_zero() {
            0
        } else if self.neg {
            -1
        } else {
            1
        }
    }

    /// Whether the number is below zero.
    #[verifier::when_used_as_spec(below_zero)]
    pub fn is_negative(&self) -> (r: bool)
        requires
            self.wf(),
        ensures
            r == self.below_zero(),
            r == (self.pair().0 < 0),
    {
        self.sign() < 0
    }

    /// Whether the number is above zero.
    #[verifier::when_used_as_spec(above_zero)]
    pub fn is_positive(&self) -> (r: bool)
        requires
            self.wf(),
        ensures
            r == self.above_zero(),
            r == (self.pair().0 > 0),
    {
        self.sign() > 0
    }

    /// Whether the number is zero.
    #[verifier::when_used_as_spec(at_zero)]
    pub fn is_zero(&self) -> (r: bool)
        requires
            self.wf(),
        ensures
            r == self.at_zero(),
            r == (self.pair().0 == 0),
    {
        self.sign() == 0
    }

    /// Rounded half away from zero, then brought into the range of `i64`.
    pub fn round(&self) -> (r: i64)
        requires
            self.wf(),
        ensures
            r == rat_round(self.pair()),
    {
        let m2 = self.mag.add(&self.mag);
        let t = m2.add(&self.den);
        let d2 = self.den.add(&self.den);
        let (q, rr) = t.divmod(&d2);
        let c = q.to_u64_capped();
        proof {
            vstd::arithmetic::div_mod::lemma_fundamental_div_mod_converse(t.val() as int, d2.val() as int, q.val() as int, rr.val() as int);
        }
        if self.is_negative() {
            if c >= 0x8000_0000_0000_0000u64 {
                i64::MIN
            } else {
                -(c as i64)
            }
        } else {
            proof {
                if self.neg {
                    assert(self.mag.val() == 0);
                }
            }
            if c > i64::MAX as u64 {
                i64::MAX
            } else {
                c as i64
            }
        }
    }
}

/// The value of a sequence of decimal digits.
pub open spec fn digits_val(s: Seq<char>) -> int
    decreases s.len(),
{
    if s.len() == 0 {
        0
    } else {
        digits_val(s.drop_last()) * 10 + (s.last() as int - '0' as int)
    }
}

pub open spec fn all_digits(s: Seq<char>) -> bool {
    forall|i: int| 0 <= i < s.len() ==> is_digit(#[trigger] s[i])
}

/// Drops one leading `+` or `-`.
pub open spec fn unsigned_part(s: Seq<char>) -> Seq<char> {
    if s.len() > 0 && (s[0] == '+' || s[0] == '-') {
        s.drop_first()
    } else {
        s
    }
}

pub open spec fn is_negative(s: Seq<char>) -> bool {
    s.len() > 0 && s[0] == '-'
}

/// Index of the first `e` or `E`, or the length.
pub open spec fn find_exp(s: Seq<char>) -> int
    decreases s.len(),
{
    if s.len() == 0 {
        0
    } else if s[0] == 'e' || s[0] == 'E' {
        0
    } else {
        1 + find_exp(s.drop_first())
    }
}

/// The exponent after `e`: an optional sign and one or more digits.
pub open spec fn parse_exponent(x: Seq<char>) -> Option<int> {
    let d = unsigned_part(x);
    if d.len() >= 1 && all_digits(d) {
        Some(if is_negative(x) { -digits_val(d) } else { digits_val(d) })
    } else {
        None
    }
}

/// A decimal number as `str::parse::<f64>` reads one, as an exact rational:
/// an optional sign, digits with an optional fraction (at least one digit),
/// and an optional exponent.
pub open spec fn parse_number(s: Seq<char>) -> Option<(int, int)> {
    let body = unsigned_part(s);
    let e = find_exp(body);
    let mant = body.subrange(0, e);
    let dot = find_char(mant, '.');
    let ip = mant.subrange(0, dot);
    let fp = if dot < mant.len() { mant.subrange(dot + 1, mant.len() as int) } else { Seq::empty() };
    let exp = if e < body.len() { parse_exponent(body.subrange(e + 1, body.len() as int)) } else { Some(0) };
    if !(all_digits(ip) && all_digits(fp) && ip.len() + fp.len() >= 1) || exp is None {
        None
    } else {
        let m0 = digits_val(ip + fp);
        let m = if is_negative(s) { -m0 } else { m0 };
        let scale = exp.unwrap() - fp.len();
        if scale >= 0 {
            Some((m * pow10(scale as nat), 1))
        } else {
            Some((m, pow10((-scale) as nat)))
        }
    }
}

/// Whether every character of `v[start..end]` is a decimal digit.
fn digits_only(v: &Vec<char>, start: usize, end: usize) -> (r: bool)
    requires
        start <= end <= v@.len(),
    ensures
        r == all_digits(v@.subrange(start as int, end as int)),
{
    let mut i = start;
    while i < end
        invariant
            start <= i <= end <= v@.len(),
            forall|j: int| start <= j < i ==> is_digit(#[trigger] v@[j]),
        decreases end - i,
    {
        if !('0' <= v[i] && v[i] <= '9') {
            assert(v@.subrange(start as int, end as int)[i - start] == v@[i as int]);
            return false;
        }
        i = i + 1;
    }
    assert forall|k: int| 0 <= k < end - start implies is_digit(
        #[trigger] v@.subrange(start as int, end as int)[k],
    ) by {
        assert(v@.subrange(start as int, end as int)[k] == v@[start + k]);
    }
    true
}

pub proof fn lemma_digits_val_concat(a: Seq<char>, b: Seq<char>)
    ensures
        digits_val(a + b) == digits_val(a) * pow10(b.len()) + digits_val(b),
    decreases b.len(),
{
    if b.len() == 0 {
        assert(a + b =~= a);
    } else {
        lemma_digits_val_concat(a, b.drop_last());
        assert((a + b).drop_last() =~= a + b.drop_last());
        assert(pow10(b.len()) == 10 * pow10((b.len() - 1) as nat));
        assert(digits_val(a) * pow10(b.len()) == 10 * (digits_val(a) * pow10((b.len() - 1) as nat)))
            by (nonlinear_arith)
            requires
                pow10(b.len()) == 10 * pow10((b.len() - 1) as nat),
        ;
    }
}

pub proof fn lemma_find_exp(s: Seq<char>)
    ensures
        0 <= find_exp(s) <= s.len(),
        forall|j: int| 0 <= j < find_exp(s) ==> s[j] != 'e' && s[j] != 'E',
        find_exp(s) < s.len() ==> (s[find_exp(s)] == 'e' || s[find_exp(s)] == 'E'),
    decreases s.len(),
{
    if s.len() > 0 && s[0] != 'e' && s[0] != 'E' {
        lemma_find_exp(s.drop_first());
        assert forall|j: int| 0 <= j < find_exp(s) implies s[j] != 'e' && s[j] != 'E' by {
            if j > 0 {
                assert(s[j] == s.drop_first()[j - 1]);
            }
        }
    }
}

pub proof fn lemma_find_exp_unique(s: Seq<char>, k: int)
    requires
        0 <= k <= s.len(),
        forall|j: int| 0 <= j < k ==> s[j] != 'e' && s[j] != 'E',
        k < s.len() ==> (s[k] == 'e' || s[k] == 'E'),
    ensures
        find_exp(s) == k,
{
    lemma_find_exp(s);
}

pub open spec fn number_body(s: Seq<char>) -> Seq<char> {
    unsigned_part(s)
}

pub open spec fn number_mantissa(s: Seq<char>) -> Seq<char> {
    number_body(s).subrange(0, find_exp(number_body(s)))
}

pub open spec fn number_int_part(s: Seq<char>) -> Seq<char> {
    number_mantissa(s).subrange(0, find_char(number_mantissa(s), '.'))
}

pub open spec fn number_frac_part(s: Seq<char>) -> Seq<char> {
    let mant = number_mantissa(s);
    let dot = find_char(mant, '.');
    if dot < mant.len() { mant.subrange(dot + 1, mant.len() as int) } else { Seq::empty() }
}

pub open spec fn number_exponent(s: Seq<char>) -> Option<int> {
    let body = number_body(s);
    let e = find_exp(body);
    if e < body.len() { parse_exponent(body.subrange(e + 1, body.len() as int)) } else { Some(0) }
}

pub proof fn lemma_parse_number_parts(s: Seq<char>)
    ensures
        parse_number(s) == if !(all_digits(number_int_part(s)) && all_digits(number_frac_part(s))
            && number_int_part(s).len() + number_frac_part(s).len() >= 1) || number_exponent(s) is None {
            None
        } else {
            let m0 = digits_val(number_int_part(s) + number_frac_part(s));
            let m = if is_negative(s) { -m0 } else { m0 };
            let scale = number_exponent(s).unwrap() - number_frac_part(s).len();
            if scale >= 0 {
                Some((m * pow10(scale as nat), 1int))
            } else {
                Some((m, pow10((-scale) as nat)))
            }
        },
{
}

/// Where the parts of the number literal `v[start..end]` lie.
fn number_layout(v: &Vec<char>, start: usize, end: usize) -> (r: (usize, usize, usize, usize))
    requires
        start <= end <= v@.len(),
    ensures
        ({
            let s = v@.subrange(start as int, end as int);
            let (b0, e, dot, fs) = r;
            &&& start <= b0 <= dot <= fs <= e <= end
            &&& v@.subrange(b0 as int, end as int) == number_body(s)
            &&& e - b0 == find_exp(number_body(s))
            &&& v@.subrange(b0 as int, dot as int) == number_int_part(s)
            &&& v@.subrange(fs as int, e as int) == number_frac_part(s)
        }),
{
    let ghost s = v@.subrange(start as int, end as int);
    let b0 = if start < end && (v[start] == '+' || v[start] == '-') { start + 1 } else { start };
    let ghost body = number_body(s);
    assert(body =~= v@.subrange(b0 as int, end as int));
    let mut e = b0;
    while e < end && v[e] != 'e' && v[e] != 'E'
        invariant
            b0 <= e <= end <= v@.len(),
            forall|j: int| b0 <= j < e ==> v@[j] != 'e' && v@[j] != 'E',
        decreases end - e,
    {
        e = e + 1;
    }
    proof {
        assert forall|j: int| 0 <= j < e - b0 implies body[j] != 'e' && body[j] != 'E' by {
            assert(body[j] == v@[b0 + j]);
        }
        if e < end {
            assert(body[e - b0] == v@[e as int]);
        }
        lemma_find_exp_unique(body, e - b0);
    }
    let ghost mant = number_mantissa(s);
    assert(mant =~= v@.subrange(b0 as int, e as int));
    let dot = find_in(v, b0, e, '.');
    assert(number_int_part(s) =~= v@.subrange(b0 as int, dot as int));
    let fs = if dot < e { dot + 1 } else { e };
    assert(number_frac_part(s) =~= v@.subrange(fs as int, e as int));
    (b0, e, dot, fs)
}

pub proof fn lemma_digits_val_nonneg(s: Seq<char>)
    requires
        all_digits(s),
    ensures
        digits_val(s) >= 0,
    decreases s.len(),
{
    if s.len() > 0 {
        assert(all_digits(s.drop_last())) by {
            assert forall|i: int| 0 <= i < s.drop_last().len() implies is_digit(
                #[trigger] s.drop_last()[i],
            ) by {
                assert(s.drop_last()[i] == s[i]);
            }
        }
        lemma_digits_val_nonneg(s.drop_last());
        assert(is_digit(s[s.len() - 1]));
    }
}

pub proof fn lemma_pow10_add(a: nat, b: nat)
    ensures
        pow10(a + b) == pow10(a) * pow10(b),
    decreases b,
{
    if b > 0 {
        lemma_pow10_add(a, (b - 1) as nat);
        assert(pow10(a + b) == 10 * pow10((a + b - 1) as nat));
        assert(pow10(a) * pow10(b) == 10 * (pow10(a) * pow10((b - 1) as nat))) by (nonlinear_arith)
            requires
                pow10(b) == 10 * pow10((b - 1) as nat),
        ;
    }
}
/// Accumulates the digits of `v[start..end]` onto `acc`, giving up once the
/// value passes `cap`.
fn accumulate_capped(v: &Vec<char>, start: usize, end: usize, acc: i128, cap: i128) -> (r: Option<i128>)
    requires
        start <= end <= v@.len(),
        all_digits(v@.subrange(start as int, end as int)),
        0 <= acc <= cap,
        cap <= 0x1_0000_0000_0000_0000,
    ensures
        ({
            let total = acc * pow10((end - start) as nat) + digits_val(v@.subrange(start as int, end as int));
            &&& r matches Some(x) ==> x == total && 0 <= x <= cap
            &&& r is None ==> total > cap
        }),
{
    let ghost s = v@.subrange(start as int, end as int);
    let mut x = acc;
    let mut i = start;
    while i < end
        invariant
            start <= i <= end <= v@.len(),
            s == v@.subrange(start as int, end as int),
            all_digits(s),
            0 <= x <= cap <= 0x1_0000_0000_0000_0000,
            x == acc * pow10((i - start) as nat) + digits_val(v@.subrange(start as int, i as int)),
        decreases end - i,
    {
        assert(v@.subrange(start as int, i + 1).drop_last() =~= v@.subrange(start as int, i as int));
        assert(s[i - start] == v@[i as int]);
        let d = (v[i] as u32 - '0' as u32) as i128;
        let y = x * 10 + d;
        proof {
            assert(pow10((i + 1 - start) as nat) == 10 * pow10((i - start) as nat));
            assert(acc * pow10((i + 1 - start) as nat) == 10 * (acc * pow10((i - start) as nat)))
                by (nonlinear_arith)
                requires
                    pow10((i + 1 - start) as nat) == 10 * pow10((i - start) as nat),
            ;
        }
        if y > cap {
            proof {
                let rest = v@.subrange(i + 1, end as int);
                let pre = v@.subrange(start as int, i + 1);
                assert(s =~= pre + rest);
                lemma_digits_val_concat(pre, rest);
                lemma_pow10_add((i + 1 - start) as nat, (end - i - 1) as nat);
                assert(all_digits(rest)) by {
                    assert forall|k: int| 0 <= k < rest.len() implies is_digit(#[trigger] rest[k]) by {
                        assert(rest[k] == s[i + 1 - start + k]);
                    }
                }
                lemma_digits_val_nonneg(rest);
                lemma_pow10_pos((end - i - 1) as nat);
                let p = pow10((end - i - 1) as nat);
                assert(acc * pow10((end - start) as nat) + digits_val(s) == y * p + digits_val(rest))
                    by (nonlinear_arith)
                    requires
                        pow10((end - start) as nat) == pow10((i + 1 - start) as nat) * p,
                        digits_val(s) == digits_val(pre) * p + digits_val(rest),
                        y == acc * pow10((i + 1 - start) as nat) + digits_val(pre),
                ;
                assert(y * p >= y) by (nonlinear_arith)
                    requires
                        y > 0,
                        p >= 1,
                ;
            }
            return None;
        }
        x = y;
        i = i + 1;
    }
    Some(x)
}

/// The value of a number literal: its exact value, with two cut-offs far
/// outside the range of a float. A nonzero literal whose exponent, less its
/// number of fraction digits, passes 400 has no value (a float reads it as
/// infinity), and one below `10^-400` reads as zero (as a float reads it).
pub open spec fn number_value(s: Seq<char>) -> Option<(int, int)> {
    match parse_number(s) {
        Some(p) => {
            let digits = number_int_part(s) + number_frac_part(s);
            let scale = number_exponent(s).unwrap() - number_frac_part(s).len();
            if scale > 400 && digits_val(digits) != 0 {
                None
            } else if scale < -(400 + digits.len()) {
                Some((0int, 1int))
            } else {
                Some(p)
            }
        },
        None => None,
    }
}

/// The natural number the decimal digits `v[start..end]` make, after those
/// of `acc`.
fn accumulate_big(v: &Vec<char>, start: usize, end: usize, acc: Big) -> (r: Big)
    requires
        start <= end <= v@.len(),
        all_digits(v@.subrange(start as int, end as int)),
        acc.wf(),
    ensures
        r.wf(),
        r.val() == acc.val() * pow10((end - start) as nat) + digits_val(v@.subrange(start as int, end as int)),
{
    let mut x = acc;
    let mut i = start;
    proof {
        assert(v@.subrange(start as int, start as int) =~= Seq::<char>::empty());
        assert(pow10(0) == 1);
    }
    while i < end
        invariant
            start <= i <= end <= v@.len(),
            all_digits(v@.subrange(start as int, end as int)),
            x.wf(),
            x.val() == acc.val() * pow10((i - start) as nat) + digits_val(v@.subrange(start as int, i as int)),
        decreases end - i,
    {
        assert(v@.subrange(start as int, i + 1).drop_last() =~= v@.subrange(start as int, i as int));
        assert(v@.subrange(start as int, end as int)[i - start] == v@[i as int]);
        let d = (v[i] as u32 - '0' as u32) as u8;
        let ghost x0 = x.val();
        x.push_low(d);
        proof {
            assert(pow10((i + 1 - start) as nat) == 10 * pow10((i - start) as nat));
            assert(acc.val() * pow10((i + 1 - start) as nat) == 10 * (acc.val() * pow10((i - start) as nat)))
                by (nonlinear_arith)
                requires
                    pow10((i + 1 - start) as nat) == 10 * pow10((i - start) as nat),
            ;
        }
        i = i + 1;
    }
    x
}

/// The value of the number literal `v[start..end]` (see `number_value`).
pub fn parse_number_at(v: &Vec<char>, start: usize, end: usize) -> (r: Option<Num>)
    requires
        start <= end <= v@.len(),
        v@.len() < u32::MAX,
    ensures
        opt_pair(r) == number_value(v@.subrange(start as int, end as int)),
        opt_wf(r),
{
    let ghost s = v@.subrange(start as int, end as int);
    proof {
        lemma_parse_number_parts(s);
    }
    let neg = start < end && v[start] == '-';
    assert(start < end ==> s[0] == v@[start as int]);
    assert(neg == is_negative(s));
    let (b0, e, dot, fs) = number_layout(v, start, end);
    if !digits_only(v, b0, dot) || !digits_only(v, fs, e) || (dot - b0) + (e - fs) == 0 {
        return None;
    }
    let ghost ip = number_int_part(s);
    let ghost fp = number_frac_part(s);
    proof {
        lemma_digits_val_concat(ip, fp);
    }
    let m1 = accumulate_big(v, b0, dot, Big::zero());
    let m0 = accumulate_big(v, fs, e, m1);
    assert(m0.val() == digits_val(ip + fp));
    let ghost digits = ip + fp;
    let len = (dot - b0) + (e - fs);
    assert(len == digits.len());
    // the exponent
    let ghost body = number_body(s);
    let mut ev: i128 = 0;
    let mut huge = false;
    if e < end {
        let x0 = e + 1;
        let ghost xs = body.subrange(e - b0 + 1, body.len() as int);
        assert(xs =~= v@.subrange(x0 as int, end as int));
        let eneg = x0 < end && v[x0] == '-';
        assert(x0 < end ==> xs[0] == v@[x0 as int]);
        assert(eneg == is_negative(xs));
        let xd = if x0 < end && (v[x0] == '+' || v[x0] == '-') { x0 + 1 } else { x0 };
        assert(unsigned_part(xs) =~= v@.subrange(xd as int, end as int));
        if xd == end || !digits_only(v, xd, end) {
            return None;
        }
        assert(parse_exponent(xs) is Some);
        let ecap: i128 = 0x4000_0000_0000_0000;
        match accumulate_capped(v, xd, end, 0, ecap) {
            Some(d) => {
                ev = if eneg { -d } else { d };
            },
            None => {
                proof {
                    lemma_pow10_pos((end - xd) as nat);
                    assert(0 * pow10((end - xd) as nat) == 0);
                }
                ev = if eneg { -ecap } else { ecap };
                huge = true;
            },
        }
        assert(huge ==> (eneg ==> number_exponent(s).unwrap() < -ecap) && (!eneg ==> number_exponent(s).unwrap() > ecap));
        assert(!huge ==> number_exponent(s) == Some(ev as int));
    } else {
        assert(number_exponent(s) == Some(0int));
    }
    let flen = (e - fs) as i128;
    let scale = ev - flen;
    let ghost true_scale = number_exponent(s).unwrap() - fp.len();
    assert(!huge ==> true_scale == scale);
    assert(huge ==> (scale > 400 <==> true_scale > 400));
    assert(huge && scale < 0 ==> true_scale < -(400 + digits.len()));
    let zero = m0.is_zero();
    if scale > 400 {
        if !zero {
            return None;
        }
        proof {
            assert(0 * pow10(true_scale as nat) == 0);
        }
        return Some(Num { neg: false, mag: Big::zero(), den: Big::from_u64(1) });
    }
    if scale < -(400 + len as i128) {
        return Some(Num { neg: false, mag: Big::zero(), den: Big::from_u64(1) });
    }
    assert(!huge);
    assert(number_value(s) == parse_number(s));
    proof {
        if neg {
            assert(signed(neg, m0.val()) == -digits_val(digits));
        } else {
            assert(signed(neg, m0.val()) == digits_val(digits));
        }
    }
    if scale >= 0 {
        let p = Big::pow10(scale as u64);
        let mag = m0.mul(&p);
        proof {
            lemma_signed_mul(neg, m0.val(), p.val());
        }
        let one = Big::from_u64(1);
        let r = Num { neg, mag, den: one };
        assert(r.wf());
        assert(r.pair() == parse_number(s).unwrap());
        Some(r)
    } else {
        let p = Big::pow10((-scale) as u64);
        proof {
            lemma_pow10_pos((-scale) as nat);
        }
        let r = Num { neg, mag: m0, den: p };
        assert(r.wf());
        assert(r.pair() == parse_number(s).unwrap());
        Some(r)
    }
}

pub proof fn lemma_pow10_pos(k: nat)
    ensures
        pow10(k) >= 1,
    decreases k,
{
    if k > 0 {
        lemma_pow10_pos((k - 1) as nat);
    }
}

pub proof fn lemma_mul_i64_fits(a: int, b: int)
    requires
        fits_i64(a),
        fits_i64(b),
    ensures
        -0x4000_0000_0000_0000_0000_0000_0000_0000 <= a * b <= 0x4000_0000_0000_0000_0000_0000_0000_0000,
{
    let m: int = 0x8000_0000_0000_0000;
    assert(-m <= a <= m && -m <= b <= m);
    assert(-m * m <= a * b <= m * m) by (nonlinear_arith)
        requires
            -m <= a <= m,
            -m <= b <= m,
    ;
}

} // verus!
