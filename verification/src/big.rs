//! Natural numbers of any size, as decimal digits, least significant first.

use vstd::prelude::*;

use crate::fmt::{digit_char, nat_decimal};
use crate::num::pow10;

verus! {

/// The value of decimal digits, least significant first.
pub open spec fn dval(s: Seq<u8>) -> nat
    decreases s.len(),
{
    if s.len() == 0 {
        0
    } else {
        (s[0] as nat) + 10 * dval(s.drop_first())
    }
}

/// Every entry is a decimal digit.
pub open spec fn digits_ok(s: Seq<u8>) -> bool {
    forall|i: int| 0 <= i < s.len() ==> #[trigger] s[i] < 10
}

/// The value of the digits of `s` from position `k` on.
pub open spec fn high(s: Seq<u8>, k: int) -> nat {
    dval(s.subrange(k, s.len() as int))
}

/// The value of the lowest `i` digits of `s` (all of them once `i` passes
/// the length).
pub open spec fn low(s: Seq<u8>, i: int) -> nat {
    dval(s.take(if i < s.len() { i } else { s.len() as int }))
}

/// Digit `i` of `s`, zero past the end.
pub open spec fn dig(s: Seq<u8>, i: int) -> int {
    if 0 <= i < s.len() {
        s[i] as int
    } else {
        0
    }
}

pub proof fn lemma_pow10_step(k: nat)
    ensures
        pow10(k + 1) == 10 * pow10(k),
        pow10(k) >= 1,
    decreases k,
{
    if k > 0 {
        lemma_pow10_step((k - 1) as nat);
    }
}

/// Appending a most significant digit.
pub proof fn lemma_dval_push(s: Seq<u8>, x: u8)
    ensures
        dval(s.push(x)) == dval(s) + x * pow10(s.len()),
    decreases s.len(),
{
    if s.len() == 0 {
        assert(s.push(x).drop_first() =~= Seq::<u8>::empty());
        assert(s.push(x)[0] == x);
        assert(dval(s.push(x).drop_first()) == 0);
        assert(dval(s.push(x)) == x);
        assert(pow10(0) == 1);
        assert(x * pow10(s.len()) == x);
    } else {
        let t = s.drop_first();
        let k = t.len();
        assert(s.push(x)[0] == s[0]);
        assert(s.push(x).drop_first() =~= t.push(x));
        assert(dval(s.push(x)) == s[0] + 10 * dval(t.push(x)));
        assert(dval(s) == s[0] + 10 * dval(t));
        lemma_dval_push(t, x);
        lemma_pow10_step(k);
        assert(k + 1 == s.len());
        assert(pow10(s.len()) == 10 * pow10(k));
        assert(10 * (x * pow10(k)) == x * pow10(s.len())) by (nonlinear_arith)
            requires
                pow10(s.len()) == 10 * pow10(k),
        ;
    }
}

/// Digits are below the next power of ten.
pub proof fn lemma_dval_bound(s: Seq<u8>)
    requires
        digits_ok(s),
    ensures
        dval(s) < pow10(s.len()),
    decreases s.len(),
{
    if s.len() > 0 {
        assert(digits_ok(s.drop_first())) by {
            assert forall|i: int| 0 <= i < s.drop_first().len() implies #[trigger] s.drop_first()[i] < 10 by {
                assert(s.drop_first()[i] == s[i + 1]);
            }
        }
        lemma_dval_bound(s.drop_first());
        lemma_pow10_step((s.len() - 1) as nat);
        assert(s[0] < 10);
    }
}

/// A value is at least each of its digits.
pub proof fn lemma_dval_ge_digit(s: Seq<u8>, i: int)
    requires
        0 <= i < s.len(),
    ensures
        dval(s) >= s[i],
    decreases s.len(),
{
    if i > 0 {
        lemma_dval_ge_digit(s.drop_first(), i - 1);
        assert(s.drop_first()[i - 1] == s[i]);
    }
}

/// A value is zero exactly when every digit is.
pub proof fn lemma_dval_zero(s: Seq<u8>)
    ensures
        dval(s) == 0 <==> forall|i: int| 0 <= i < s.len() ==> #[trigger] s[i] == 0,
    decreases s.len(),
{
    if s.len() > 0 {
        lemma_dval_zero(s.drop_first());
        if dval(s) == 0 {
            assert forall|i: int| 0 <= i < s.len() implies #[trigger] s[i] == 0 by {
                if i > 0 {
                    assert(s[i] == s.drop_first()[i - 1]);
                }
            }
        }
        if forall|i: int| 0 <= i < s.len() ==> #[trigger] s[i] == 0 {
            assert forall|i: int| 0 <= i < s.drop_first().len() implies #[trigger] s.drop_first()[i] == 0 by {
                assert(s.drop_first()[i] == s[i + 1]);
            }
        }
    }
}

/// One more low digit.
pub proof fn lemma_low_step(s: Seq<u8>, i: int)
    requires
        0 <= i,
    ensures
        low(s, i + 1) == low(s, i) + dig(s, i) * pow10(i as nat),
        low(s, s.len() as int) == dval(s),
{
    assert(s.take(s.len() as int) =~= s);
    if i < s.len() {
        assert(s.take(i + 1) =~= s.take(i).push(s[i]));
        lemma_dval_push(s.take(i), s[i]);
    } else {
        assert(dig(s, i) == 0);
    }
}

/// One more high digit.
pub proof fn lemma_high_step(s: Seq<u8>, k: int)
    requires
        0 <= k < s.len(),
    ensures
        high(s, k) == s[k] + 10 * high(s, k + 1),
        high(s, s.len() as int) == 0,
        high(s, 0) == dval(s),
{
    assert(s.subrange(k, s.len() as int).drop_first() =~= s.subrange(k + 1, s.len() as int));
    assert(s.subrange(0, s.len() as int) =~= s);
    assert(s.subrange(s.len() as int, s.len() as int) =~= Seq::<u8>::empty());
}

/// A natural number of any size.
#[derive(Debug)]
pub struct Big {
    pub digits: Vec<u8>,
}

impl Big {
    pub open spec fn val(self) -> nat {
        dval(self.digits@)
    }

    pub open spec fn wf(self) -> bool {
        digits_ok(self.digits@)
    }

    pub fn zero() -> (r: Big)
        ensures
            r.wf(),
            r.val() == 0,
    {
        Big { digits: Vec::new() }
    }

    /// A copy.
    pub fn duplicate(&self) -> (r: Big)
        ensures
            r.digits@ == self.digits@,
    {
        let mut d: Vec<u8> = Vec::new();
        let mut i: usize = 0;
        while i < self.digits.len()
            invariant
                i <= self.digits@.len(),
                d@ == self.digits@.take(i as int),
            decreases self.digits@.len() - i,
        {
            d.push(self.digits[i]);
            assert(self.digits@.take(i + 1) =~= self.digits@.take(i as int).push(self.digits@[i as int]));
            i = i + 1;
        }
        assert(self.digits@.take(self.digits@.len() as int) =~= self.digits@);
        Big { digits: d }
    }

    pub fn from_u64(x: u64) -> (r: Big)
        ensures
            r.wf(),
            r.val() == x,
    {
        let mut d: Vec<u8> = Vec::new();
        let mut rest: u64 = x;
        proof {
            assert(pow10(0) == 1);
        }
        while rest > 0
            invariant
                digits_ok(d@),
                dval(d@) + rest * pow10(d@.len()) == x,
            decreases rest,
        {
            let ghost old_d = d@;
            let digit = (rest % 10) as u8;
            proof {
                lemma_dval_push(old_d, digit);
                lemma_pow10_step(old_d.len());
                assert((rest % 10) * pow10(old_d.len()) + (rest / 10) * pow10(old_d.len() + 1) == rest * pow10(old_d.len()))
                    by (nonlinear_arith)
                    requires
                        pow10(old_d.len() + 1) == 10 * pow10(old_d.len()),
                ;
            }
            d.push(digit);
            rest = rest / 10;
        }
        Big { digits: d }
    }

    /// Whether every entry is a decimal digit.
    pub fn check(&self) -> (r: bool)
        ensures
            r == self.wf(),
    {
        let mut i: usize = 0;
        while i < self.digits.len()
            invariant
                i <= self.digits@.len(),
                forall|j: int| 0 <= j < i ==> #[trigger] self.digits@[j] < 10,
            decreases self.digits@.len() - i,
        {
            if self.digits[i] >= 10 {
                return false;
            }
            i = i + 1;
        }
        true
    }

    /// Ten to the power `k`.
    pub fn pow10(k: u64) -> (r: Big)
        ensures
            r.wf(),
            r.val() == pow10(k as nat),
    {
        let mut r = Big::from_u64(1);
        let mut i: u64 = 0;
        proof {
            assert(pow10(0) == 1);
        }
        while i < k
            invariant
                i <= k,
                r.wf(),
                r.val() == pow10(i as nat),
            decreases k - i,
        {
            proof {
                lemma_pow10_step(i as nat);
            }
            r.push_low(0);
            i = i + 1;
        }
        r
    }

    /// Whether the value is zero.
    pub fn is_zero(&self) -> (r: bool)
        ensures
            r == (self.val() == 0),
    {
        proof {
            lemma_dval_zero(self.digits@);
        }
        let mut i: usize = 0;
        while i < self.digits.len()
            invariant
                i <= self.digits@.len(),
                forall|j: int| 0 <= j < i ==> #[trigger] self.digits@[j] == 0,
            decreases self.digits@.len() - i,
        {
            if self.digits[i] != 0 {
                proof {
                    lemma_dval_ge_digit(self.digits@, i as int);
                }
                return false;
            }
            i = i + 1;
        }
        true
    }

    /// Ten times the value, plus the digit `d`.
    pub fn push_low(&mut self, d: u8)
        requires
            old(self).wf(),
            d < 10,
        ensures
            final(self).wf(),
            final(self).val() == d + 10 * old(self).val(),
    {
        let ghost s = self.digits@;
        self.digits.insert(0, d);
        assert(self.digits@.drop_first() =~= s);
    }

    /// The sum.
    pub fn add(&self, other: &Big) -> (r: Big)
        requires
            self.wf(),
            other.wf(),
        ensures
            r.wf(),
            r.val() == self.val() + other.val(),
    {
        let a = &self.digits;
        let b = &other.digits;
        let n = if a.len() > b.len() { a.len() } else { b.len() };
        let mut r: Vec<u8> = Vec::new();
        let mut carry: u8 = 0;
        let mut i: usize = 0;
        proof {
            assert(a@.take(0) =~= Seq::<u8>::empty());
            assert(b@.take(0) =~= Seq::<u8>::empty());
            assert(pow10(0) == 1);
        }
        while i < n
            invariant
                n == if a@.len() > b@.len() { a@.len() } else { b@.len() },
                digits_ok(a@),
                digits_ok(b@),
                i <= n,
                r@.len() == i,
                digits_ok(r@),
                carry <= 1,
                dval(r@) + carry * pow10(i as nat) == low(a@, i as int) + low(b@, i as int),
            decreases n - i,
        {
            let x: u8 = if i < a.len() { a[i] } else { 0 };
            let y: u8 = if i < b.len() { b[i] } else { 0 };
            let sum: u8 = x + y + carry;
            let ghost old_r = r@;
            let ghost p = pow10(i as nat);
            proof {
                lemma_low_step(a@, i as int);
                lemma_low_step(b@, i as int);
                lemma_dval_push(old_r, sum % 10);
                lemma_pow10_step(i as nat);
                assert(x == dig(a@, i as int) && y == dig(b@, i as int));
                assert(dval(old_r) + (sum % 10) * p + (sum / 10) * pow10((i + 1) as nat) == low(a@, i as int) + low(b@, i as int) + x * p + y * p)
                    by (nonlinear_arith)
                    requires
                        sum == x + y + carry,
                        pow10((i + 1) as nat) == 10 * p,
                        dval(old_r) + carry * p == low(a@, i as int) + low(b@, i as int),
                ;
            }
            r.push(sum % 10);
            carry = sum / 10;
            i = i + 1;
        }
        proof {
            lemma_low_step(a@, n as int);
            lemma_low_step(b@, n as int);
            assert(low(a@, n as int) == dval(a@));
            assert(low(b@, n as int) == dval(b@));
        }
        if carry > 0 {
            proof {
                lemma_dval_push(r@, carry);
            }
            r.push(carry);
        }
        Big { digits: r }
    }

    /// The difference, and whether `self` is below `other` (when it is,
    /// the digits returned are of no use).
    pub fn sub(&self, other: &Big) -> (r: (Big, bool))
        requires
            self.wf(),
            other.wf(),
        ensures
            r.0.wf(),
            r.1 == (self.val() < other.val()),
            !r.1 ==> r.0.val() == self.val() - other.val(),
    {
        let a = &self.digits;
        let b = &other.digits;
        let n = if a.len() > b.len() { a.len() } else { b.len() };
        let mut r: Vec<u8> = Vec::new();
        let mut borrow: u8 = 0;
        let mut i: usize = 0;
        proof {
            assert(a@.take(0) =~= Seq::<u8>::empty());
            assert(b@.take(0) =~= Seq::<u8>::empty());
            assert(pow10(0) == 1);
        }
        while i < n
            invariant
                n == if a@.len() > b@.len() { a@.len() } else { b@.len() },
                digits_ok(a@),
                digits_ok(b@),
                i <= n,
                r@.len() == i,
                digits_ok(r@),
                borrow <= 1,
                dval(r@) - borrow * pow10(i as nat) == low(a@, i as int) - low(b@, i as int),
            decreases n - i,
        {
            let x: u8 = if i < a.len() { a[i] } else { 0 };
            let y: u8 = if i < b.len() { b[i] } else { 0 };
            let ghost old_r = r@;
            let ghost p = pow10(i as nat);
            let (digit, nb): (u8, u8) = if x >= y + borrow {
                (x - y - borrow, 0)
            } else {
                (x + 10 - y - borrow, 1)
            };
            proof {
                lemma_low_step(a@, i as int);
                lemma_low_step(b@, i as int);
                lemma_dval_push(old_r, digit);
                lemma_pow10_step(i as nat);
                assert(x == dig(a@, i as int) && y == dig(b@, i as int));
                assert(dval(old_r) + digit * p - nb * pow10((i + 1) as nat) == low(a@, i as int) - low(b@, i as int) + x * p - y * p)
                    by (nonlinear_arith)
                    requires
                        digit == x - y - borrow + 10 * nb,
                        pow10((i + 1) as nat) == 10 * p,
                        dval(old_r) - borrow * p == low(a@, i as int) - low(b@, i as int),
                ;
            }
            r.push(digit);
            borrow = nb;
            i = i + 1;
        }
        proof {
            lemma_low_step(a@, n as int);
            lemma_low_step(b@, n as int);
            assert(low(a@, n as int) == dval(a@));
            assert(low(b@, n as int) == dval(b@));
            lemma_dval_bound(r@);
        }
        (Big { digits: r }, borrow == 1)
    }

    /// Whether the value is below that of `other`.
    pub fn less_than(&self, other: &Big) -> (r: bool)
        requires
            self.wf(),
            other.wf(),
        ensures
            r == (self.val() < other.val()),
    {
        self.sub(other).1
    }

    /// The product with the digit `m`.
    pub fn mul_digit(&self, m: u8) -> (r: Big)
        requires
            self.wf(),
            m < 10,
        ensures
            r.wf(),
            r.val() == self.val() * m,
    {
        let a = &self.digits;
        let n = a.len();
        let mut r: Vec<u8> = Vec::new();
        let mut carry: u8 = 0;
        let mut i: usize = 0;
        proof {
            assert(a@.take(0) =~= Seq::<u8>::empty());
            assert(pow10(0) == 1);
            assert(low(a@, 0) == 0);
            assert(dval(r@) == 0);
            assert(low(a@, 0) * m == 0);
        }
        while i < n
            invariant
                n == a@.len(),
                digits_ok(a@),
                m < 10,
                i <= n,
                r@.len() == i,
                digits_ok(r@),
                carry <= 8,
                dval(r@) + carry * pow10(i as nat) == low(a@, i as int) * m,
            decreases n - i,
        {
            let x: u8 = a[i];
            let ghost old_r = r@;
            let ghost p = pow10(i as nat);
            assert(x * m <= 81) by (nonlinear_arith)
                requires
                    x < 10,
                    m < 10,
            ;
            let sum: u8 = x * m + carry;
            proof {
                lemma_low_step(a@, i as int);
                lemma_dval_push(old_r, sum % 10);
                lemma_pow10_step(i as nat);
                assert(x == dig(a@, i as int));
                assert(dval(old_r) + (sum % 10) * p + (sum / 10) * pow10((i + 1) as nat) == low(a@, i as int) * m + x * m * p)
                    by (nonlinear_arith)
                    requires
                        sum == x * m + carry,
                        pow10((i + 1) as nat) == 10 * p,
                        dval(old_r) + carry * p == low(a@, i as int) * m,
                ;
                assert(low(a@, i + 1) * m == low(a@, i as int) * m + x * m * p) by (nonlinear_arith)
                    requires
                        low(a@, i + 1) == low(a@, i as int) + x * p,
                ;
            }
            r.push(sum % 10);
            carry = sum / 10;
            i = i + 1;
        }
        proof {
            lemma_low_step(a@, n as int);
        }
        if carry > 0 {
            proof {
                lemma_dval_push(r@, carry);
            }
            r.push(carry);
        }
        Big { digits: r }
    }

    /// The product.
    pub fn mul(&self, other: &Big) -> (r: Big)
        requires
            self.wf(),
            other.wf(),
        ensures
            r.wf(),
            r.val() == self.val() * other.val(),
    {
        let b = &other.digits;
        let mut acc = Big::zero();
        let mut j: usize = b.len();
        proof {
            assert(b@.subrange(b@.len() as int, b@.len() as int) =~= Seq::<u8>::empty());
            assert(high(b@, b@.len() as int) == 0);
            assert(self.val() * 0 == 0);
        }
        while j > 0
            invariant
                self.wf(),
                digits_ok(b@),
                j <= b@.len(),
                acc.wf(),
                acc.val() == self.val() * high(b@, j as int),
            decreases j,
        {
            j = j - 1;
            proof {
                lemma_high_step(b@, j as int);
            }
            acc.push_low(0);
            let t = self.mul_digit(b[j]);
            acc = acc.add(&t);
            proof {
                assert(acc.val() == self.val() * high(b@, j as int)) by (nonlinear_arith)
                    requires
                        acc.val() == 10 * (self.val() * high(b@, j + 1)) + self.val() * b@[j as int],
                        high(b@, j as int) == b@[j as int] + 10 * high(b@, j + 1),
                ;
            }
        }
        proof {
            if b@.len() > 0 {
                lemma_high_step(b@, 0);
            } else {
                assert(b@.subrange(0, 0) =~= Seq::<u8>::empty());
            }
        }
        acc
    }

    /// The quotient and remainder of the division by a nonzero `other`.
    pub fn divmod(&self, other: &Big) -> (r: (Big, Big))
        requires
            self.wf(),
            other.wf(),
            other.val() > 0,
        ensures
            r.0.wf(),
            r.1.wf(),
            r.0.val() * other.val() + r.1.val() == self.val(),
            r.1.val() < other.val(),
    {
        let a = &self.digits;
        let mut q = Big::zero();
        let mut rem = Big::zero();
        let mut j: usize = a.len();
        proof {
            assert(a@.subrange(a@.len() as int, a@.len() as int) =~= Seq::<u8>::empty());
        }
        while j > 0
            invariant
                other.wf(),
                other.val() > 0,
                digits_ok(a@),
                j <= a@.len(),
                q.wf(),
                rem.wf(),
                q.val() * other.val() + rem.val() == high(a@, j as int),
                rem.val() < other.val(),
            decreases j,
        {
            j = j - 1;
            proof {
                lemma_high_step(a@, j as int);
            }
            let ghost q0 = q.val();
            let ghost r0 = rem.val();
            rem.push_low(a[j]);
            let ghost big_r = rem.val();
            assert(big_r < 10 * other.val());
            let mut d: u8 = 0;
            let mut stop = false;
            while d < 9 && !stop
                invariant
                    d <= 9,
                    other.wf(),
                    rem.wf(),
                    rem.val() == big_r,
                    big_r < 10 * other.val(),
                    other.val() * d <= big_r,
                    stop ==> other.val() * (d + 1) > big_r,
                decreases 9 - d, if stop { 0int } else { 1int },
            {
                let t = other.mul_digit(d + 1);
                if rem.less_than(&t) {
                    stop = true;
                } else {
                    d = d + 1;
                }
            }
            proof {
                if d == 9 {
                    assert(other.val() * (d + 1) == other.val() * 10);
                }
            }
            let t = other.mul_digit(d);
            let (diff, _) = rem.sub(&t);
            rem = diff;
            q.push_low(d);
            proof {
                assert(other.val() * (d + 1) > big_r);
                assert(rem.val() == big_r - other.val() * d);
                assert(q.val() * other.val() + rem.val() == high(a@, j as int)) by (nonlinear_arith)
                    requires
                        q.val() == d + 10 * q0,
                        rem.val() == big_r - other.val() * d,
                        big_r == a@[j as int] + 10 * r0,
                        q0 * other.val() + r0 == high(a@, j + 1),
                        high(a@, j as int) == a@[j as int] + 10 * high(a@, j + 1),
                ;
                assert(rem.val() < other.val()) by (nonlinear_arith)
                    requires
                        rem.val() == big_r - other.val() * d,
                        other.val() * (d + 1) > big_r,
                ;
            }
        }
        proof {
            if a@.len() > 0 {
                lemma_high_step(a@, 0);
            } else {
                assert(a@.subrange(0, 0) =~= Seq::<u8>::empty());
            }
        }
        (q, rem)
    }

    /// The value, or `u64::MAX` when it is larger.
    pub fn to_u64_capped(&self) -> (r: u64)
        requires
            self.wf(),
        ensures
            r == (if self.val() < u64::MAX { self.val() } else { u64::MAX as nat }),
    {
        let a = &self.digits;
        let mut acc: u128 = 0;
        let mut j: usize = a.len();
        proof {
            assert(a@.subrange(a@.len() as int, a@.len() as int) =~= Seq::<u8>::empty());
        }
        while j > 0
            invariant
                digits_ok(a@),
                j <= a@.len(),
                acc == (if high(a@, j as int) < u64::MAX { high(a@, j as int) } else { u64::MAX as nat }),
            decreases j,
        {
            j = j - 1;
            proof {
                lemma_high_step(a@, j as int);
            }
            let next = acc * 10 + a[j] as u128;
            acc = if next < u64::MAX as u128 { next } else { u64::MAX as u128 };
        }
        proof {
            if a@.len() > 0 {
                lemma_high_step(a@, 0);
            } else {
                assert(a@.subrange(0, 0) =~= Seq::<u8>::empty());
            }
        }
        acc as u64
    }

    /// The decimal text of the value.
    pub fn to_text(&self) -> (r: Vec<char>)
        requires
            self.wf(),
        ensures
            r@ == nat_decimal(self.val()),
    {
        if self.is_zero() {
            proof {
                reveal_with_fuel(nat_decimal, 2);
            }
            return vec!['0'];
        }
        assert(self.digits@.len() > 0);
        proof {
            lemma_high_step(self.digits@, 0);
        }
        text_from(&self.digits, 0)
    }
}

/// Whether the digits of `s` from position `k` on are all zero.
fn zero_from(s: &Vec<u8>, k: usize) -> (r: bool)
    requires
        k <= s@.len(),
    ensures
        r == (high(s@, k as int) == 0),
{
    let ghost t = s@.subrange(k as int, s@.len() as int);
    proof {
        lemma_dval_zero(t);
    }
    let mut i = k;
    while i < s.len()
        invariant
            k <= i <= s@.len(),
            t == s@.subrange(k as int, s@.len() as int),
            forall|j: int| 0 <= j < i - k ==> #[trigger] t[j] == 0,
        decreases s@.len() - i,
    {
        if s[i] != 0 {
            assert(t[i - k] == s@[i as int]);
            proof {
                lemma_dval_ge_digit(t, i - k);
            }
            return false;
        }
        assert(t[i - k] == s@[i as int]);
        i = i + 1;
    }
    true
}

/// The decimal text of the digits of `s` from position `k` on.
fn text_from(s: &Vec<u8>, k: usize) -> (r: Vec<char>)
    requires
        digits_ok(s@),
        k < s@.len(),
    ensures
        r@ == nat_decimal(high(s@, k as int)),
    decreases s@.len() - k,
{
    proof {
        lemma_high_step(s@, k as int);
    }
    let n = s.len();
    let d = s[k];
    let c = ((d as u32) + ('0' as u32)) as u8 as char;
    assert(c == digit_char(d as int));
    if zero_from(s, k + 1) {
        assert(high(s@, k as int) == d);
        vec![c]
    } else {
        let ghost h = high(s@, k as int);
        assert(h >= 10);
        assert(h / 10 == high(s@, k + 1) && h % 10 == d);
        let mut r = text_from(s, k + 1);
        r.push(c);
        r
    }
}

} // verus!
