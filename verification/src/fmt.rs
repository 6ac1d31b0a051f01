//! Building message text: literals, decimal numbers and rationals.

use vstd::prelude::*;

use crate::big::Big;
use crate::num::Num;
use crate::text::chars_of;

verus! {

pub open spec fn digit_char(d: int) -> char {
    ('0' as int + d) as char
}

/// The decimal digits of a natural number.
pub open spec fn nat_decimal(n: nat) -> Seq<char>
    decreases n,
{
    if n < 10 {
        seq![digit_char(n as int)]
    } else {
        nat_decimal(n / 10).push(digit_char((n % 10) as int))
    }
}

/// The decimal text of an integer, with `-` for negatives.
pub open spec fn decimal(n: int) -> Seq<char> {
    if n < 0 {
        seq!['-'] + nat_decimal((-n) as nat)
    } else {
        nat_decimal(n as nat)
    }
}

/// Appends the literal `s`.
pub fn push_str(v: &mut Vec<char>, s: &str)
    ensures
        final(v)@ == old(v)@ + s@,
{
    let mut c = chars_of(s);
    v.append(&mut c);
}

/// Appends the characters of `s`.
pub fn push_chars(v: &mut Vec<char>, s: &Vec<char>)
    ensures
        final(v)@ == old(v)@ + s@,
{
    let mut i: usize = 0;
    while i < s.len()
        invariant
            i <= s@.len(),
            v@ == old(v)@ + s@.subrange(0, i as int),
        decreases s@.len() - i,
    {
        v.push(s[i]);
        assert(s@.subrange(0, i + 1) =~= s@.subrange(0, i as int).push(s@[i as int]));
        i = i + 1;
    }
    assert(s@.subrange(0, s@.len() as int) =~= s@);
}

fn nat_digits(n: u128) -> (r: Vec<char>)
    ensures
        r@ == nat_decimal(n as nat),
    decreases n,
{
    if n < 10 {
        let d = ((n as u32) + ('0' as u32)) as u8 as char;
        vec![d]
    } else {
        let mut r = nat_digits(n / 10);
        let d = (((n % 10) as u32) + ('0' as u32)) as u8 as char;
        r.push(d);
        r
    }
}

/// The decimal text of `n`.
pub fn decimal_of(n: i64) -> (r: Vec<char>)
    ensures
        r@ == decimal(n as int),
{
    if n < 0 {
        let m = (-(n as i128)) as u128;
        let mut r = vec!['-'];
        let mut d = nat_digits(m);
        r.append(&mut d);
        r
    } else {
        nat_digits(n as u128)
    }
}

/// Appends the decimal text of `n`.
pub fn push_decimal(v: &mut Vec<char>, n: i64)
    ensures
        final(v)@ == old(v)@ + decimal(n as int),
{
    let mut d = decimal_of(n);
    v.append(&mut d);
}

/// The first `k` fractional digits of `r / d` (for `0 <= r < d`), truncated.
pub open spec fn fraction_digits(r: nat, d: nat, k: nat) -> Seq<char>
    decreases k,
{
    if k == 0 || d == 0 {
        Seq::empty()
    } else {
        seq![digit_char(((r * 10) / d) as int)] + fraction_digits((r * 10) % d, d, (k - 1) as nat)
    }
}

/// The sequence without its trailing `'0'` characters.
pub open spec fn trim_zeros(s: Seq<char>) -> Seq<char>
    decreases s.len(),
{
    if s.len() > 0 && s.last() == '0' {
        trim_zeros(s.drop_last())
    } else {
        s
    }
}

/// The text of a rational: the integer part, and when there is a remainder a
/// point and at most sixteen fractional digits, truncated, without trailing zeros.
pub open spec fn rational_text(n: int, d: int) -> Seq<char> {
    let a = if n < 0 { -n } else { n };
    let sign = if n < 0 { seq!['-'] } else { Seq::empty() };
    let frac = trim_zeros(fraction_digits((a % d) as nat, d as nat, 16));
    if frac.len() == 0 {
        sign + nat_decimal((a / d) as nat)
    } else {
        sign + nat_decimal((a / d) as nat) + seq!['.'] + frac
    }
}

fn digit_of(q: u64) -> (c: char)
    requires
        q < 10,
    ensures
        c == digit_char(q as int),
{
    match q {
        0 => '0',
        1 => '1',
        2 => '2',
        3 => '3',
        4 => '4',
        5 => '5',
        6 => '6',
        7 => '7',
        8 => '8',
        _ => '9',
    }
}

/// The first sixteen fractional digits of `rem / d`.
fn fraction_of(rem0: Big, d: &Big) -> (r: Vec<char>)
    requires
        d.wf(),
        d.val() > 0,
        rem0.wf(),
        rem0.val() < d.val(),
    ensures
        r@ == fraction_digits(rem0.val(), d.val(), 16),
{
    let mut frac: Vec<char> = Vec::new();
    let mut rem = rem0;
    let mut k: u32 = 0;
    while k < 16
        invariant
            k <= 16,
            d.wf(),
            d.val() > 0,
            rem.wf(),
            rem.val() < d.val(),
            fraction_digits(rem0.val(), d.val(), 16) == frac@ + fraction_digits(rem.val(), d.val(), (16 - k) as nat),
        decreases 16 - k,
    {
        let ghost r0 = rem.val();
        rem.push_low(0);
        let (q, r1) = rem.divmod(d);
        proof {
            vstd::arithmetic::div_mod::lemma_fundamental_div_mod_converse(
                (r0 * 10) as int,
                d.val() as int,
                q.val() as int,
                r1.val() as int,
            );
            assert(q.val() < 10) by (nonlinear_arith)
                requires
                    q.val() * d.val() + r1.val() == r0 * 10,
                    r0 < d.val(),
                    d.val() > 0,
            ;
        }
        let digit = digit_of(q.to_u64_capped());
        let ghost old_frac = frac@;
        frac.push(digit);
        rem = r1;
        assert(fraction_digits(r0, d.val(), (16 - k) as nat) == seq![digit] + fraction_digits(
            rem.val(),
            d.val(),
            (16 - k - 1) as nat,
        ));
        assert(old_frac + (seq![digit] + fraction_digits(rem.val(), d.val(), (16 - k - 1) as nat)) =~= frac@
            + fraction_digits(rem.val(), d.val(), (16 - k - 1) as nat));
        k = k + 1;
    }
    assert(frac@ + fraction_digits(rem.val(), d.val(), 0) =~= frac@);
    frac
}

/// Appends the text of a rational (see `rational_text`).
pub fn push_num(v: &mut Vec<char>, x: &Num)
    requires
        x.wf(),
    ensures
        final(v)@ == old(v)@ + rational_text(x.pair().0, x.pair().1),
{
    let (q, r) = x.mag.divmod(&x.den);
    let ghost a = x.mag.val() as int;
    let ghost du = x.den.val() as int;
    proof {
        vstd::arithmetic::div_mod::lemma_fundamental_div_mod_converse(a, du, q.val() as int, r.val() as int);
    }
    let negative = x.is_negative();
    let mut out: Vec<char> = Vec::new();
    if negative {
        out.push('-');
    }
    let mut ip = q.to_text();
    out.append(&mut ip);
    let mut frac = fraction_of(r, &x.den);
    let ghost fr = frac@;
    let mut end = frac.len();
    assert(frac@.subrange(0, end as int) =~= frac@);
    while end > 0 && frac[end - 1] == '0'
        invariant
            end <= frac@.len(),
            frac@ == fr,
            trim_zeros(fr) == trim_zeros(fr.subrange(0, end as int)),
        decreases end,
    {
        assert(fr.subrange(0, end as int).drop_last() =~= fr.subrange(0, end - 1));
        end = end - 1;
    }
    frac.truncate(end);
    assert(frac@ =~= fr.subrange(0, end as int));
    assert(trim_zeros(frac@) == frac@);
    let ghost kept = frac@;
    if end > 0 {
        out.push('.');
        out.append(&mut frac);
    }
    proof {
        let n = x.pair().0;
        assert(n < 0 <==> negative);
        assert((if n < 0 { -n } else { n }) == a);
        let sign = if n < 0 { seq!['-'] } else { Seq::<char>::empty() };
        if end > 0 {
            assert(out@ =~= sign + nat_decimal((a / du) as nat) + seq!['.'] + kept);
        } else {
            assert(out@ =~= sign + nat_decimal((a / du) as nat));
        }
    }
    v.append(&mut out);
}

/// The characters of `a`, then `b`, then `c`.
pub fn wrap_chars(a: &str, b: &Vec<char>, c: &str) -> (r: Vec<char>)
    ensures
        r@ == a@ + b@ + c@,
{
    let mut r = chars_of(a);
    push_chars(&mut r, b);
    push_str(&mut r, c);
    r
}

} // verus!
