//! Exact decimal register scale factors (such as 0.1 or 0.01) and their text form.
use vstd::prelude::*;

use crate::text::{decimal, digit_char, push_char, push_decimal};

verus! {

/// 10 to the power `e`.
pub open spec fn pow10(e: nat) -> nat
    decreases e,
{
    if e == 0 {
        1
    } else {
        10 * pow10((e - 1) as nat)
    }
}

/// A decimal scale factor: `mantissa / 10^exponent`, negated when `negative`.
#[derive(Clone, Copy, Debug, PartialEq, Eq, Structural)]
pub struct ScaleDecimal {
    pub negative: bool,
    pub mantissa: u64,
    pub exponent: u8,
}

/// `s` left-padded with '0' to at least `width` characters.
pub open spec fn pad_zeros(s: Seq<char>, width: nat) -> Seq<char> {
    if s.len() >= width {
        s
    } else {
        Seq::new((width - s.len()) as nat, |i: int| '0') + s
    }
}

fn exec_pow10(e: u8) -> (r: u128)
    requires
        e <= 30,
    ensures
        r == pow10(e as nat),
{
    let mut r: u128 = 1;
    let mut i: u8 = 0;
    proof {
        reveal_with_fuel(pow10, 31);
        lemma_pow10_mono(0, 30);
        assert(pow10(30) == 1000000000000000000000000000000);
    }
    while i < e
        invariant
            i <= e <= 30,
            r == pow10(i as nat),
            r <= pow10(30),
            pow10(30) == 1000000000000000000000000000000,
        decreases e - i,
    {
        proof {
            lemma_pow10_mono(i as nat + 1, 30);
        }
        r = r * 10;
        i = i + 1;
    }
    r
}

/// `pow10` grows with its exponent.
pub proof fn lemma_pow10_mono(a: nat, b: nat)
    requires
        a <= b,
    ensures
        1 <= pow10(a) <= pow10(b),
    decreases b,
{
    if b > 0 {
        if a < b {
            lemma_pow10_mono(a, (b - 1) as nat);
        } else {
            lemma_pow10_mono((a - 1) as nat, (b - 1) as nat);
        }
    }
}

/// Beyond 10^30 every `u64` mantissa, even times 100, is below the power of ten.
proof fn lemma_large_exponent(e: nat)
    requires
        e > 30,
    ensures
        pow10(e) > 100 * 0xffff_ffff_ffff_ffffnat,
{
    reveal_with_fuel(pow10, 31);
    lemma_pow10_mono(30, e);
    assert(pow10(30) == 1000000000000000000000000000000);
}

impl ScaleDecimal {
    /// Whether the scale is exactly 1.
    pub open spec fn is_one(self) -> bool {
        !self.negative && self.mantissa == pow10(self.exponent as nat)
    }

    /// The number of decimal places to round a scaled value to: 0 for scales of at least 1,
    /// 1 for at least 0.1, 2 for at least 0.01, else (negative scales too) 3.
    pub open spec fn spec_precision(self) -> u8 {
        let p = pow10(self.exponent as nat);
        if self.negative {
            3
        } else if self.mantissa >= p {
            0
        } else if 10 * self.mantissa >= p {
            1
        } else if 100 * self.mantissa >= p {
            2
        } else {
            3
        }
    }

    /// The decimal text of the scale: a '-' when negative, then the mantissa's digits,
    /// zero-padded so that the point stands `exponent` places from the right ("1", "0.1",
    /// "-0.01", "10"). A scale read from the shortest text of a float prints as that text
    /// again.
    pub open spec fn text(self) -> Seq<char> {
        if self.negative {
            seq!['-'] + self.magnitude_text()
        } else {
            self.magnitude_text()
        }
    }

    /// The decimal text of the scale without its sign.
    pub open spec fn magnitude_text(self) -> Seq<char> {
        let e = self.exponent as nat;
        let padded = pad_zeros(decimal(self.mantissa as nat), e + 1);
        if e == 0 {
            padded
        } else {
            padded.take(padded.len() - e) + seq!['.'] + padded.skip(padded.len() - e)
        }
    }

    /// The scale of 1.
    pub fn one() -> (r: ScaleDecimal)
        ensures
            r.mantissa == 1 && r.exponent == 0 && !r.negative,
            r.is_one(),
    {
        ScaleDecimal { negative: false, mantissa: 1, exponent: 0 }
    }

    /// Whether the scale is exactly 1.
    pub fn exec_is_one(&self) -> (r: bool)
        ensures
            r == self.is_one(),
    {
        if self.negative {
            false
        } else if self.exponent > 30 {
            proof {
                lemma_large_exponent(self.exponent as nat);
            }
            false
        } else {
            (self.mantissa as u128) == exec_pow10(self.exponent)
        }
    }

    /// The number of decimal places a value scaled by this factor is rounded to.
    pub fn precision(&self) -> (r: u8)
        ensures
            r == self.spec_precision(),
    {
        if self.negative {
            return 3;
        }
        if self.exponent > 30 {
            proof {
                lemma_large_exponent(self.exponent as nat);
            }
            return 3;
        }
        let p = exec_pow10(self.exponent);
        let m = self.mantissa as u128;
        if m >= p {
            0
        } else if 10 * m >= p {
            1
        } else if 100 * m >= p {
            2
        } else {
            3
        }
    }

    /// Appends the decimal text of the scale.
    pub fn push_text(&self, out: &mut String)
        ensures
            final(out)@ == old(out)@ + self.text(),
    {
        if self.negative {
            push_char(out, '-');
        }
        self.push_magnitude(out);
        proof {
            if self.negative {
                assert(old(out)@ + self.text() =~= old(out)@ + seq!['-'] + self.magnitude_text());
            }
        }
    }

    /// Appends the decimal text of the scale without its sign.
    fn push_magnitude(&self, out: &mut String)
        ensures
            final(out)@ == old(out)@ + self.magnitude_text(),
    {
        let mut digits = String::new();
        push_decimal(&mut digits, self.mantissa);
        let d = digits.as_str();
        let len = d.unicode_len();
        let width: usize = self.exponent as usize + 1;
        let mut padded = String::new();
        let mut z: usize = 0;
        let zeros: usize = if len < width {
            width - len
        } else {
            0
        };
        while z < zeros
            invariant
                z <= zeros,
                padded@ == Seq::new(z as nat, |i: int| '0'),
            decreases zeros - z,
        {
            push_char(&mut padded, '0');
            assert(padded@ =~= Seq::new((z + 1) as nat, |i: int| '0'));
            z = z + 1;
        }
        let mut k: usize = 0;
        while k < len
            invariant
                k <= len,
                len == d@.len(),
                d@ == decimal(self.mantissa as nat),
                padded@ == Seq::new(zeros as nat, |i: int| '0') + d@.take(k as int),
            decreases len - k,
        {
            let c = d.get_char(k);
            push_char(&mut padded, c);
            assert(d@.take(k + 1) == d@.take(k as int).push(c));
            k = k + 1;
        }
        let ghost e = self.exponent as nat;
        assert(d@.take(len as int) == d@);
        assert(padded@ == pad_zeros(decimal(self.mantissa as nat), e + 1));
        let p = padded.as_str();
        let plen = p.unicode_len();
        let cut: usize = plen - (self.exponent as usize);
        let mut i: usize = 0;
        let ghost start = out@;
        while i < plen
            invariant
                i <= plen,
                plen == p@.len(),
                p@ == padded@,
                cut == plen - e,
                e == self.exponent,
                plen >= e + 1,
                i <= cut ==> out@ == start + p@.take(i as int),
                i > cut ==> e > 0 && out@ == start + p@.take(cut as int) + seq!['.'] + p@.subrange(cut as int, i as int),
            decreases plen - i,
        {
            if i == cut && self.exponent > 0 {
                push_char(out, '.');
            }
            let c = p.get_char(i);
            push_char(out, c);
            proof {
                if i < cut {
                    assert(p@.take(i + 1) == p@.take(i as int).push(c));
                } else if i == cut {
                    if e > 0 {
                        assert(p@.subrange(cut as int, i + 1) == seq![c]);
                    } else {
                        assert(p@.take(i + 1) == p@.take(i as int).push(c));
                    }
                } else {
                    assert(p@.subrange(cut as int, i + 1) == p@.subrange(cut as int, i as int).push(c));
                }
            }
            i = i + 1;
        }
        proof {
            if e == 0 {
                assert(p@.take(plen as int) == p@);
            } else {
                assert(p@.subrange(cut as int, plen as int) == p@.skip(cut as int));
            }
        }
    }
}

} // verus!

verus! {

pub open spec fn is_digit(c: char) -> bool {
    '0' <= c && c <= '9'
}

pub open spec fn digit_of(c: char) -> nat {
    (c as int - '0' as int) as nat
}

/// The number the decimal digits of `s` spell.
pub open spec fn digits_value(s: Seq<char>) -> nat
    decreases s.len(),
{
    if s.len() == 0 {
        0
    } else {
        digits_value(s.drop_last()) * 10 + digit_of(s.last())
    }
}

pub open spec fn all_digits(s: Seq<char>) -> bool {
    forall|i: int| 0 <= i < s.len() ==> is_digit(#[trigger] s[i])
}

/// The integer and fraction digits of a plain decimal number: digits, optionally followed
/// by '.' and at least one more digit.
pub open spec fn decimal_split(t: Seq<char>) -> Option<(Seq<char>, Seq<char>)> {
    if t.len() > 0 && all_digits(t) {
        Some((t, Seq::empty()))
    } else if exists|k: int|
        0 < k < t.len() - 1 && t[k] == '.' && all_digits(t.take(k)) && all_digits(t.skip(k + 1)) {
        let k = choose|k: int|
            0 < k < t.len() - 1 && t[k] == '.' && all_digits(t.take(k)) && all_digits(t.skip(k + 1));
        Some((t.take(k), t.skip(k + 1)))
    } else {
        None
    }
}

/// The scale a decimal text stands for: an optional '-', then a plain decimal number whose
/// digits fit a `u64` and whose fraction has at most 255 digits.
pub open spec fn parsed_scale(t: Seq<char>) -> Option<ScaleDecimal> {
    if t.len() > 0 && t[0] == '-' {
        parsed_magnitude(t.drop_first(), true)
    } else {
        parsed_magnitude(t, false)
    }
}

/// The scale an unsigned decimal text stands for, with the given sign.
pub open spec fn parsed_magnitude(t: Seq<char>, negative: bool) -> Option<ScaleDecimal> {
    match decimal_split(t) {
        Some((i, f)) => if f.len() <= 255 && digits_value(i + f) <= u64::MAX {
            Some(ScaleDecimal { negative, mantissa: digits_value(i + f) as u64, exponent: f.len() as u8 })
        } else {
            None
        },
        None => None,
    }
}

proof fn lemma_digits_value_prefix(s: Seq<char>, j: int)
    requires
        0 <= j <= s.len(),
    ensures
        digits_value(s.take(j)) <= digits_value(s),
    decreases s.len() - j,
{
    if j < s.len() {
        lemma_digits_value_prefix(s, j + 1);
        assert(s.take(j + 1).drop_last() == s.take(j));
    } else {
        assert(s.take(j) == s);
    }
}

fn exec_is_digit(c: char) -> (r: bool)
    ensures
        r == is_digit(c),
{
    '0' <= c && c <= '9'
}

impl ScaleDecimal {
    /// Reads a plain decimal number, as Rust prints a float ("1", "0.1", "-0.001", "10").
    pub fn parse(text: &str) -> (r: Option<ScaleDecimal>)
        ensures
            r == parsed_scale(text@),
    {
        let n = text.unicode_len();
        if n > 0 && text.get_char(0) == '-' {
            let rest = text.substring_char(1, n);
            assert(rest@ == text@.drop_first());
            Self::parse_magnitude(rest, true)
        } else {
            Self::parse_magnitude(text, false)
        }
    }

    fn parse_magnitude(text: &str, negative: bool) -> (r: Option<ScaleDecimal>)
        ensures
            r == parsed_magnitude(text@, negative),
    {
        let n = text.unicode_len();
        let ghost s = text@;
        let mut k: usize = 0;
        while k < n && exec_is_digit(text.get_char(k))
            invariant
                k <= n,
                n == s.len(),
                s == text@,
                all_digits(s.take(k as int)),
            decreases n - k,
        {
            assert(s.take(k + 1) == s.take(k as int).push(s[k as int]));
            k = k + 1;
        }
        if k == 0 {
            proof {
                if decimal_split(s) is Some {
                    if !(s.len() > 0 && all_digits(s)) {
                        let kk = choose|kk: int|
                            0 < kk < s.len() - 1 && s[kk] == '.' && all_digits(s.take(kk)) && all_digits(
                                s.skip(kk + 1),
                            );
                        assert(s.take(kk)[0] == s[0]);
                    } else if s.len() > 0 {
                        assert(is_digit(s[0]));
                    }
                }
            }
            return None;
        }
        let mut digits: Vec<char> = Vec::new();
        let mut i: usize = 0;
        while i < k
            invariant
                i <= k <= n,
                n == s.len(),
                s == text@,
                digits@ == s.take(i as int),
            decreases k - i,
        {
            digits.push(text.get_char(i));
            assert(s.take(i + 1) == s.take(i as int).push(s[i as int]));
            i = i + 1;
        }
        let mut frac: usize = 0;
        if k < n {
            if text.get_char(k) != '.' || k + 1 == n {
                proof {
                    assert(!is_digit(s[k as int]));
                    assert(!all_digits(s));
                    if exists|kk: int|
                        0 < kk < s.len() - 1 && s[kk] == '.' && all_digits(s.take(kk)) && all_digits(s.skip(kk + 1)) {
                        let kk = choose|kk: int|
                            0 < kk < s.len() - 1 && s[kk] == '.' && all_digits(s.take(kk)) && all_digits(
                                s.skip(kk + 1),
                            );
                        if kk < k {
                            assert(s.take(k as int)[kk] == s[kk]);
                        } else if kk > k {
                            assert(s.take(kk)[k as int] == s[k as int]);
                        }
                    }
                }
                return None;
            }
            let mut j: usize = k + 1;
            while j < n
                invariant
                    k + 1 <= j <= n,
                    0 < k,
                    k + 1 < n,
                    s[k as int] == '.',
                    all_digits(s.take(k as int)),
                    n == s.len(),
                    s == text@,
                    digits@ == s.take(k as int) + s.subrange(k + 1, j as int),
                    all_digits(s.subrange(k + 1, j as int)),
                decreases n - j,
            {
                let c = text.get_char(j);
                if !exec_is_digit(c) {
                    proof {
                        assert(!all_digits(s));
                        if exists|kk: int|
                            0 < kk < s.len() - 1 && s[kk] == '.' && all_digits(s.take(kk)) && all_digits(s.skip(kk + 1)) {
                            let kk = choose|kk: int|
                                0 < kk < s.len() - 1 && s[kk] == '.' && all_digits(s.take(kk)) && all_digits(
                                    s.skip(kk + 1),
                                );
                            if kk < k {
                                assert(s.take(k as int)[kk] == s[kk]);
                            } else if kk > k {
                                assert(s.take(kk)[k as int] == s[k as int]);
                            } else {
                                assert(s.skip(kk + 1)[j - kk - 1] == s[j as int]);
                            }
                        }
                        assert(decimal_split(s) is None);
                    }
                    return None;
                }
                digits.push(c);
                assert(s.subrange(k + 1, j + 1) == s.subrange(k + 1, j as int).push(c));
                j = j + 1;
            }
            frac = n - k - 1;
            proof {
                assert(s.subrange(k + 1, n as int) == s.skip(k + 1));
                assert(!is_digit(s[k as int]));
                assert(!all_digits(s));
                assert(0 < k < s.len() - 1 && s[k as int] == '.' && all_digits(s.take(k as int)) && all_digits(s.skip(k + 1)));
                let kk = choose|kk: int|
                    0 < kk < s.len() - 1 && s[kk] == '.' && all_digits(s.take(kk)) && all_digits(s.skip(kk + 1));
                if kk < k {
                    assert(s.take(k as int)[kk] == s[kk]);
                } else if kk > k {
                    assert(s.take(kk)[k as int] == s[k as int]);
                }
                assert(decimal_split(s) == Some((s.take(k as int), s.skip(k + 1))));
            }
            if frac > 255 {
                assert(parsed_magnitude(s, negative) is None);
                return None;
            }
        } else {
            proof {
                assert(s.take(k as int) == s);
                assert(s + Seq::<char>::empty() == s);
            }
        }
        let ghost d = digits@;
        assert(all_digits(d)) by {
            assert forall|x: int| 0 <= x < d.len() implies is_digit(#[trigger] d[x]) by {
                if x < k {
                    assert(d[x] == s.take(k as int)[x]);
                } else if k < n {
                    assert(d[x] == s.skip(k + 1)[x - k]);
                }
            }
        }
        assert(parsed_magnitude(s, negative) == (if digits_value(d) <= u64::MAX {
            Some(ScaleDecimal { negative, mantissa: digits_value(d) as u64, exponent: frac as u8 })
        } else {
            None
        }));
        let mut m: u128 = 0;
        let mut q: usize = 0;
        while q < digits.len()
            invariant
                q <= digits@.len(),
                s == text@,
                d == digits@,
                all_digits(d),
                parsed_magnitude(s, negative) == (if digits_value(d) <= u64::MAX {
                    Some(ScaleDecimal { negative, mantissa: digits_value(d) as u64, exponent: frac as u8 })
                } else {
                    None
                }),
                m == digits_value(d.take(q as int)),
                m <= u64::MAX,
            decreases digits@.len() - q,
        {
            let c = digits[q];
            let dv: u128 = (c as u32 - '0' as u32) as u128;
            let next = m * 10 + dv;
            assert(d.take(q + 1).drop_last() == d.take(q as int));
            assert(is_digit(d[q as int]));
            assert(next == digits_value(d.take(q + 1)));
            if next > 0xffff_ffff_ffff_ffff {
                proof {
                    lemma_digits_value_prefix(d, q + 1);
                }
                return None;
            }
            m = next;
            q = q + 1;
        }
        assert(d.take(d.len() as int) == d);
        Some(ScaleDecimal { negative, mantissa: m as u64, exponent: frac as u8 })
    }
}

} // verus!

verus! {

proof fn lemma_digit_char(d: int)
    requires
        0 <= d < 10,
    ensures
        is_digit(digit_char(d)),
        digit_of(digit_char(d)) == d,
{
    assert('0' as int == 48);
    if d == 0 {
    } else if d == 1 {
        assert('1' as int == 49);
    } else if d == 2 {
        assert('2' as int == 50);
    } else if d == 3 {
        assert('3' as int == 51);
    } else if d == 4 {
        assert('4' as int == 52);
    } else if d == 5 {
        assert('5' as int == 53);
    } else if d == 6 {
        assert('6' as int == 54);
    } else if d == 7 {
        assert('7' as int == 55);
    } else if d == 8 {
        assert('8' as int == 56);
    } else {
        assert('9' as int == 57);
    }
}

pub(crate) proof fn lemma_decimal_digits(n: nat)
    ensures
        all_digits(decimal(n)),
        digits_value(decimal(n)) == n,
        decimal(n).len() >= 1,
    decreases n,
{
    lemma_digit_char((n % 10) as int);
    if n < 10 {
        lemma_digit_char(n as int);
        assert(decimal(n) == seq![digit_char(n as int)]);
        assert(decimal(n).drop_last() == Seq::<char>::empty());
        assert(digits_value(Seq::<char>::empty()) == 0);
        assert(digits_value(decimal(n)) == digits_value(decimal(n).drop_last()) * 10 + digit_of(decimal(n).last()));
    }
    if n >= 10 {
        lemma_decimal_digits(n / 10);
        let prev = decimal(n / 10);
        let s = decimal(n);
        assert(s.drop_last() == prev);
        assert(s.last() == digit_char((n % 10) as int));
        assert(digits_value(s) == digits_value(prev) * 10 + digit_of(s.last()));
        assert forall|i: int| 0 <= i < s.len() implies is_digit(#[trigger] s[i]) by {
            if i < prev.len() {
                assert(s[i] == prev[i]);
            }
        }
    }
}

proof fn lemma_digits_value_concat(a: Seq<char>, b: Seq<char>)
    ensures
        digits_value(a + b) == digits_value(a) * pow10(b.len()) + digits_value(b),
    decreases b.len(),
{
    if b.len() == 0 {
        assert(a + b == a);
        assert(pow10(0) == 1);
        assert(digits_value(b) == 0);
        assert(digits_value(a) * 1 == digits_value(a));
    } else {
        lemma_digits_value_concat(a, b.drop_last());
        assert((a + b).drop_last() == a + b.drop_last());
        assert((a + b).last() == b.last());
        let x = digits_value(a);
        let p = pow10((b.len() - 1) as nat);
        assert(pow10(b.len()) == 10 * p);
        assert(digits_value(b) == digits_value(b.drop_last()) * 10 + digit_of(b.last()));
        assert(digits_value(a + b) == digits_value(a + b.drop_last()) * 10 + digit_of(b.last()));
        assert((x * p + digits_value(b.drop_last())) * 10 + digit_of(b.last()) == x * (10 * p) + (
        digits_value(b.drop_last()) * 10 + digit_of(b.last()))) by (nonlinear_arith);
    }
}

proof fn lemma_zeros_value(z: nat)
    ensures
        digits_value(Seq::new(z, |i: int| '0')) == 0,
        all_digits(Seq::new(z, |i: int| '0')),
    decreases z,
{
    if z > 0 {
        lemma_zeros_value((z - 1) as nat);
        assert(Seq::new(z, |i: int| '0').drop_last() == Seq::new((z - 1) as nat, |i: int| '0'));
    }
}

/// Law: a scale printed as text reads back as the same scale.
pub proof fn scale_text_round_trip(d: ScaleDecimal)
    ensures
        parsed_scale(d.text()) == Some(d),
{
    lemma_magnitude_round_trip(d);
    let m = d.magnitude_text();
    if d.negative {
        assert(d.text().drop_first() =~= m);
    } else {
        assert(is_digit(m[0]));
    }
}

/// The unsigned text of a scale reads back as the scale; it starts with a digit.
proof fn lemma_magnitude_round_trip(d: ScaleDecimal)
    ensures
        parsed_magnitude(d.magnitude_text(), d.negative) == Some(d),
        d.magnitude_text().len() > 0,
        is_digit(d.magnitude_text()[0]),
{
    let e = d.exponent as nat;
    let dec = decimal(d.mantissa as nat);
    lemma_decimal_digits(d.mantissa as nat);
    let padded = pad_zeros(dec, e + 1);
    let t = d.magnitude_text();
    assert(all_digits(padded) && digits_value(padded) == d.mantissa) by {
        if dec.len() < e + 1 {
            let z = (e + 1 - dec.len()) as nat;
            lemma_zeros_value(z);
            lemma_digits_value_concat(Seq::new(z, |i: int| '0'), dec);
            assert forall|i: int| 0 <= i < padded.len() implies is_digit(#[trigger] padded[i]) by {
                if i >= z {
                    assert(padded[i] == dec[i - z]);
                }
            }
        }
    }
    assert(padded.len() >= e + 1);
    if e == 0 {
        assert(t == padded);
        assert(padded + Seq::<char>::empty() == padded);
        assert(is_digit(padded[0]));
    } else {
        let k = padded.len() - e;
        let left = padded.take(k);
        let right = padded.skip(k);
        assert(t == left + seq!['.'] + right);
        assert(t[k] == '.');
        assert(t.take(k) == left);
        assert(t.skip(k + 1) == right);
        assert(all_digits(left)) by {
            assert forall|i: int| 0 <= i < left.len() implies is_digit(#[trigger] left[i]) by {
                assert(left[i] == padded[i]);
            }
        }
        assert(all_digits(right)) by {
            assert forall|i: int| 0 <= i < right.len() implies is_digit(#[trigger] right[i]) by {
                assert(right[i] == padded[k + i]);
            }
        }
        assert(!all_digits(t)) by {
            assert(!is_digit(t[k]));
        }
        let kk = choose|kk: int|
            0 < kk < t.len() - 1 && t[kk] == '.' && all_digits(t.take(kk)) && all_digits(t.skip(kk + 1));
        if kk < k {
            assert(t.take(k)[kk] == t[kk]);
        } else if kk > k {
            assert(t.take(kk)[k] == t[k]);
        }
        assert(left + right == padded);
        assert(t[0] == left[0]);
    }
}

} // verus!
