//! Exact non-negative rational numbers, used for frame rates and durations,
//! and the seek positions computed from them.

use vstd::prelude::*;
use vstd::arithmetic::div_mod::lemma_fundamental_div_mod;
use vstd::arithmetic::div_mod::lemma_fundamental_div_mod_converse;
use crate::text::{
    chars_of, decimal, digit_char, digit_of, parse_unsigned, pieces_view, push_decimal, split,
    split_chars, unsigned_number,
};

verus! {

/// The number `num / den`.  It is a number only when `den` is not zero.
#[derive(Debug, Clone, Copy, PartialEq, Eq, Structural)]
pub struct Ratio {
    pub num: u64,
    pub den: u64,
}

impl Ratio {
    /// Whether the ratio denotes a number.
    pub open spec fn wf(&self) -> bool {
        self.den > 0
    }

    /// Whether the ratio is at least the whole number `n`.
    pub open spec fn at_least(&self, n: nat) -> bool {
        self.num >= n * self.den
    }

    /// Whether the ratio is more than the whole number `n`.
    pub open spec fn more_than(&self, n: nat) -> bool {
        self.num > n * self.den
    }
}

/// Ten to the power `k`.
pub open spec fn pow10(k: nat) -> nat
    decreases k,
{
    if k == 0 {
        1
    } else {
        10 * pow10((k - 1) as nat)
    }
}

/// The most fraction digits a decimal number may have to be readable.
pub const MAX_FRACTION_DIGITS: usize = 19;

/// The number that a decimal string states: digits, optionally followed by
/// a point and more digits.  One side of the point may be empty, not both.
/// The digits taken together must fit in 64 bits, and there may be at most
/// nineteen after the point.
pub open spec fn decimal_number(text: Seq<char>) -> Option<Ratio> {
    let pieces = split(text, '.');
    if pieces.len() == 1 {
        match unsigned_number(pieces[0]) {
            Some(n) => Some(Ratio { num: n, den: 1 }),
            None => None,
        }
    } else if pieces.len() == 2 && pieces[1].len() <= MAX_FRACTION_DIGITS {
        match unsigned_number(pieces[0] + pieces[1]) {
            Some(n) => Some(Ratio { num: n, den: pow10(pieces[1].len()) as u64 }),
            None => None,
        }
    } else {
        None
    }
}

proof fn lemma_pow10_increasing(a: nat, b: nat)
    requires
        a <= b,
    ensures
        0 < pow10(a) <= pow10(b),
    decreases b,
{
    if b == 0 {
    } else if a == b {
        lemma_pow10_increasing((a - 1) as nat, (b - 1) as nat);
    } else {
        lemma_pow10_increasing(a, (b - 1) as nat);
    }
}

proof fn lemma_pow10_nineteen()
    ensures
        pow10(19) == 10_000_000_000_000_000_000,
{
    reveal_with_fuel(pow10, 20);
}

fn power_of_ten(k: usize) -> (p: u64)
    requires
        k <= MAX_FRACTION_DIGITS,
    ensures
        p == pow10(k as nat),
        p > 0,
{
    let mut p: u64 = 1;
    let mut j: usize = 0;
    while j < k
        invariant
            j <= k <= MAX_FRACTION_DIGITS,
            p == pow10(j as nat),
        decreases k - j,
    {
        proof {
            lemma_pow10_increasing((j + 1) as nat, 19);
            lemma_pow10_nineteen();
        }
        p = p * 10;
        j += 1;
    }
    proof {
        lemma_pow10_increasing(0, k as nat);
    }
    p
}

/// Reads the characters of a decimal string.
pub fn read_decimal(chars: &Vec<char>) -> (r: Option<Ratio>)
    ensures
        r == decimal_number(chars@),
        r matches Some(q) ==> q.wf(),
{
    let pieces = split_chars(chars, '.');
    assert(pieces_view(pieces@).len() == pieces@.len());
    if pieces.len() == 1 {
        assert(pieces_view(pieces@)[0] == pieces@[0]@);
        match parse_unsigned(&pieces[0]) {
            Some(n) => Some(Ratio { num: n, den: 1 }),
            None => None,
        }
    } else if pieces.len() == 2 && pieces[1].len() <= MAX_FRACTION_DIGITS {
        assert(pieces_view(pieces@)[0] == pieces@[0]@);
        assert(pieces_view(pieces@)[1] == pieces@[1]@);
        let mut digits: Vec<char> = pieces[0].clone();
        let fraction = &pieces[1];
        assert(digits@ =~= pieces@[0]@);
        let mut j: usize = 0;
        while j < fraction.len()
            invariant
                j <= fraction.len(),
                digits@ == pieces@[0]@ + fraction@.take(j as int),
            decreases fraction.len() - j,
        {
            digits.push(fraction[j]);
            assert(fraction@.take(j + 1) =~= fraction@.take(j as int).push(fraction@[j as int]));
            j += 1;
        }
        assert(fraction@.take(fraction.len() as int) =~= fraction@);
        match parse_unsigned(&digits) {
            Some(n) => Some(Ratio { num: n, den: power_of_ten(fraction.len()) }),
            None => None,
        }
    } else {
        None
    }
}

/// Reads a decimal string such as `12.345000`.
pub fn parse_decimal(text: &str) -> (r: Option<Ratio>)
    ensures
        r == decimal_number(text@),
        r matches Some(q) ==> q.wf(),
{
    let chars = chars_of(text);
    read_decimal(&chars)
}

/// The ratio `a / b` of two ratios, where the divisor is not zero and both
/// terms of the result fit in 64 bits.
pub open spec fn quotient(a: Ratio, b: Ratio) -> Option<Ratio> {
    if b.num != 0 && a.num * b.den <= u64::MAX && a.den * b.num <= u64::MAX {
        Some(Ratio { num: (a.num * b.den) as u64, den: (a.den * b.num) as u64 })
    } else {
        None
    }
}

/// The frame rate that a ratio string `N/D` states.  Splitting on `/` must
/// give exactly two pieces, each must be a decimal number, and the second
/// must not be zero.  Any other string states no rate.
pub open spec fn frame_rate_of(text: Seq<char>) -> Option<Ratio> {
    let pieces = split(text, '/');
    if pieces.len() == 2 {
        match (decimal_number(pieces[0]), decimal_number(pieces[1])) {
            (Some(a), Some(b)) => quotient(a, b),
            _ => None,
        }
    } else {
        None
    }
}

/// Divides one ratio by another.
pub fn divide(a: Ratio, b: Ratio) -> (r: Option<Ratio>)
    requires
        a.wf(),
    ensures
        r == quotient(a, b),
        r matches Some(q) ==> q.wf(),
{
    if b.num == 0 {
        return None;
    }
    assert(a.num * b.den <= 0xffff_ffff_ffff_ffff * 0xffff_ffff_ffff_ffff && a.den * b.num
        <= 0xffff_ffff_ffff_ffff * 0xffff_ffff_ffff_ffff) by (nonlinear_arith)
        requires
            a.num <= 0xffff_ffff_ffff_ffff,
            a.den <= 0xffff_ffff_ffff_ffff,
            b.num <= 0xffff_ffff_ffff_ffff,
            b.den <= 0xffff_ffff_ffff_ffff,
    ;
    let num: u128 = (a.num as u128) * (b.den as u128);
    let den: u128 = (a.den as u128) * (b.num as u128);
    if num <= u64::MAX as u128 && den <= u64::MAX as u128 {
        assert(a.den * b.num > 0) by (nonlinear_arith)
            requires
                a.den > 0,
                b.num > 0,
        ;
        Some(Ratio { num: num as u64, den: den as u64 })
    } else {
        None
    }
}

/// Reads a ratio string such as `30000/1001`.
pub fn parse_frame_rate(text: &str) -> (r: Option<Ratio>)
    ensures
        r == frame_rate_of(text@),
        r matches Some(rate) ==> rate.wf(),
{
    let chars = chars_of(text);
    let pieces = split_chars(&chars, '/');
    assert(pieces_view(pieces@).len() == pieces@.len());
    if pieces.len() != 2 {
        return None;
    }
    assert(pieces_view(pieces@)[0] == pieces@[0]@);
    assert(pieces_view(pieces@)[1] == pieces@[1]@);
    match (read_decimal(&pieces[0]), read_decimal(&pieces[1])) {
        (Some(a), Some(b)) => divide(a, b),
        _ => None,
    }
}

/// The rate to work with when a light probe reported `probed`: a rate of
/// ten or more is replaced by one.
pub open spec fn capped_from_ten(probed: Ratio) -> Ratio {
    if probed.at_least(10) {
        Ratio { num: 1, den: 1 }
    } else {
        probed
    }
}

/// The rate at which a whole sequence of frames is sampled when the source
/// has rate `probed`: a rate above ten is replaced by one.
pub open spec fn capped_above_ten(probed: Ratio) -> Ratio {
    if probed.more_than(10) {
        Ratio { num: 1, den: 1 }
    } else {
        probed
    }
}

/// Replaces a rate of ten or more by one.
pub fn cap_from_ten(probed: Ratio) -> (r: Ratio)
    ensures
        r == capped_from_ten(probed),
{
    if probed.num as u128 >= 10 * (probed.den as u128) {
        Ratio { num: 1, den: 1 }
    } else {
        probed
    }
}

/// Replaces a rate above ten by one.
pub fn cap_above_ten(probed: Ratio) -> (r: Ratio)
    ensures
        r == capped_above_ten(probed),
{
    if probed.num as u128 > 10 * (probed.den as u128) {
        Ratio { num: 1, den: 1 }
    } else {
        probed
    }
}

/// How a rate is written for the tool: a whole number alone, any other
/// rate as `N/D`.
pub open spec fn rate_text(rate: Ratio) -> Seq<char> {
    if rate.den == 1 {
        decimal(rate.num as nat)
    } else {
        decimal(rate.num as nat) + seq!['/'] + decimal(rate.den as nat)
    }
}

/// Appends `rate`, as the tool reads it, to `out`.
pub fn push_rate(out: &mut String, rate: Ratio)
    ensures
        final(out)@ == old(out)@ + rate_text(rate),
{
    let ghost before = out@;
    push_decimal(out, rate.num as u128);
    if rate.den != 1 {
        out.push('/');
        push_decimal(out, rate.den as u128);
        assert(out@ =~= before + rate_text(rate));
    }
}

/// The multiple of one thousandth nearest to `n / d`, counted in
/// thousandths.  A value exactly half way goes to the even neighbour.
pub open spec fn nearest_thousandths(n: nat, d: nat) -> nat {
    let below = (1000 * n) / d;
    let rest = (1000 * n) % d;
    if 2 * rest > d || (2 * rest == d && below % 2 == 1) {
        below + 1
    } else {
        below
    }
}

/// A count of thousandths written with three decimals: an optional minus
/// sign, the whole part, a point, and exactly three digits.
pub open spec fn fixed3(thousandths: int) -> Seq<char> {
    let magnitude = if thousandths < 0 {
        -thousandths
    } else {
        thousandths
    };
    let sign = if thousandths < 0 {
        seq!['-']
    } else {
        Seq::<char>::empty()
    };
    sign + decimal((magnitude / 1000) as nat) + seq![
        '.',
        digit_char(magnitude % 1000 / 100),
        digit_char(magnitude % 100 / 10),
        digit_char(magnitude % 10),
    ]
}

/// The seek position, in seconds with three decimals, for an offset given
/// in milliseconds.
pub open spec fn millis_seek(offset_ms: int) -> Seq<char> {
    fixed3(offset_ms)
}

/// The seek position, in seconds with three decimals, for a frame index
/// under the disk-mode convention: the index multiplied by the rate.
pub open spec fn frames_seek(index: int, rate: Ratio) -> Seq<char> {
    let magnitude = if index < 0 {
        -index
    } else {
        index
    };
    let thousandths = nearest_thousandths((magnitude * rate.num) as nat, rate.den as nat);
    fixed3(
        if index < 0 {
            -thousandths
        } else {
            thousandths as int
        },
    )
}

proof fn lemma_fixed3_parts(negative: bool, whole: int, fraction: int)
    requires
        0 <= whole,
        0 <= fraction < 1000,
        negative ==> whole > 0 || fraction > 0,
    ensures
        fixed3(
            if negative {
                -(whole * 1000 + fraction)
            } else {
                whole * 1000 + fraction
            },
        ) == (if negative {
            seq!['-']
        } else {
            Seq::<char>::empty()
        }) + decimal(whole as nat) + seq![
            '.',
            digit_char(fraction / 100),
            digit_char(fraction % 100 / 10),
            digit_char(fraction % 10),
        ],
{
    let magnitude: int = whole * 1000 + fraction;
    lemma_fundamental_div_mod_converse(magnitude, 1000, whole, fraction);
    assert(magnitude % 100 == fraction % 100) by {
        lemma_fundamental_div_mod(fraction, 100);
        lemma_fundamental_div_mod_converse(
            magnitude,
            100,
            whole * 10 + fraction / 100,
            fraction % 100,
        );
    }
    assert(magnitude % 10 == fraction % 10) by {
        lemma_fundamental_div_mod(fraction, 10);
        lemma_fundamental_div_mod_converse(
            magnitude,
            10,
            whole * 100 + fraction / 10,
            fraction % 10,
        );
    }
}

fn push_fixed3(out: &mut String, negative: bool, whole: u128, fraction: u16)
    requires
        fraction < 1000,
        negative ==> whole > 0 || fraction > 0,
    ensures
        final(out)@ == old(out)@ + fixed3(
            if negative {
                -(whole * 1000 + fraction)
            } else {
                whole * 1000 + fraction
            },
        ),
{
    let ghost before = out@;
    let ghost sign = if negative {
        seq!['-']
    } else {
        Seq::<char>::empty()
    };
    if negative {
        out.push('-');
    }
    assert(out@ =~= before + sign);
    push_decimal(out, whole);
    out.push('.');
    let hundreds = digit_of((fraction / 100) as u8);
    let tens = digit_of((fraction % 100 / 10) as u8);
    let ones = digit_of((fraction % 10) as u8);
    out.push(hundreds);
    out.push(tens);
    out.push(ones);
    proof {
        lemma_fixed3_parts(negative, whole as int, fraction as int);
        assert(out@ =~= before + (sign + decimal(whole as nat) + seq!['.', hundreds, tens, ones]));
    }
}

/// Writes the seek position for an offset in milliseconds.
pub fn millis_seek_text(offset_ms: i64) -> (out: String)
    ensures
        out@ == millis_seek(offset_ms as int),
{
    let mut out = String::new();
    let negative = offset_ms < 0;
    let magnitude: u128 = if negative {
        (-(offset_ms as i128)) as u128
    } else {
        offset_ms as u128
    };
    push_fixed3(&mut out, negative, magnitude / 1000, (magnitude % 1000) as u16);
    out
}

/// Writes the seek position for a frame index at the given rate.
pub fn frames_seek_text(index: i64, rate: Ratio) -> (out: String)
    requires
        rate.wf(),
    ensures
        out@ == frames_seek(index as int, rate),
{
    let magnitude: u128 = if index < 0 {
        (-(index as i128)) as u128
    } else {
        index as u128
    };
    let den: u128 = rate.den as u128;
    assert(magnitude * rate.num <= 0x8000_0000_0000_0000 * 0xffff_ffff_ffff_ffff) by (nonlinear_arith)
        requires
            magnitude <= 0x8000_0000_0000_0000,
            rate.num <= 0xffff_ffff_ffff_ffff,
    ;
    let scaled: u128 = magnitude * (rate.num as u128);
    let whole: u128 = scaled / den;
    let rest: u128 = scaled % den;
    let below: u128 = (rest * 1000) / den;
    let left: u128 = (rest * 1000) % den;
    proof {
        let n = scaled as int;
        let d = den as int;
        lemma_fundamental_div_mod(n, d);
        lemma_fundamental_div_mod(rest * 1000, d);
        assert(1000 * n == (whole * 1000 + below) * d + left) by (nonlinear_arith)
            requires
                n == d * whole + rest,
                rest * 1000 == d * below + left,
        ;
        lemma_fundamental_div_mod_converse(1000 * n, d, whole * 1000 + below, left as int);
        assert(below < 1000) by (nonlinear_arith)
            requires
                rest * 1000 == d * below + left,
                0 <= rest < d,
                0 <= left,
        ;
    }
    let up = 2 * left > den || (2 * left == den && below % 2 == 1);
    let mut shown_whole = whole;
    let mut shown_fraction: u16 = below as u16;
    if up {
        if below == 999 {
            shown_whole = whole + 1;
            shown_fraction = 0;
        } else {
            shown_fraction = (below + 1) as u16;
        }
    }
    let negative = index < 0 && (shown_whole > 0 || shown_fraction > 0);
    assert(shown_whole * 1000 + shown_fraction == nearest_thousandths(
        scaled as nat,
        den as nat,
    ));
    let mut out = String::new();
    push_fixed3(&mut out, negative, shown_whole, shown_fraction);
    out
}

} // verus!
