//! Decimal amounts and their string form on the wire.
//!
//! The gateway sends amounts and quantities as JSON strings such as `"123.45"`.
//! A [`Decimal`] holds such a value exactly, as an integer mantissa and a count
//! of fractional digits, so that reading back what was written gives the same
//! value.
use vstd::prelude::*;

use crate::text::{chars_of, push_char};

verus! {

/// A decimal number `mantissa * 10^-scale`.
///
/// `scale` is the number of digits written after the decimal point, so
/// `Decimal { mantissa: 12345, scale: 2 }` is `123.45` and
/// `Decimal { mantissa: 100, scale: 0 }` is `100`.
#[derive(Clone, Copy, Debug, PartialEq, Eq, Structural)]
pub struct Decimal {
    pub mantissa: i64,
    pub scale: u32,
}

/// Why a field of the wire format could not be read.
#[derive(Clone, Copy, Debug, PartialEq, Eq, Structural)]
pub enum DecodeError {
    /// The text is not a decimal number that a [`Decimal`] can hold.
    MalformedNumber,
    /// The text is neither an RFC 3339 timestamp nor a `YYYY-MM-DD` date.
    MalformedTimestamp,
    /// The document is not JSON, or lacks a member, or holds a value of
    /// another kind than the field asks for.
    MalformedResponse,
}

pub open spec fn is_digit(c: char) -> bool {
    '0' <= c && c <= '9'
}

pub open spec fn digit_value(c: char) -> nat {
    (c as int - '0' as int) as nat
}

pub open spec fn digit_char(d: nat) -> char {
    if d == 0 { '0' }
    else if d == 1 { '1' }
    else if d == 2 { '2' }
    else if d == 3 { '3' }
    else if d == 4 { '4' }
    else if d == 5 { '5' }
    else if d == 6 { '6' }
    else if d == 7 { '7' }
    else if d == 8 { '8' }
    else { '9' }
}

pub open spec fn all_digits(s: Seq<char>) -> bool {
    forall|i: int| 0 <= i < s.len() ==> is_digit(#[trigger] s[i])
}

/// The number that a string of decimal digits denotes.
pub open spec fn digits_value(s: Seq<char>) -> nat
    decreases s.len(),
{
    if s.len() == 0 {
        0
    } else {
        digits_value(s.drop_last()) * 10 + digit_value(s.last())
    }
}

/// The decimal digits of `n`, most significant first, without leading zeros.
pub open spec fn nat_digits(n: nat) -> Seq<char>
    decreases n,
{
    if n < 10 {
        seq![digit_char(n)]
    } else {
        nat_digits(n / 10).push(digit_char(n % 10))
    }
}

/// `k` zero digits.
pub open spec fn zeros(k: nat) -> Seq<char> {
    Seq::new(k, |i: int| '0')
}

/// `s` with zeros put in front until it is `width` long.
pub open spec fn pad_left(s: Seq<char>, width: nat) -> Seq<char> {
    if s.len() >= width {
        s
    } else {
        zeros((width - s.len()) as nat) + s
    }
}

pub open spec fn magnitude(m: i64) -> nat {
    if m < 0 { (-(m as int)) as nat } else { m as nat }
}

/// The digits of `mag` with a point put before the last `scale` of them.
pub open spec fn unsigned_text(mag: nat, scale: nat) -> Seq<char> {
    let ds = pad_left(nat_digits(mag), scale + 1);
    let cut = ds.len() - scale;
    if scale == 0 {
        ds
    } else {
        ds.subrange(0, cut) + seq!['.'] + ds.subrange(cut, ds.len() as int)
    }
}

/// The canonical text of a decimal: an optional `-`, at least one integer
/// digit, and exactly `scale` fractional digits after a point when `scale > 0`.
pub open spec fn decimal_text(d: Decimal) -> Seq<char> {
    if d.mantissa < 0 {
        seq!['-'] + unsigned_text(magnitude(d.mantissa), d.scale as nat)
    } else {
        unsigned_text(magnitude(d.mantissa), d.scale as nat)
    }
}

/// Whether the text starts with a minus sign.
pub open spec fn has_minus(s: Seq<char>) -> bool {
    s.len() > 0 && s[0] == '-'
}

/// The text after an optional minus sign.
pub open spec fn unsigned_part(s: Seq<char>) -> Seq<char> {
    if has_minus(s) { s.drop_first() } else { s }
}

/// How many digits `b` holds from position `j` on before the first other character.
pub open spec fn digit_run(b: Seq<char>, j: int) -> nat
    decreases b.len() - j,
{
    if 0 <= j < b.len() && is_digit(b[j]) {
        1 + digit_run(b, j + 1)
    } else {
        0
    }
}

/// The fractional digits of an unsigned decimal text: what follows its point.
pub open spec fn frac_digits(b: Seq<char>) -> Seq<char> {
    let p = digit_run(b, 0) as int;
    if p < b.len() {
        b.subrange(p + 1, b.len() as int)
    } else {
        Seq::empty()
    }
}

/// Whether `b` is one or more digits, then optionally a point and one or more digits.
pub open spec fn unsigned_syntax(b: Seq<char>) -> bool {
    let p = digit_run(b, 0) as int;
    &&& p > 0
    &&& p == b.len() || (b[p] == '.' && p + 1 < b.len() && all_digits(frac_digits(b)))
}

/// The magnitude that an unsigned decimal text denotes, ignoring its point.
pub open spec fn text_magnitude(b: Seq<char>) -> nat {
    digits_value(b.subrange(0, digit_run(b, 0) as int) + frac_digits(b))
}

pub open spec fn text_value(s: Seq<char>) -> int {
    let mag = text_magnitude(unsigned_part(s));
    if has_minus(s) { -(mag as int) } else { mag as int }
}

/// Whether `s` is the text of a decimal that a [`Decimal`] can hold.
pub open spec fn is_decimal_text(s: Seq<char>) -> bool {
    &&& unsigned_syntax(unsigned_part(s))
    &&& frac_digits(unsigned_part(s)).len() <= u32::MAX
    &&& i64::MIN <= text_value(s) <= i64::MAX
}

/// The decimal that a text satisfying [`is_decimal_text`] denotes.
pub open spec fn text_decimal(s: Seq<char>) -> Decimal {
    Decimal {
        mantissa: text_value(s) as i64,
        scale: frac_digits(unsigned_part(s)).len() as u32,
    }
}

#[verifier::opaque]
pub open spec fn decode_spec(s: Seq<char>) -> Result<Decimal, DecodeError> {
    if is_decimal_text(s) {
        Ok(text_decimal(s))
    } else {
        Err(DecodeError::MalformedNumber)
    }
}

pub proof fn lemma_digit_char(d: nat)
    requires
        d < 10,
    ensures
        is_digit(digit_char(d)),
        digit_value(digit_char(d)) == d,
{
}

pub proof fn lemma_nat_digits(n: nat)
    ensures
        all_digits(nat_digits(n)),
        digits_value(nat_digits(n)) == n,
        nat_digits(n).len() >= 1,
    decreases n,
{
    if n < 10 {
        lemma_digit_char(n);
        assert(nat_digits(n).drop_last() =~= Seq::<char>::empty());
        assert(digits_value(Seq::<char>::empty()) == 0);
    } else {
        lemma_nat_digits(n / 10);
        lemma_digit_char(n % 10);
        let s = nat_digits(n);
        assert(s.drop_last() =~= nat_digits(n / 10));
        assert(s.last() == digit_char(n % 10));
        assert(digits_value(s) == digits_value(nat_digits(n / 10)) * 10 + n % 10);
        assert(n == (n / 10) * 10 + n % 10);
        assert forall|i: int| 0 <= i < s.len() implies is_digit(#[trigger] s[i]) by {
            if i < s.len() - 1 {
                assert(s[i] == nat_digits(n / 10)[i]);
            }
        }
    }
}

proof fn lemma_zeros_value(k: nat)
    ensures
        digits_value(zeros(k)) == 0,
    decreases k,
{
    if k > 0 {
        lemma_zeros_value((k - 1) as nat);
        assert(zeros(k).drop_last() =~= zeros((k - 1) as nat));
    }
}

/// Zeros in front do not change the value of a digit string.
pub proof fn lemma_leading_zeros(z: nat, s: Seq<char>)
    ensures
        digits_value(zeros(z) + s) == digits_value(s),
    decreases s.len(),
{
    let zs = zeros(z);
    if s.len() == 0 {
        assert(zs + s =~= zs);
        lemma_zeros_value(z);
    } else {
        lemma_leading_zeros(z, s.drop_last());
        assert((zs + s).drop_last() =~= zs + s.drop_last());
    }
}

/// A prefix of a digit string never denotes more than the whole.
pub proof fn lemma_prefix_value_le(s: Seq<char>, i: int)
    requires
        0 <= i <= s.len(),
    ensures
        digits_value(s.subrange(0, i)) <= digits_value(s),
    decreases s.len(),
{
    if i == s.len() {
        assert(s.subrange(0, i) =~= s);
    } else {
        lemma_prefix_value_le(s.drop_last(), i);
        assert(s.drop_last().subrange(0, i) =~= s.subrange(0, i));
    }
}

proof fn lemma_digit_run_all(b: Seq<char>, j: int, p: int)
    requires
        0 <= j <= p <= b.len(),
        forall|k: int| j <= k < p ==> is_digit(#[trigger] b[k]),
        p == b.len() || !is_digit(b[p]),
    ensures
        digit_run(b, j) == p - j,
    decreases p - j,
{
    if j < p {
        lemma_digit_run_all(b, j + 1, p);
    }
}

proof fn lemma_pad_left(s: Seq<char>, width: nat)
    requires
        all_digits(s),
    ensures
        all_digits(pad_left(s, width)),
        pad_left(s, width).len() >= width,
        pad_left(s, width).len() >= s.len(),
        digits_value(pad_left(s, width)) == digits_value(s),
{
    if s.len() < width {
        let z = (width - s.len()) as nat;
        lemma_leading_zeros(z, s);
        let t = pad_left(s, width);
        assert forall|i: int| 0 <= i < t.len() implies is_digit(#[trigger] t[i]) by {
            if i >= z {
                assert(t[i] == s[i - z]);
            }
        }
    }
}

/// Reading the canonical text of an unsigned value gives back its digits and scale.
proof fn lemma_unsigned_text(mag: nat, scale: nat)
    ensures
        unsigned_syntax(unsigned_text(mag, scale)),
        text_magnitude(unsigned_text(mag, scale)) == mag,
        frac_digits(unsigned_text(mag, scale)).len() == scale,
        unsigned_text(mag, scale).len() > 0,
        unsigned_text(mag, scale)[0] != '-',
{
    lemma_nat_digits(mag);
    lemma_pad_left(nat_digits(mag), scale + 1);
    let ds = pad_left(nat_digits(mag), scale + 1);
    let cut = ds.len() - scale;
    let b = unsigned_text(mag, scale);
    assert(is_digit(ds[0]));
    if scale == 0 {
        lemma_digit_run_all(b, 0, b.len() as int);
        assert(b.subrange(0, b.len() as int) =~= b);
        assert(frac_digits(b) =~= Seq::<char>::empty());
        assert(b.subrange(0, b.len() as int) + frac_digits(b) =~= ds);
    } else {
        let a = ds.subrange(0, cut);
        let f = ds.subrange(cut, ds.len() as int);
        assert(b == a + seq!['.'] + f);
        assert forall|k: int| 0 <= k < cut implies is_digit(#[trigger] b[k]) by {
            assert(b[k] == ds[k]);
        }
        assert(b[cut] == '.');
        lemma_digit_run_all(b, 0, cut);
        assert(b.subrange(0, cut) =~= a);
        assert(frac_digits(b) =~= f);
        assert forall|k: int| 0 <= k < f.len() implies is_digit(#[trigger] f[k]) by {
            assert(f[k] == ds[cut + k]);
        }
        assert(a + f =~= ds);
    }
}

/// Reading back the text that [`encode_decimal`] writes gives the same decimal.
pub proof fn lemma_decimal_round_trip(d: Decimal)
    ensures
        decode_spec(decimal_text(d)) == Ok::<Decimal, DecodeError>(d),
{
    reveal(decode_spec);
    let mag = magnitude(d.mantissa);
    lemma_unsigned_text(mag, d.scale as nat);
    let u = unsigned_text(mag, d.scale as nat);
    let s = decimal_text(d);
    if d.mantissa < 0 {
        assert(has_minus(s));
        assert(unsigned_part(s) =~= u);
    } else {
        assert(!has_minus(s));
        assert(unsigned_part(s) == u);
    }
}

/// Appends the decimal digits of `n` to `out`.
fn push_digits(n: u64, out: &mut Vec<char>)
    ensures
        final(out)@ == old(out)@ + nat_digits(n as nat),
    decreases n,
{
    if n >= 10 {
        push_digits(n / 10, out);
    }
    out.push(digit_of(n % 10));
    assert(final(out)@ =~= old(out)@ + nat_digits(n as nat));
}

fn digit_of(d: u64) -> (c: char)
    requires
        d < 10,
    ensures
        c == digit_char(d as nat),
{
    if d == 0 { '0' }
    else if d == 1 { '1' }
    else if d == 2 { '2' }
    else if d == 3 { '3' }
    else if d == 4 { '4' }
    else if d == 5 { '5' }
    else if d == 6 { '6' }
    else if d == 7 { '7' }
    else if d == 8 { '8' }
    else { '9' }
}

/// The digits of `mag` with zeros in front, at least `scale + 1` of them.
fn padded_digits(mag: u64, scale: usize) -> (ds: Vec<char>)
    ensures
        ds@ == pad_left(nat_digits(mag as nat), (scale + 1) as nat),
        ds@.len() >= scale + 1,
{
    let mut digits: Vec<char> = Vec::new();
    push_digits(mag, &mut digits);
    assert(digits@ =~= nat_digits(mag as nat));
    proof {
        lemma_nat_digits(mag as nat);
    }
    let nz: usize = if digits.len() <= scale { scale - digits.len() + 1 } else { 0 };
    let mut ds: Vec<char> = Vec::new();
    let mut z: usize = 0;
    while z < nz
        invariant
            z <= nz,
            ds@ == zeros(z as nat),
        decreases nz - z,
    {
        ds.push('0');
        z = z + 1;
        assert(ds@ =~= zeros(z as nat));
    }
    let mut k: usize = 0;
    while k < digits.len()
        invariant
            k <= digits.len(),
            ds@ == zeros(nz as nat) + digits@.subrange(0, k as int),
        decreases digits.len() - k,
    {
        ds.push(digits[k]);
        k = k + 1;
        assert(ds@ =~= zeros(nz as nat) + digits@.subrange(0, k as int));
    }
    assert(digits@.subrange(0, digits.len() as int) =~= digits@);
    if digits.len() > scale {
        assert(ds@ =~= digits@);
    }
    assert(ds@ =~= pad_left(nat_digits(mag as nat), (scale + 1) as nat));
    ds
}

/// Appends `ds[from..to]` to `out`.
fn push_range(out: &mut String, ds: &Vec<char>, from: usize, to: usize)
    requires
        from <= to <= ds@.len(),
    ensures
        final(out)@ == old(out)@ + ds@.subrange(from as int, to as int),
{
    let mut i: usize = from;
    while i < to
        invariant
            from <= i <= to,
            to <= ds@.len(),
            out@ == old(out)@ + ds@.subrange(from as int, i as int),
        decreases to - i,
    {
        push_char(out, ds[i]);
        i = i + 1;
        assert(out@ =~= old(out)@ + ds@.subrange(from as int, i as int));
    }
}

/// Writes the canonical text of `value`: `123.45`, `-0.5`, `100`.
pub fn encode_decimal(value: Decimal) -> (r: String)
    ensures
        r@ == decimal_text(value),
{
    let neg = value.mantissa < 0;
    let mag: u64 = if neg {
        (0i128 - value.mantissa as i128) as u64
    } else {
        value.mantissa as u64
    };
    assert(mag as nat == magnitude(value.mantissa));
    let scale = value.scale as usize;
    let ds = padded_digits(mag, scale);
    let mut out = String::new();
    if neg {
        push_char(&mut out, '-');
    }
    let ghost sign: Seq<char> = if neg { seq!['-'] } else { Seq::empty() };
    assert(out@ =~= sign);
    let cut = ds.len() - scale;
    push_range(&mut out, &ds, 0, cut);
    if scale > 0 {
        push_char(&mut out, '.');
        push_range(&mut out, &ds, cut, ds.len());
    } else {
        assert(ds@.subrange(0, cut as int) =~= ds@);
    }
    assert(out@ =~= decimal_text(value));
    out
}

/// The largest magnitude a mantissa can have: that of `i64::MIN`.
const MAGNITUDE_LIMIT: u64 = 9223372036854775808;

fn is_digit_char(c: char) -> (r: bool)
    ensures
        r == is_digit(c),
{
    '0' <= c && c <= '9'
}

fn digit_number(c: char) -> (d: u64)
    requires
        is_digit(c),
    ensures
        d == digit_value(c),
        d < 10,
{
    (c as u32 - '0' as u32) as u64
}

proof fn lemma_digit_run_bound(b: Seq<char>, j: int)
    requires
        0 <= j <= b.len(),
    ensures
        j + digit_run(b, j) <= b.len(),
    decreases b.len() - j,
{
    if j < b.len() && is_digit(b[j]) {
        lemma_digit_run_bound(b, j + 1);
    }
}

proof fn lemma_digit_run_step(b: Seq<char>, j: int)
    requires
        0 <= j < b.len(),
        is_digit(b[j]),
    ensures
        digit_run(b, j) == 1 + digit_run(b, j + 1),
{
}

proof fn lemma_push_value(s: Seq<char>, c: char)
    ensures
        digits_value(s.push(c)) == digits_value(s) * 10 + digit_value(c),
{
    assert(s.push(c).drop_last() =~= s);
}

/// Reads a decimal written as an optional `-`, one or more digits, and
/// optionally a point followed by one or more digits: `123.45`, `-7`, `0.050`.
///
/// The scale of the result is the number of digits after the point, so
/// `0.050` gives `Decimal { mantissa: 50, scale: 3 }`. Any other text, or a
/// value whose mantissa does not fit an `i64`, is `MalformedNumber`.
pub fn decode_decimal(input: &str) -> (r: Result<Decimal, DecodeError>)
    ensures
        r == decode_spec(input@),
{
    reveal(decode_spec);
    let cs = chars_of(input);
    let n = cs.len();
    let neg = n > 0 && cs[0] == '-';
    let start: usize = if neg { 1 } else { 0 };
    let ghost b = unsigned_part(cs@);
    assert(b =~= cs@.subrange(start as int, n as int));
    let ghost run = digit_run(b, 0) as int;
    proof {
        lemma_digit_run_bound(b, 0);
    }
    let mut i: usize = start;
    let mut acc: u64 = 0;
    assert(b.subrange(0, 0) =~= Seq::<char>::empty());
    while i < n && is_digit_char(cs[i])
        invariant
            start <= i <= n,
            n == cs@.len(),
            b == cs@.subrange(start as int, n as int),
            b == unsigned_part(input@),
            neg == has_minus(input@),
            run == digit_run(b, 0),
            run <= b.len(),
            run == (i - start) + digit_run(b, i - start),
            acc as nat == digits_value(b.subrange(0, i - start)),
            acc <= MAGNITUDE_LIMIT,
        decreases n - i,
    {
        proof {
            reveal(decode_spec);
        }
        let ghost j = i - start;
        proof {
            lemma_digit_run_step(b, j);
            lemma_push_value(b.subrange(0, j), b[j]);
            assert(b.subrange(0, j).push(b[j]) =~= b.subrange(0, j + 1));
        }
        let d = digit_number(cs[i]);
        let next: u128 = acc as u128 * 10 + d as u128;
        if next > MAGNITUDE_LIMIT as u128 {
            proof {
                let w = b.subrange(0, run) + frac_digits(b);
                assert(w.subrange(0, j + 1) =~= b.subrange(0, j + 1));
                lemma_prefix_value_le(w, j + 1);
                assert(text_magnitude(b) == digits_value(w));
                assert(text_magnitude(b) > MAGNITUDE_LIMIT);
                assert(!is_decimal_text(input@));
            }
            return Err(DecodeError::MalformedNumber);
        }
        acc = next as u64;
        i = i + 1;
    }
    let p = i - start;
    assert(digit_run(b, p as int) == 0);
    assert(run == p);
    if p == 0 {
        return Err(DecodeError::MalformedNumber);
    }
    let mut scale: usize = 0;
    if i < n {
        if cs[i] != '.' {
            return Err(DecodeError::MalformedNumber);
        }
        i = i + 1;
        let fstart = i;
        if i == n {
            return Err(DecodeError::MalformedNumber);
        }
        let ghost ip = b.subrange(0, p as int);
        assert(frac_digits(b) =~= b.subrange(p + 1, b.len() as int));
        assert(ip + b.subrange(p + 1, p + 1) =~= ip);
        while i < n
            invariant
                fstart <= i <= n,
                fstart == start + p + 1,
                n == cs@.len(),
                b == cs@.subrange(start as int, n as int),
                b == unsigned_part(input@),
                neg == has_minus(input@),
                run == p,
                ip == b.subrange(0, p as int),
                frac_digits(b) == b.subrange(p + 1, b.len() as int),
                acc as nat == digits_value(ip + b.subrange(p + 1, i - start)),
                all_digits(b.subrange(p + 1, i - start)),
                acc <= MAGNITUDE_LIMIT,
            decreases n - i,
        {
            proof {
                reveal(decode_spec);
            }
            let ghost k = i - start;
            if !is_digit_char(cs[i]) {
                assert(frac_digits(b)[k - p - 1] == b[k]);
                assert(!all_digits(frac_digits(b)));
                assert(!unsigned_syntax(b));
                return Err(DecodeError::MalformedNumber);
            }
            proof {
                lemma_push_value(ip + b.subrange(p + 1, k), b[k]);
                assert((ip + b.subrange(p + 1, k)).push(b[k]) =~= ip + b.subrange(p + 1, k + 1));
            }
            let d = digit_number(cs[i]);
            let next: u128 = acc as u128 * 10 + d as u128;
            if next > MAGNITUDE_LIMIT as u128 {
                proof {
                    let w = ip + frac_digits(b);
                    assert(w.subrange(0, k) =~= ip + b.subrange(p + 1, k + 1));
                    lemma_prefix_value_le(w, k);
                    assert(text_magnitude(b) == digits_value(w));
                    assert(text_magnitude(b) > MAGNITUDE_LIMIT);
                    assert(!is_decimal_text(input@));
                }
                return Err(DecodeError::MalformedNumber);
            }
            acc = next as u64;
            i = i + 1;
            assert forall|t: int| 0 <= t < b.subrange(p + 1, i - start).len() implies is_digit(
                #[trigger] b.subrange(p + 1, i - start)[t],
            ) by {
                if t < k - p - 1 {
                    assert(b.subrange(p + 1, i - start)[t] == b.subrange(p + 1, k)[t]);
                }
            }
        }
        assert(b.subrange(p + 1, n - start) =~= frac_digits(b));
        scale = n - fstart;
    } else {
        assert(frac_digits(b) =~= Seq::<char>::empty());
        assert(b.subrange(0, p as int) + frac_digits(b) =~= b.subrange(0, p as int));
    }
    assert(acc as nat == text_magnitude(b));
    assert(scale == frac_digits(b).len());
    if scale > u32::MAX as usize {
        return Err(DecodeError::MalformedNumber);
    }
    if !neg && acc == MAGNITUDE_LIMIT {
        return Err(DecodeError::MalformedNumber);
    }
    let mantissa: i64 = if neg { (0i128 - acc as i128) as i64 } else { acc as i64 };
    Ok(Decimal { mantissa, scale: scale as u32 })
}

} // verus!
