//! Character-level rendering primitives: decimal and hexadecimal numerals
//! appended to a character buffer, and the final conversion to `String`.

use vstd::prelude::*;

verus! {

/// The character for one digit value below 16: `0`-`9` then `a`-`f`.
pub open spec fn spec_digit_char(d: nat) -> char {
    if d < 10 {
        ((48 + d) as u8) as char
    } else {
        ((87 + d) as u8) as char
    }
}

/// The decimal numeral of `n`, most significant digit first, no sign and
/// no leading zeros (zero itself is the single digit `0`).
pub open spec fn spec_dec_nat(n: nat) -> Seq<char>
    decreases n,
{
    if n < 10 {
        seq![spec_digit_char(n)]
    } else {
        spec_dec_nat(n / 10).push(spec_digit_char(n % 10))
    }
}

/// The decimal numeral of a signed value: a leading `-` and the magnitude
/// for negative values, the plain numeral otherwise.
pub open spec fn spec_dec_int(v: int) -> Seq<char> {
    if v < 0 {
        seq!['-'] + spec_dec_nat((-v) as nat)
    } else {
        spec_dec_nat(v as nat)
    }
}

/// The lowercase hexadecimal numeral of `n` with a `0x` prefix.
pub open spec fn spec_hex_nat(n: nat) -> Seq<char>
    decreases n,
{
    if n < 16 {
        seq![spec_digit_char(n)]
    } else {
        spec_hex_nat(n / 16).push(spec_digit_char(n % 16))
    }
}

/// A 16-bit value as the renderer prints it in hexadecimal: `0x` then the
/// lowercase digits without leading zeros.
pub open spec fn spec_hex_u16(n: u16) -> Seq<char> {
    seq!['0', 'x'] + spec_hex_nat(n as nat)
}

/// Append the decimal numeral of `n`.
pub fn push_dec_u16(n: u16, out: &mut Vec<char>)
    ensures
        final(out)@ == old(out)@ + spec_dec_nat(n as nat),
    decreases n,
{
    if n >= 10 {
        push_dec_u16(n / 10, out);
    }
    let d: u8 = (n % 10) as u8;
    out.push((48 + d) as char);
    assert(out@ =~= old(out)@ + spec_dec_nat(n as nat));
}

/// Append the decimal numeral of a signed 16-bit value.
pub fn push_dec_i16(v: i16, out: &mut Vec<char>)
    ensures
        final(out)@ == old(out)@ + spec_dec_int(v as int),
{
    if v < 0 {
        out.push('-');
        let magnitude: u16 = (-(v as i32)) as u16;
        push_dec_u16(magnitude, out);
        assert(out@ =~= old(out)@ + spec_dec_int(v as int));
    } else {
        push_dec_u16(v as u16, out);
    }
}

/// Append the decimal numeral of a signed 8-bit value.
pub fn push_dec_i8(v: i8, out: &mut Vec<char>)
    ensures
        final(out)@ == old(out)@ + spec_dec_int(v as int),
{
    if v < 0 {
        out.push('-');
        let magnitude: u16 = (-(v as i32)) as u16;
        push_dec_u16(magnitude, out);
        assert(out@ =~= old(out)@ + spec_dec_int(v as int));
    } else {
        push_dec_u16(v as u16, out);
    }
}

/// Append the `0x`-prefixed lowercase hexadecimal numeral of `n`.
pub fn push_hex_u16(n: u16, out: &mut Vec<char>)
    ensures
        final(out)@ == old(out)@ + spec_hex_u16(n),
{
    out.push('0');
    out.push('x');
    push_hex_digits(n, out);
    assert(out@ =~= old(out)@ + spec_hex_u16(n));
}

fn push_hex_digits(n: u16, out: &mut Vec<char>)
    ensures
        final(out)@ == old(out)@ + spec_hex_nat(n as nat),
    decreases n,
{
    if n >= 16 {
        push_hex_digits(n / 16, out);
    }
    let d: u8 = (n % 16) as u8;
    if d < 10 {
        out.push((48 + d) as char);
    } else {
        out.push((87 + d) as char);
    }
    assert(out@ =~= old(out)@ + spec_hex_nat(n as nat));
}

/// Append the decimal numeral of a cursor offset.
pub fn push_dec_usize(n: usize, out: &mut Vec<char>)
    ensures
        final(out)@ == old(out)@ + spec_dec_nat(n as nat),
    decreases n,
{
    if n >= 10 {
        push_dec_usize(n / 10, out);
    }
    let d: u8 = (n % 10) as u8;
    out.push((48 + d) as char);
    assert(out@ =~= old(out)@ + spec_dec_nat(n as nat));
}

/// Append every character of a literal piece of text.
pub fn push_str_chars(text: &str, out: &mut Vec<char>)
    ensures
        final(out)@ == old(out)@ + text@,
{
    let n = text.unicode_len();
    let mut i: usize = 0;
    while i < n
        invariant
            i <= n,
            n == text@.len(),
            out@ == old(out)@ + text@.subrange(0, i as int),
        decreases n - i,
    {
        out.push(text.get_char(i));
        assert(out@ =~= old(out)@ + text@.subrange(0, i as int + 1));
        i = i + 1;
    }
    assert(out@ =~= old(out)@ + text@);
}

/// Relies on `String`'s `FromIterator<char>` impl from std: collecting an
/// iterator of characters yields a string of exactly those characters in
/// order.
#[verifier::external_body]
pub(crate) fn chars_to_string(chars: &Vec<char>) -> (r: String)
    ensures
        r@ == chars@,
{
    chars.iter().collect()
}

} // verus!
