//! Decimal and hexadecimal rendering of numbers as ASCII text, used for the
//! byte counts of the LPD protocol and for error messages.
use vstd::prelude::*;

verus! {

/// The ASCII decimal rendering of `n`, most significant digit first, with no
/// leading zero (zero itself is the single digit `0`).
pub open spec fn decimal_digits(n: nat) -> Seq<u8>
    decreases n,
{
    if n < 10 {
        seq![(48 + n) as u8]
    } else {
        decimal_digits(n / 10).push((48 + n % 10) as u8)
    }
}

/// The number that a string of ASCII decimal digits denotes.
pub open spec fn decimal_value(digits: Seq<u8>) -> nat
    decreases digits.len(),
{
    if digits.len() == 0 {
        0
    } else {
        decimal_value(digits.drop_last()) * 10 + (digits.last() - 48) as nat
    }
}

/// Whether every byte is an ASCII decimal digit.
pub open spec fn all_decimal_digits(digits: Seq<u8>) -> bool {
    forall|i: int| 0 <= i < digits.len() ==> 48 <= #[trigger] digits[i] <= 57
}

/// The upper-case hexadecimal digit (ASCII) of a value below 16.
pub open spec fn hex_digit(d: nat) -> u8 {
    if d < 10 {
        (48 + d) as u8
    } else {
        (55 + d) as u8
    }
}

/// The two-digit upper-case hexadecimal rendering of a byte (`{:02X}`).
pub open spec fn hex_byte_digits(b: u8) -> Seq<u8> {
    seq![hex_digit((b / 16) as nat), hex_digit((b % 16) as nat)]
}

/// The characters of a string of ASCII bytes.
pub open spec fn ascii_text(bytes: Seq<u8>) -> Seq<char> {
    bytes.map_values(|b: u8| b as char)
}

/// Whether every byte is ASCII.
pub open spec fn all_ascii(bytes: Seq<u8>) -> bool {
    forall|i: int| 0 <= i < bytes.len() ==> #[trigger] bytes[i] < 128
}

/// Renders `n` in decimal ASCII digits.
pub fn decimal(n: usize) -> (r: Vec<u8>)
    ensures
        r@ == decimal_digits(n as nat),
    decreases n,
{
    if n < 10 {
        let mut v: Vec<u8> = Vec::new();
        v.push(48u8 + (n as u8));
        v
    } else {
        let mut v = decimal(n / 10);
        v.push(48u8 + ((n % 10) as u8));
        v
    }
}

/// Renders a byte as two upper-case hexadecimal ASCII digits.
pub fn hex_byte(b: u8) -> (r: Vec<u8>)
    ensures
        r@ == hex_byte_digits(b),
{
    let hi: u8 = b / 16;
    let lo: u8 = b % 16;
    let mut v: Vec<u8> = Vec::new();
    v.push(if hi < 10 { 48 + hi } else { 55 + hi });
    v.push(if lo < 10 { 48 + lo } else { 55 + lo });
    v
}

/// Appends one character to a `String`.
///
/// Trusted: calls `String::push`, which std documents as appending the given
/// character to the end of the string.
#[verifier::external_body]
fn string_push(s: &mut String, c: char)
    ensures
        final(s)@ == old(s)@.push(c),
{
    s.push(c)
}

/// Appends ASCII bytes, as characters, to a `String`.
pub fn push_ascii(s: &mut String, bytes: &[u8])
    requires
        all_ascii(bytes@),
    ensures
        final(s)@ == old(s)@ + ascii_text(bytes@),
{
    let mut i: usize = 0;
    while i < bytes.len()
        invariant
            i <= bytes@.len(),
            all_ascii(bytes@),
            s@ == old(s)@ + ascii_text(bytes@.subrange(0, i as int)),
        decreases bytes@.len() - i,
    {
        let b = bytes[i];
        assert(b < 128);
        string_push(s, b as char);
        assert(bytes@.subrange(0, i + 1) == bytes@.subrange(0, i as int).push(b));
        i = i + 1;
    }
    assert(bytes@.subrange(0, i as int) == bytes@);
}

/// Every digit of a decimal rendering is an ASCII decimal digit.
pub proof fn lemma_decimal_digits_are_digits(n: nat)
    ensures
        all_decimal_digits(decimal_digits(n)),
        decimal_digits(n).len() >= 1,
        all_ascii(decimal_digits(n)),
    decreases n,
{
    if n >= 10 {
        lemma_decimal_digits_are_digits(n / 10);
    }
}

/// Reading back the decimal rendering of `n` gives `n`, and the rendering has
/// no leading zero unless `n` is zero.
pub proof fn law_decimal_round_trip(n: nat)
    ensures
        decimal_value(decimal_digits(n)) == n,
        all_decimal_digits(decimal_digits(n)),
        n > 0 ==> decimal_digits(n)[0] != 48,
    decreases n,
{
    lemma_decimal_digits_are_digits(n);
    if n >= 10 {
        law_decimal_round_trip(n / 10);
        let d = decimal_digits(n);
        assert(d.drop_last() == decimal_digits(n / 10));
        assert(d[0] == decimal_digits(n / 10)[0]);
        assert(d.last() == (48 + n % 10) as u8);
        assert(n == (n / 10) * 10 + n % 10) by (nonlinear_arith);
        assert(decimal_value(d) == decimal_value(decimal_digits(n / 10)) * 10 + n % 10);
    } else {
        let d = decimal_digits(n);
        assert(d.drop_last() =~= Seq::<u8>::empty());
        assert(decimal_value(d.drop_last()) == 0);
        assert(d.last() == (48 + n) as u8);
    }
}

/// Every digit of a hexadecimal rendering is ASCII.
pub proof fn lemma_hex_byte_is_ascii(b: u8)
    ensures
        all_ascii(hex_byte_digits(b)),
        hex_byte_digits(b).len() == 2,
{
}

} // verus!
