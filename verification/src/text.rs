//! Building short ASCII strings — hexadecimal and decimal renderings —
//! from verified byte sequences.

use vstd::prelude::*;

verus! {

/// The bytes, read as the ASCII characters with the same code points.
pub open spec fn ascii_chars(b: Seq<u8>) -> Seq<char> {
    b.map_values(|x: u8| x as char)
}

/// The ASCII code of one hexadecimal digit, lower case.
pub open spec fn hex_digit_code(d: int) -> u8 {
    if d < 10 {
        (48 + d) as u8
    } else {
        (87 + d) as u8
    }
}

/// The ASCII codes of `b` written as hexadecimal, two digits per byte.
pub open spec fn hex_ascii(b: Seq<u8>) -> Seq<u8> {
    Seq::new(
        2 * b.len(),
        |i: int|
            if i % 2 == 0 {
                hex_digit_code(b[i / 2] as int / 16)
            } else {
                hex_digit_code(b[i / 2] as int % 16)
            },
    )
}

/// The ASCII codes of `n` written in decimal, without leading zeroes.
pub open spec fn dec_ascii(n: int) -> Seq<u8>
    decreases n,
{
    if n < 10 {
        seq![(48 + n) as u8]
    } else {
        dec_ascii(n / 10) + seq![(48 + n % 10) as u8]
    }
}

/// The ASCII codes of `n` written in decimal, zero-padded on the left to
/// at least two digits.
pub open spec fn pad2_ascii(n: int) -> Seq<u8> {
    if n < 10 {
        seq![48u8, (48 + n) as u8]
    } else {
        dec_ascii(n)
    }
}

/// Relies on `String::from_utf8`: bytes below 128 are valid UTF-8 and
/// decode to the characters with the same code points.
#[verifier::external_body]
pub fn ascii_to_string(bytes: Vec<u8>) -> (r: String)
    requires
        forall|i: int| 0 <= i < bytes@.len() ==> bytes@[i] < 128,
    ensures
        r@ == ascii_chars(bytes@),
{
    String::from_utf8(bytes).unwrap_or_default()
}

/// Appends the decimal digits of `n` to `out`.
pub fn push_dec_u32(n: u32, out: &mut Vec<u8>)
    ensures
        final(out)@ == old(out)@ + dec_ascii(n as int),
    decreases n,
{
    if n >= 10 {
        push_dec_u32(n / 10, out);
        let ghost mid = out@;
        out.push(48 + (n % 10) as u8);
        assert(out@ =~= mid + seq![(48 + (n as int) % 10) as u8]);
        assert(out@ =~= old(out)@ + dec_ascii(n as int));
    } else {
        out.push(48 + (n % 10) as u8);
        assert(out@ =~= old(out)@ + dec_ascii(n as int));
    }
}

/// Appends the decimal digits of `n`, zero-padded to two digits, to
/// `out`.
pub fn push_pad2_u32(n: u32, out: &mut Vec<u8>)
    ensures
        final(out)@ == old(out)@ + pad2_ascii(n as int),
{
    if n < 10 {
        out.push(48);
        out.push(48 + n as u8);
        assert(out@ =~= old(out)@ + pad2_ascii(n as int));
    } else {
        push_dec_u32(n, out);
    }
}

/// Every ASCII code that the decimal rendering produces is a digit, and
/// in particular below 128.
pub proof fn lemma_dec_ascii_digits(n: int)
    requires
        n >= 0,
    ensures
        forall|i: int| 0 <= i < dec_ascii(n).len() ==> 48 <= #[trigger] dec_ascii(n)[i] <= 57,
    decreases n,
{
    if n >= 10 {
        lemma_dec_ascii_digits(n / 10);
        assert forall|i: int| 0 <= i < dec_ascii(n).len() implies 48 <= #[trigger] dec_ascii(n)[i]
            <= 57 by {
            if i < dec_ascii(n / 10).len() {
                assert(dec_ascii(n)[i] == dec_ascii(n / 10)[i]);
            }
        }
    }
}

/// Appends one ASCII byte, keeping the record that every byte so far is
/// ASCII.
pub fn push_ascii(out: &mut Vec<u8>, b: u8)
    requires
        b < 128,
        forall|i: int| 0 <= i < old(out)@.len() ==> old(out)@[i] < 128,
    ensures
        final(out)@ == old(out)@ + seq![b],
        forall|i: int| 0 <= i < final(out)@.len() ==> final(out)@[i] < 128,
{
    out.push(b);
    proof {
        assert(out@ =~= old(out)@ + seq![b]);
        assert forall|i: int| 0 <= i < out@.len() implies out@[i] < 128 by {
            if i < old(out)@.len() {
                assert(out@[i] == old(out)@[i]);
            }
        }
    }
}

/// Appends the decimal digits of `n`, keeping the record that every
/// byte so far is ASCII.
pub fn push_dec_ascii(n: u32, out: &mut Vec<u8>)
    requires
        forall|i: int| 0 <= i < old(out)@.len() ==> old(out)@[i] < 128,
    ensures
        final(out)@ == old(out)@ + dec_ascii(n as int),
        forall|i: int| 0 <= i < final(out)@.len() ==> final(out)@[i] < 128,
{
    push_dec_u32(n, out);
    proof {
        lemma_dec_ascii_digits(n as int);
        assert forall|i: int| 0 <= i < out@.len() implies out@[i] < 128 by {
            if i < old(out)@.len() {
                assert(out@[i] == old(out)@[i]);
            } else {
                assert(out@[i] == dec_ascii(n as int)[i - old(out)@.len()]);
            }
        }
    }
}

/// Renders `n` in decimal.
pub fn format_u32(n: u32) -> (r: String)
    ensures
        r@ == ascii_chars(dec_ascii(n as int)),
{
    let mut out: Vec<u8> = Vec::new();
    push_dec_u32(n, &mut out);
    proof {
        lemma_dec_ascii_digits(n as int);
        assert(out@ =~= dec_ascii(n as int));
    }
    ascii_to_string(out)
}

} // verus!
