//! Hex decoding of the System ID, byte for byte: what a hex digit is, what a
//! hex string decodes to, and the trusted boundary to the `hex` crate that
//! performs the decoding at run time.
use vstd::prelude::*;

verus! {

/// The byte is the ASCII code of a hex digit (`0-9`, `a-f`, `A-F`).
pub open spec fn is_hex_digit_byte(b: u8) -> bool {
    (48 <= b <= 57) || (97 <= b <= 102) || (65 <= b <= 70)
}

/// The numeric value of the hex digit with ASCII code `b`.
pub open spec fn hex_val(b: u8) -> u8
    recommends
        is_hex_digit_byte(b),
{
    if 48 <= b <= 57 {
        (b - 48) as u8
    } else if 97 <= b <= 102 {
        (b - 87) as u8
    } else {
        (b - 55) as u8
    }
}

/// Every byte of `s` is the ASCII code of a hex digit.
pub open spec fn all_hex_bytes(s: Seq<u8>) -> bool {
    forall|i: int| 0 <= i < s.len() ==> is_hex_digit_byte(#[trigger] s[i])
}

/// The bytes an even-length hex string decodes to: one byte per digit pair,
/// high digit first.
pub open spec fn hex_decoded(s: Seq<u8>) -> Seq<u8>
    decreases s.len(),
{
    if s.len() < 2 {
        Seq::empty()
    } else {
        seq![((hex_val(s[0]) as int) * 16 + (hex_val(s[1]) as int)) as u8] + hex_decoded(s.skip(2))
    }
}

/// `s` with every ASCII dot (`.`) removed.
pub open spec fn strip_dot_bytes(s: Seq<u8>) -> Seq<u8>
    decreases s.len(),
{
    if s.len() == 0 {
        Seq::empty()
    } else if s[0] == 46 {
        strip_dot_bytes(s.skip(1))
    } else {
        seq![s[0]] + strip_dot_bytes(s.skip(1))
    }
}

/// A decoded hex string has one byte for each pair of digits.
pub proof fn lemma_hex_decoded_len(s: Seq<u8>)
    ensures
        hex_decoded(s).len() == s.len() / 2,
    decreases s.len(),
{
    if s.len() >= 2 {
        lemma_hex_decoded_len(s.skip(2));
    }
}

/// Dot stripping distributes over concatenation.
pub proof fn lemma_strip_dot_bytes_add(a: Seq<u8>, b: Seq<u8>)
    ensures
        strip_dot_bytes(a + b) == strip_dot_bytes(a) + strip_dot_bytes(b),
    decreases a.len(),
{
    if a.len() == 0 {
        assert(a + b =~= b);
        assert(strip_dot_bytes(a) + strip_dot_bytes(b) =~= strip_dot_bytes(b));
    } else {
        assert((a + b).skip(1) =~= a.skip(1) + b);
        lemma_strip_dot_bytes_add(a.skip(1), b);
        if a[0] != 46 {
            assert(seq![a[0]] + (strip_dot_bytes(a.skip(1)) + strip_dot_bytes(b)) =~= (seq![a[0]]
                + strip_dot_bytes(a.skip(1))) + strip_dot_bytes(b));
        }
    }
}

/// Appending one byte extends the stripped sequence by that byte, unless the
/// byte is a dot.
pub proof fn lemma_strip_dot_bytes_push(s: Seq<u8>, b: u8)
    ensures
        b == 46 ==> strip_dot_bytes(s.push(b)) == strip_dot_bytes(s),
        b != 46 ==> strip_dot_bytes(s.push(b)) == strip_dot_bytes(s).push(b),
{
    reveal_with_fuel(strip_dot_bytes, 2);
    assert(s.push(b) =~= s + seq![b]);
    lemma_strip_dot_bytes_add(s, seq![b]);
    assert(seq![b].skip(1) =~= Seq::<u8>::empty());
    if b == 46 {
        assert(strip_dot_bytes(seq![b]) =~= Seq::<u8>::empty());
        assert(strip_dot_bytes(s) + strip_dot_bytes(seq![b]) =~= strip_dot_bytes(s));
    } else {
        assert(strip_dot_bytes(seq![b]) =~= seq![b]);
        assert(strip_dot_bytes(s) + strip_dot_bytes(seq![b]) =~= strip_dot_bytes(s).push(b));
    }
}

/// The error type of the `hex` crate, carried through unread and mapped to
/// this crate's own error by the callers.
#[verifier::external_type_specification]
#[verifier::external_body]
pub struct ExFromHexError(hex::FromHexError);

/// Relies on `hex::decode`: it succeeds exactly on an even number of hex
/// digits (`0-9`, `a-f`, `A-F`) and then yields one byte for each pair of
/// digits, high digit first.
#[verifier::external_body]
pub(crate) fn hex_decode_bytes(data: &[u8]) -> (r: Result<Vec<u8>, hex::FromHexError>)
    ensures
        r is Ok <==> (data@.len() % 2 == 0 && all_hex_bytes(data@)),
        r is Ok ==> r->Ok_0@ == hex_decoded(data@),
{
    hex::decode(data)
}

} // verus!
