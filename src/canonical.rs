//! Building blocks of the canonical encoding: every value is written as
//! compact JSON text, with object keys in ascending order.

use vstd::prelude::*;
use vstd::string::StrSliceExecFns;
use vstd::utf8::encode_utf8;

verus! {

/// The lower-case hexadecimal digits, indexed by their value.
pub open spec fn hex_digits() -> Seq<char> {
    seq!['0', '1', '2', '3', '4', '5', '6', '7', '8', '9', 'a', 'b', 'c', 'd', 'e', 'f']
}

/// Two lower-case hex digits per byte, high nibble first.
pub open spec fn hex_chars(b: Seq<u8>) -> Seq<char>
    decreases b.len(),
{
    if b.len() == 0 {
        Seq::empty()
    } else {
        hex_chars(b.drop_last()) + seq![
            hex_digits()[b.last() as int / 16],
            hex_digits()[b.last() as int % 16],
        ]
    }
}

/// The decimal digits of `n`, as ASCII bytes, without leading zeros.
pub open spec fn decimal(n: nat) -> Seq<u8>
    decreases n,
{
    if n < 10 {
        seq![(48 + n) as u8]
    } else {
        decimal(n / 10).push((48 + n % 10) as u8)
    }
}

/// The UTF-8 bytes of a piece of text.
pub open spec fn utf8(s: Seq<char>) -> Seq<u8> {
    encode_utf8(s)
}

/// What serde_json writes for a string: the quoted literal with its escapes.
pub uninterp spec fn json_string_of(s: Seq<char>) -> Seq<char>;

/// Relies on `hex::encode`: two lower-case hex digits for each byte, in order.
#[verifier::external_body]
pub(crate) fn hex_encode(b: &[u8]) -> (r: String)
    ensures
        r@ == hex_chars(b@),
{
    hex::encode(b)
}

/// Relies on `serde_json::to_string` on a `str`, which writes the JSON string
/// literal (cannot fail for a string).
#[verifier::external_body]
fn json_string(s: &str) -> (r: String)
    ensures
        r@ == json_string_of(s@),
{
    serde_json::to_string(s).unwrap_or_default()
}

/// Appends the UTF-8 bytes of `s`.
pub fn push_text(out: &mut Vec<u8>, s: &str)
    ensures
        final(out)@ == old(out)@ + utf8(s@),
{
    let mut b = s.as_bytes_vec();
    out.append(&mut b);
}

/// Whether two byte strings are equal.
pub fn bytes_equal(a: &[u8], b: &[u8]) -> (r: bool)
    ensures
        r == (a@ == b@),
{
    if a.len() != b.len() {
        return false;
    }
    let mut i: usize = 0;
    while i < a.len()
        invariant
            0 <= i <= a@.len(),
            a@.len() == b@.len(),
            forall|j: int| 0 <= j < i ==> a@[j] == b@[j],
        decreases a@.len() - i,
    {
        if a[i] != b[i] {
            return false;
        }
        i = i + 1;
    }
    assert(a@ =~= b@);
    true
}

/// Appends the decimal form of `n`.
pub fn push_decimal(out: &mut Vec<u8>, n: u64)
    ensures
        final(out)@ == old(out)@ + decimal(n as nat),
    decreases n,
{
    if n >= 10 {
        push_decimal(out, n / 10);
    }
    let d: u8 = (n % 10) as u8;
    out.push(48u8 + d);
    assert(final(out)@ =~= old(out)@ + decimal(n as nat));
}

/// Appends a JSON string literal holding `s`.
pub fn push_json_string(out: &mut Vec<u8>, s: &str)
    ensures
        final(out)@ == old(out)@ + utf8(json_string_of(s@)),
{
    let q = json_string(s);
    push_text(out, q.as_str());
}

/// A JSON string literal around text that needs no escapes.
pub open spec fn quoted(t: Seq<char>) -> Seq<u8> {
    utf8("\""@) + utf8(t) + utf8("\""@)
}

/// Appends a JSON string literal holding the hex form of `b`.
pub fn push_hex_string(out: &mut Vec<u8>, b: &[u8])
    ensures
        final(out)@ == old(out)@ + quoted(hex_chars(b@)),
{
    let h = hex_encode(b);
    push_text(out, "\"");
    push_text(out, h.as_str());
    push_text(out, "\"");
    assert(final(out)@ =~= old(out)@ + quoted(hex_chars(b@)));
}

} // verus!
