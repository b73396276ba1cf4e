//! Lower-case hexadecimal text, as a mathematical function on bytes.

use vstd::prelude::*;

verus! {

/// The lower-case hexadecimal digit for a number below 16.
pub open spec fn hex_digit(n: int) -> char {
    if n < 10 {
        ((48 + n) as u8) as char
    } else {
        ((87 + n) as u8) as char
    }
}

/// The lower-case hexadecimal text of a byte string: two digits for each byte,
/// the high half first.
pub open spec fn hex_lower(bytes: Seq<u8>) -> Seq<char> {
    Seq::new(
        2 * bytes.len(),
        |i: int|
            if i % 2 == 0 {
                hex_digit(bytes[i / 2] as int / 16)
            } else {
                hex_digit(bytes[i / 2] as int % 16)
            },
    )
}

/// Different numbers below 16 have different digits.
pub proof fn lemma_hex_digit_injective(m: int, n: int)
    requires
        0 <= m < 16,
        0 <= n < 16,
        hex_digit(m) == hex_digit(n),
    ensures
        m == n,
{
    let a: u8 = if m < 10 { (48 + m) as u8 } else { (87 + m) as u8 };
    let b: u8 = if n < 10 { (48 + n) as u8 } else { (87 + n) as u8 };
    assert(a as char == b as char);
    assert((a as char) as u8 == a);
    assert((b as char) as u8 == b);
}

/// Hexadecimal text determines the bytes: two byte strings with the same text
/// are the same.
pub proof fn lemma_hex_lower_injective(a: Seq<u8>, b: Seq<u8>)
    requires
        hex_lower(a) == hex_lower(b),
    ensures
        a == b,
{
    assert(hex_lower(a).len() == 2 * a.len());
    assert(hex_lower(b).len() == 2 * b.len());
    assert(a.len() == b.len());
    assert forall|k: int| 0 <= k < a.len() implies a[k] == b[k] by {
        let hi_a = hex_lower(a)[2 * k];
        let hi_b = hex_lower(b)[2 * k];
        let lo_a = hex_lower(a)[2 * k + 1];
        let lo_b = hex_lower(b)[2 * k + 1];
        assert(hi_a == hex_digit(a[k] as int / 16));
        assert(hi_b == hex_digit(b[k] as int / 16));
        assert(lo_a == hex_digit(a[k] as int % 16));
        assert(lo_b == hex_digit(b[k] as int % 16));
        lemma_hex_digit_injective(a[k] as int / 16, b[k] as int / 16);
        lemma_hex_digit_injective(a[k] as int % 16, b[k] as int % 16);
    }
    assert(a =~= b);
}

} // verus!
