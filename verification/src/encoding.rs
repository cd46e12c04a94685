//! Byte encodings: ASCII text as bytes, lowercase hex, SHA-256 digests and
//! standard base64 (spelled out in `base64_text`).
use vstd::prelude::*;
use crate::text::push_char;
use crate::base64_text::base64_standard;
use sha2::{Digest, Sha256};
use base64::Engine;

verus! {

/// The bytes of an ASCII string.
pub open spec fn ascii_bytes(s: Seq<char>) -> Seq<u8> {
    s.map_values(|c: char| c as u8)
}

/// Every character of `s` is ASCII.
pub open spec fn is_ascii_text(s: Seq<char>) -> bool {
    forall|i: int| 0 <= i < s.len() ==> (#[trigger] s[i] as u32) < 128
}

/// The bytes of an ASCII string.
pub fn ascii_to_bytes(s: &str) -> (r: Vec<u8>)
    requires
        is_ascii_text(s@),
    ensures
        r@ == ascii_bytes(s@),
{
    let n = s.unicode_len();
    let mut r: Vec<u8> = Vec::new();
    let mut i: usize = 0;
    while i < n
        invariant
            i <= n,
            n == s@.len(),
            r@ == ascii_bytes(s@.subrange(0, i as int)),
        decreases n - i,
    {
        let c = s.get_char(i);
        r.push(c as u8);
        assert(ascii_bytes(s@.subrange(0, i + 1)) =~= ascii_bytes(s@.subrange(0, i as int)).push(
            c as u8,
        ));
        i = i + 1;
    }
    assert(s@.subrange(0, n as int) =~= s@);
    r
}

/// The lowercase hex digit for `v`, which must be below sixteen.
pub open spec fn hex_digit(v: u8) -> char {
    if v < 10 {
        ((v + 48) as u8) as char
    } else {
        ((v + 87) as u8) as char
    }
}

/// Lowercase hex of a byte string, two digits per byte, high nibble first.
pub open spec fn hex_lower(b: Seq<u8>) -> Seq<char>
    decreases b.len(),
{
    if b.len() == 0 {
        Seq::empty()
    } else {
        hex_lower(b.drop_last()).push(hex_digit(b.last() / 16)).push(hex_digit(b.last() % 16))
    }
}

fn hex_digit_of(v: u8) -> (c: char)
    requires
        v < 16,
    ensures
        c == hex_digit(v),
{
    if v < 10 {
        (v + 48) as char
    } else {
        (v + 87) as char
    }
}

/// Writes bytes as lowercase hex, as `format!("{:x}", ..)` does for a digest.
pub fn to_hex_lower(b: &[u8]) -> (r: String)
    ensures
        r@ == hex_lower(b@),
{
    let n = b.len();
    let mut r = String::new();
    let mut i: usize = 0;
    while i < n
        invariant
            i <= n,
            n == b@.len(),
            r@ == hex_lower(b@.subrange(0, i as int)),
        decreases n - i,
    {
        let v = b[i];
        assert(b@.subrange(0, i + 1).drop_last() =~= b@.subrange(0, i as int));
        push_char(&mut r, hex_digit_of(v / 16));
        push_char(&mut r, hex_digit_of(v % 16));
        i = i + 1;
    }
    assert(b@.subrange(0, n as int) =~= b@);
    r
}

/// Hex doubles the length, and uses only the digits `0-9a-f`.
pub proof fn law_hex_shape(b: Seq<u8>)
    ensures
        hex_lower(b).len() == 2 * b.len(),
        forall|i: int| 0 <= i < hex_lower(b).len() ==> {
            let c = #[trigger] hex_lower(b)[i];
            ('0' <= c && c <= '9') || ('a' <= c && c <= 'f')
        },
    decreases b.len(),
{
    if b.len() > 0 {
        law_hex_shape(b.drop_last());
        let prev = hex_lower(b.drop_last());
        let h = hex_lower(b);
        assert forall|i: int| 0 <= i < h.len() implies {
            let c = #[trigger] h[i];
            ('0' <= c && c <= '9') || ('a' <= c && c <= 'f')
        } by {
            if i < prev.len() {
                assert(h[i] == prev[i]);
            }
        }
    }
}

/// A hex digit tells its nibble.
proof fn lemma_hex_digit_injective(a: u8, b: u8)
    requires
        a < 16,
        b < 16,
        hex_digit(a) == hex_digit(b),
    ensures
        a == b,
{
}

/// Different byte strings have different hex: the hex of a digest
/// determines the digest.
pub proof fn law_hex_injective(a: Seq<u8>, b: Seq<u8>)
    requires
        hex_lower(a) == hex_lower(b),
    ensures
        a == b,
    decreases a.len(),
{
    law_hex_shape(a);
    law_hex_shape(b);
    if a.len() > 0 {
        let ha = hex_lower(a);
        let hb = hex_lower(b);
        let n = ha.len();
        assert(ha.drop_last().drop_last() =~= hex_lower(a.drop_last()));
        assert(hb.drop_last().drop_last() =~= hex_lower(b.drop_last()));
        law_hex_injective(a.drop_last(), b.drop_last());
        assert(ha[n - 2] == hb[n - 2]);
        assert(ha[n - 1] == hb[n - 1]);
        lemma_hex_digit_injective(a.last() / 16, b.last() / 16);
        lemma_hex_digit_injective(a.last() % 16, b.last() % 16);
        assert(a.last() == (a.last() / 16) * 16 + a.last() % 16);
        assert(b.last() == (b.last() / 16) * 16 + b.last() % 16);
        assert(a =~= a.drop_last().push(a.last()));
        assert(b =~= b.drop_last().push(b.last()));
    }
}

/// What `Sha256::digest` (sha2) returns for a byte string: its SHA-256 hash.
pub uninterp spec fn sha256(data: Seq<u8>) -> Seq<u8>;

/// Hashes bytes with `sha2::Sha256::digest`; the hash is named by `sha256`
/// and, as every SHA-256 hash, is 32 bytes long.
#[verifier::external_body]
pub(crate) fn sha256_digest(data: &[u8]) -> (r: Vec<u8>)
    ensures
        r@ == sha256(data@),
        r@.len() == 32,
{
    Sha256::digest(data).to_vec()
}

#[verifier::external_body]
pub(crate) fn base64_encode(data: &[u8]) -> (r: String)
    requires
        data@.len() <= usize::MAX / 2,
    ensures
        r@ == base64_standard(data@),
{
    base64::engine::general_purpose::STANDARD.encode(data)
}

} // verus!
