//! Standard base64 with padding (RFC 4648, section 4): every three bytes
//! become four characters of `A-Z a-z 0-9 + /`, and a final group of one
//! or two bytes is padded with `=` to four characters.
use vstd::prelude::*;

verus! {

/// The character of the standard alphabet for a six-bit value.
pub open spec fn b64_char(v: u8) -> char {
    if v < 26 {
        ((v + 65) as u8) as char
    } else if v < 52 {
        ((v + 71) as u8) as char
    } else if v < 62 {
        ((v - 4) as u8) as char
    } else if v == 62 {
        '+'
    } else {
        '/'
    }
}

/// The six-bit value of a character of the standard alphabet.
pub open spec fn b64_index(c: char) -> Option<u8> {
    if 'A' <= c && c <= 'Z' {
        Some(((c as u32) - 65) as u8)
    } else if 'a' <= c && c <= 'z' {
        Some(((c as u32) - 71) as u8)
    } else if '0' <= c && c <= '9' {
        Some(((c as u32) + 4) as u8)
    } else if c == '+' {
        Some(62u8)
    } else if c == '/' {
        Some(63u8)
    } else {
        None
    }
}

/// The four characters of three bytes.
pub open spec fn encode_triple(a: u8, b: u8, c: u8) -> Seq<char> {
    seq![
        b64_char(a >> 2),
        b64_char(((a & 3) << 4) | (b >> 4)),
        b64_char(((b & 15) << 2) | (c >> 6)),
        b64_char(c & 63),
    ]
}

/// Padded standard base64 of a byte string.
pub open spec fn base64_standard(data: Seq<u8>) -> Seq<char>
    decreases data.len(),
{
    if data.len() == 0 {
        Seq::empty()
    } else if data.len() == 1 {
        seq![b64_char(data[0] >> 2), b64_char((data[0] & 3) << 4), '=', '=']
    } else if data.len() == 2 {
        seq![
            b64_char(data[0] >> 2),
            b64_char(((data[0] & 3) << 4) | (data[1] >> 4)),
            b64_char((data[1] & 15) << 2),
            '=',
        ]
    } else {
        encode_triple(data[0], data[1], data[2]) + base64_standard(data.skip(3))
    }
}

/// The three bytes of four alphabet characters.
pub open spec fn decode_quad(i0: u8, i1: u8, i2: u8, i3: u8) -> Seq<u8> {
    seq![
        ((i0 << 2) | (i1 >> 4)) as u8,
        (((i1 & 15) << 4) | (i2 >> 2)) as u8,
        (((i2 & 3) << 6) | i3) as u8,
    ]
}

/// Decodes the last group of four characters, which may end in padding;
/// bits that padding drops must be zero.
pub open spec fn decode_last_group(g: Seq<char>) -> Option<Seq<u8>> {
    if g[3] != '=' {
        match (b64_index(g[0]), b64_index(g[1]), b64_index(g[2]), b64_index(g[3])) {
            (Some(i0), Some(i1), Some(i2), Some(i3)) => Some(decode_quad(i0, i1, i2, i3)),
            _ => None,
        }
    } else if g[2] != '=' {
        match (b64_index(g[0]), b64_index(g[1]), b64_index(g[2])) {
            (Some(i0), Some(i1), Some(i2)) => if i2 & 3 == 0 {
                Some(decode_quad(i0, i1, i2, 0).take(2))
            } else {
                None
            },
            _ => None,
        }
    } else {
        match (b64_index(g[0]), b64_index(g[1])) {
            (Some(i0), Some(i1)) => if i1 & 15 == 0 {
                Some(decode_quad(i0, i1, 0, 0).take(1))
            } else {
                None
            },
            _ => None,
        }
    }
}

/// Decodes padded standard base64: groups of four characters, padding only
/// in the last group. `None` for text that is no such encoding.
pub open spec fn base64_decode(s: Seq<char>) -> Option<Seq<u8>>
    decreases s.len(),
{
    if s.len() == 0 {
        Some(Seq::empty())
    } else if s.len() < 4 {
        None
    } else if s.len() == 4 {
        decode_last_group(s)
    } else {
        match (b64_index(s[0]), b64_index(s[1]), b64_index(s[2]), b64_index(s[3])) {
            (Some(i0), Some(i1), Some(i2), Some(i3)) => match base64_decode(s.skip(4)) {
                Some(rest) => Some(decode_quad(i0, i1, i2, i3) + rest),
                None => None,
            },
            _ => None,
        }
    }
}

/// Each alphabet character is read back as its value, and none is `=`.
pub proof fn lemma_b64_char(v: u8)
    requires
        v < 64,
    ensures
        b64_index(b64_char(v)) == Some(v),
        b64_char(v) != '=',
{
}

/// Three bytes come back from their four characters.
proof fn lemma_triple_roundtrip(a: u8, b: u8, c: u8)
    ensures
        a >> 2 < 64,
        ((a & 3) << 4) | (b >> 4) < 64,
        ((b & 15) << 2) | (c >> 6) < 64,
        c & 63 < 64,
        decode_quad(a >> 2, ((a & 3) << 4) | (b >> 4), ((b & 15) << 2) | (c >> 6), c & 63)
            == seq![a, b, c],
{
    let s0 = a >> 2;
    let s1 = ((a & 3) << 4) | (b >> 4);
    let s2 = ((b & 15) << 2) | (c >> 6);
    let s3 = c & 63;
    assert(s0 < 64 && s1 < 64 && s2 < 64 && s3 < 64) by (bit_vector)
        requires
            s0 == a >> 2,
            s1 == ((a & 3) << 4) | (b >> 4),
            s2 == ((b & 15) << 2) | (c >> 6),
            s3 == c & 63,
    ;
    assert(((s0 << 2) | (s1 >> 4)) == a && (((s1 & 15) << 4) | (s2 >> 2)) == b && (((s2 & 3)
        << 6) | s3) == c) by (bit_vector)
        requires
            s0 == a >> 2,
            s1 == ((a & 3) << 4) | (b >> 4),
            s2 == ((b & 15) << 2) | (c >> 6),
            s3 == c & 63,
    ;
    assert(decode_quad(s0, s1, s2, s3) =~= seq![a, b, c]);
}

/// Two bytes come back from their three characters and the padding.
proof fn lemma_pair_roundtrip(a: u8, b: u8)
    ensures
        a >> 2 < 64,
        ((a & 3) << 4) | (b >> 4) < 64,
        (b & 15) << 2 < 64,
        ((b & 15) << 2) & 3 == 0,
        decode_quad(a >> 2, ((a & 3) << 4) | (b >> 4), (b & 15) << 2, 0).take(2) == seq![a, b],
{
    let s0 = a >> 2;
    let s1 = ((a & 3) << 4) | (b >> 4);
    let s2 = (b & 15) << 2;
    assert(s0 < 64 && s1 < 64 && s2 < 64 && s2 & 3 == 0) by (bit_vector)
        requires
            s0 == a >> 2,
            s1 == ((a & 3) << 4) | (b >> 4),
            s2 == (b & 15) << 2,
    ;
    assert(((s0 << 2) | (s1 >> 4)) == a && (((s1 & 15) << 4) | (s2 >> 2)) == b) by (bit_vector)
        requires
            s0 == a >> 2,
            s1 == ((a & 3) << 4) | (b >> 4),
            s2 == (b & 15) << 2,
    ;
    assert(decode_quad(s0, s1, s2, 0).take(2) =~= seq![a, b]);
}

/// One byte comes back from its two characters and the padding.
proof fn lemma_single_roundtrip(a: u8)
    ensures
        a >> 2 < 64,
        (a & 3) << 4 < 64,
        ((a & 3) << 4) & 15 == 0,
        decode_quad(a >> 2, (a & 3) << 4, 0, 0).take(1) == seq![a],
{
    let s0 = a >> 2;
    let s1 = (a & 3) << 4;
    assert(s0 < 64 && s1 < 64 && s1 & 15 == 0) by (bit_vector)
        requires
            s0 == a >> 2,
            s1 == (a & 3) << 4,
    ;
    assert(((s0 << 2) | (s1 >> 4)) == a) by (bit_vector)
        requires
            s0 == a >> 2,
            s1 == (a & 3) << 4,
    ;
    assert(decode_quad(s0, s1, 0, 0).take(1) =~= seq![a]);
}

/// Base64 text is four characters for every started group of three bytes.
pub proof fn lemma_base64_len(data: Seq<u8>)
    ensures
        base64_standard(data).len() == 4 * ((data.len() + 2) / 3),
    decreases data.len(),
{
    if data.len() > 2 {
        lemma_base64_len(data.skip(3));
    }
}

/// Decoding base64 gives back the bytes that were encoded.
pub proof fn law_base64_roundtrip(data: Seq<u8>)
    ensures
        base64_decode(base64_standard(data)) == Some(data),
    decreases data.len(),
{
    let s = base64_standard(data);
    if data.len() == 1 {
        lemma_single_roundtrip(data[0]);
        lemma_b64_char(data[0] >> 2);
        lemma_b64_char((data[0] & 3) << 4);
        assert(data =~= seq![data[0]]);
    } else if data.len() == 2 {
        lemma_pair_roundtrip(data[0], data[1]);
        lemma_b64_char(data[0] >> 2);
        lemma_b64_char(((data[0] & 3) << 4) | (data[1] >> 4));
        lemma_b64_char((data[1] & 15) << 2);
        assert(data =~= seq![data[0], data[1]]);
    } else if data.len() > 2 {
        let (a, b, c) = (data[0], data[1], data[2]);
        lemma_triple_roundtrip(a, b, c);
        lemma_b64_char(a >> 2);
        lemma_b64_char(((a & 3) << 4) | (b >> 4));
        lemma_b64_char(((b & 15) << 2) | (c >> 6));
        lemma_b64_char(c & 63);
        law_base64_roundtrip(data.skip(3));
        lemma_base64_len(data.skip(3));
        let rest = base64_standard(data.skip(3));
        assert(s.skip(4) =~= rest);
        assert(data =~= seq![a, b, c] + data.skip(3));
        if data.len() == 3 {
            assert(rest.len() == 0);
            assert(s =~= encode_triple(a, b, c));
            assert(data.skip(3) =~= Seq::<u8>::empty());
        }
    }
}

/// For a length of the form `3k + 2`, the text ends in exactly one `=`.
pub proof fn lemma_base64_one_pad(data: Seq<u8>)
    requires
        data.len() % 3 == 2,
    ensures
        base64_standard(data).len() >= 2,
        base64_standard(data).last() == '=',
        base64_standard(data)[base64_standard(data).len() - 2] != '=',
    decreases data.len(),
{
    if data.len() == 2 {
        lemma_pair_roundtrip(data[0], data[1]);
        lemma_b64_char((data[1] & 15) << 2);
    } else {
        lemma_base64_one_pad(data.skip(3));
        let rest = base64_standard(data.skip(3));
        let s = base64_standard(data);
        assert(s.len() == 4 + rest.len());
        assert(s.last() == rest.last());
        assert(s[s.len() - 2] == rest[rest.len() - 2]);
    }
}

} // verus!
