use hmac::Mac;
use vstd::prelude::*;

verus! {

/// The HMAC-SHA1 tag of `data` under `key`.
pub uninterp spec fn hmac_sha1(key: Seq<u8>, data: Seq<u8>) -> Seq<u8>;

/// The number of bytes in a SHA-1 digest.
pub const SHA1_LEN: usize = 20;

/// `hmac::Hmac<sha1::Sha1>`: keys the MAC with `key` (a key of any length
/// is accepted), feeds it `data`, and returns the 20-byte tag.
#[verifier::external_body]
pub(crate) fn hmac_sha1_tag(key: &[u8], data: &[u8]) -> (tag: Vec<u8>)
    ensures
        tag@ == hmac_sha1(key@, data@),
        tag@.len() == SHA1_LEN,
{
    let mut mac = hmac::Hmac::<sha1::Sha1>::new_from_slice(key).expect("any key length is valid");
    mac.update(data);
    mac.finalize().into_bytes().to_vec()
}

/// The character that stands for the six-bit value `v` in the standard
/// base64 alphabet: `A`-`Z`, `a`-`z`, `0`-`9`, `+`, `/`.
pub open spec fn base64_symbol(v: u8) -> char {
    if v < 26 {
        (('A' as u8) + v) as char
    } else if v < 52 {
        (('a' as u8) + (v - 26)) as char
    } else if v < 62 {
        (('0' as u8) + (v - 52)) as char
    } else if v == 62 {
        '+'
    } else {
        '/'
    }
}

/// Standard base64 with padding: each group of three bytes becomes four
/// symbols; a final group of one or two bytes is filled up with `=`.
pub open spec fn base64_text(bytes: Seq<u8>) -> Seq<char>
    decreases bytes.len(),
{
    if bytes.len() == 0 {
        Seq::empty()
    } else if bytes.len() == 1 {
        seq![
            base64_symbol(bytes[0] >> 2),
            base64_symbol((bytes[0] & 3) << 4),
            '=',
            '=',
        ]
    } else if bytes.len() == 2 {
        seq![
            base64_symbol(bytes[0] >> 2),
            base64_symbol(((bytes[0] & 3) << 4) | (bytes[1] >> 4)),
            base64_symbol((bytes[1] & 15) << 2),
            '=',
        ]
    } else {
        seq![
            base64_symbol(bytes[0] >> 2),
            base64_symbol(((bytes[0] & 3) << 4) | (bytes[1] >> 4)),
            base64_symbol(((bytes[1] & 15) << 2) | (bytes[2] >> 6)),
            base64_symbol(bytes[2] & 63),
        ] + base64_text(bytes.skip(3))
    }
}

/// `base64::engine::general_purpose::STANDARD.encode`: the padded standard
/// base64 text of `bytes`. The input must be short enough for the length
/// of the text to fit in `usize`.
#[verifier::external_body]
pub(crate) fn base64_encode(bytes: &[u8]) -> (text: String)
    requires
        bytes@.len() / 3 * 4 + 4 <= usize::MAX,
    ensures
        text@ == base64_text(bytes@),
{
    base64::Engine::encode(&base64::engine::general_purpose::STANDARD, bytes)
}

/// Different six-bit values have different symbols, and none is the padding sign.
pub proof fn lemma_symbol_injective(v: u8, w: u8)
    requires
        v < 64,
        w < 64,
    ensures
        base64_symbol(v) != '=',
        base64_symbol(v) == base64_symbol(w) ==> v == w,
{
}

/// An encoding has four characters for every started group of three bytes.
pub proof fn lemma_base64_len(bytes: Seq<u8>)
    ensures
        base64_text(bytes).len() == 4 * ((bytes.len() + 2) / 3),
    decreases bytes.len(),
{
    if bytes.len() >= 3 {
        lemma_base64_len(bytes.skip(3));
    }
}

proof fn lemma_sextets_in_range(x: u8, y: u8, z: u8)
    ensures
        (x >> 2) < 64,
        ((x & 3) << 4) < 64,
        (((x & 3) << 4) | (y >> 4)) < 64,
        ((y & 15) << 2) < 64,
        (((y & 15) << 2) | (z >> 6)) < 64,
        (z & 63) < 64,
{
    assert((x >> 2) < 64) by (bit_vector);
    assert(((x & 3) << 4) < 64) by (bit_vector);
    assert((((x & 3) << 4) | (y >> 4)) < 64) by (bit_vector);
    assert(((y & 15) << 2) < 64) by (bit_vector);
    assert((((y & 15) << 2) | (z >> 6)) < 64) by (bit_vector);
    assert((z & 63) < 64) by (bit_vector);
}

proof fn lemma_one_byte_group(x: u8, y: u8)
    requires
        x >> 2 == y >> 2,
        (x & 3) << 4 == (y & 3) << 4,
    ensures
        x == y,
{
    assert(x >> 2 == y >> 2 && (x & 3) << 4 == (y & 3) << 4 ==> x == y) by (bit_vector);
}

proof fn lemma_two_byte_group(x0: u8, x1: u8, y0: u8, y1: u8)
    requires
        x0 >> 2 == y0 >> 2,
        ((x0 & 3) << 4) | (x1 >> 4) == ((y0 & 3) << 4) | (y1 >> 4),
        (x1 & 15) << 2 == (y1 & 15) << 2,
    ensures
        x0 == y0,
        x1 == y1,
{
    assert(x0 >> 2 == y0 >> 2 && ((x0 & 3) << 4) | (x1 >> 4) == ((y0 & 3) << 4) | (y1 >> 4) && (x1
        & 15) << 2 == (y1 & 15) << 2 ==> x0 == y0 && x1 == y1) by (bit_vector);
}

proof fn lemma_three_byte_group(x0: u8, x1: u8, x2: u8, y0: u8, y1: u8, y2: u8)
    requires
        x0 >> 2 == y0 >> 2,
        ((x0 & 3) << 4) | (x1 >> 4) == ((y0 & 3) << 4) | (y1 >> 4),
        ((x1 & 15) << 2) | (x2 >> 6) == ((y1 & 15) << 2) | (y2 >> 6),
        x2 & 63 == y2 & 63,
    ensures
        x0 == y0,
        x1 == y1,
        x2 == y2,
{
    assert(x0 >> 2 == y0 >> 2 && ((x0 & 3) << 4) | (x1 >> 4) == ((y0 & 3) << 4) | (y1 >> 4) && ((x1
        & 15) << 2) | (x2 >> 6) == ((y1 & 15) << 2) | (y2 >> 6) && x2 & 63 == y2 & 63 ==> x0 == y0
        && x1 == y1 && x2 == y2) by (bit_vector);
}

/// The symbols and padding signs of the first group of an encoding.
proof fn lemma_base64_head(bytes: Seq<u8>)
    requires
        bytes.len() >= 1,
    ensures
        base64_text(bytes).len() >= 4,
        base64_text(bytes)[0] == base64_symbol(bytes[0] >> 2),
        bytes.len() == 1 ==> base64_text(bytes)[1] == base64_symbol((bytes[0] & 3) << 4)
            && base64_text(bytes)[2] == '=' && base64_text(bytes)[3] == '=',
        bytes.len() >= 2 ==> base64_text(bytes)[1] == base64_symbol(
            ((bytes[0] & 3) << 4) | (bytes[1] >> 4),
        ),
        bytes.len() == 2 ==> base64_text(bytes)[2] == base64_symbol((bytes[1] & 15) << 2)
            && base64_text(bytes)[3] == '=',
        bytes.len() >= 3 ==> base64_text(bytes)[2] == base64_symbol(
            ((bytes[1] & 15) << 2) | (bytes[2] >> 6),
        ) && base64_text(bytes)[3] == base64_symbol(bytes[2] & 63) && base64_text(bytes).skip(4)
            == base64_text(bytes.skip(3)),
{
    lemma_base64_len(bytes);
    if bytes.len() >= 3 {
        let head = seq![
            base64_symbol(bytes[0] >> 2),
            base64_symbol(((bytes[0] & 3) << 4) | (bytes[1] >> 4)),
            base64_symbol(((bytes[1] & 15) << 2) | (bytes[2] >> 6)),
            base64_symbol(bytes[2] & 63),
        ];
        assert(base64_text(bytes) == head + base64_text(bytes.skip(3)));
        assert((head + base64_text(bytes.skip(3))).skip(4) =~= base64_text(bytes.skip(3)));
    }
}

/// Different byte strings have different base64 texts.
pub proof fn lemma_base64_injective(a: Seq<u8>, b: Seq<u8>)
    requires
        base64_text(a) == base64_text(b),
    ensures
        a == b,
    decreases a.len(),
{
    lemma_base64_len(a);
    lemma_base64_len(b);
    if a.len() == 0 || b.len() == 0 {
        assert(a =~= b);
    } else {
        lemma_base64_head(a);
        lemma_base64_head(b);
        let a1 = if a.len() >= 2 { a[1] } else { 0u8 };
        let a2 = if a.len() >= 3 { a[2] } else { 0u8 };
        let b1 = if b.len() >= 2 { b[1] } else { 0u8 };
        let b2 = if b.len() >= 3 { b[2] } else { 0u8 };
        lemma_sextets_in_range(a[0], a1, a2);
        lemma_sextets_in_range(b[0], b1, b2);
        lemma_symbol_injective(a[0] >> 2, b[0] >> 2);
        lemma_symbol_injective((a[0] & 3) << 4, (b[0] & 3) << 4);
        lemma_symbol_injective(((a[0] & 3) << 4) | (a1 >> 4), ((b[0] & 3) << 4) | (b1 >> 4));
        lemma_symbol_injective((a1 & 15) << 2, (b1 & 15) << 2);
        lemma_symbol_injective(((a1 & 15) << 2) | (a2 >> 6), ((b1 & 15) << 2) | (b2 >> 6));
        lemma_symbol_injective(a2 & 63, b2 & 63);
        if a.len() == 1 {
            assert(b.len() == 1);
            lemma_one_byte_group(a[0], b[0]);
            assert(a =~= b);
        } else if a.len() == 2 {
            assert(b.len() == 2);
            lemma_two_byte_group(a[0], a[1], b[0], b[1]);
            assert(a =~= b);
        } else {
            assert(b.len() >= 3);
            lemma_three_byte_group(a[0], a[1], a[2], b[0], b[1], b[2]);
            lemma_base64_injective(a.skip(3), b.skip(3));
            assert(a =~= a.take(3) + a.skip(3));
            assert(b =~= b.take(3) + b.skip(3));
            assert(a.take(3) =~= b.take(3));
        }
    }
}

} // verus!
