//! Unpadded base32 (RFC 4648, alphabet `A`–`Z`, `2`–`7`), as the
//! `data_encoding` crate computes it.
use vstd::prelude::*;
use vstd::utf8::is_ascii_chars;

verus! {

/// The base32 symbol of a 5-bit value.
pub open spec fn base32_symbol(value: u8) -> char {
    if value < 26 {
        (65 + value) as char
    } else {
        (50 + value - 26) as char
    }
}

/// Whether a character is a symbol of the base32 alphabet.
pub open spec fn is_base32_symbol(c: char) -> bool {
    ('A' <= c && c <= 'Z') || ('2' <= c && c <= '7')
}

/// The number of symbols that encode `n` bytes without padding.
pub open spec fn base32_len(n: nat) -> nat {
    (n * 8 + 4) / 5
}

/// Bit `k` of `data`, counting from the most significant bit of the first
/// byte; bits past the end are 0.
pub open spec fn data_bit(data: Seq<u8>, k: int) -> u8 {
    if 0 <= k < data.len() * 8 {
        (data[k / 8] >> ((7 - k % 8) as u8)) & 1u8
    } else {
        0u8
    }
}

/// The 5-bit value of the `i`-th group of bits of `data`.
pub open spec fn group_value(data: Seq<u8>, i: int) -> u8 {
    (data_bit(data, 5 * i) << 4u8) | (data_bit(data, 5 * i + 1) << 3u8) | (data_bit(data, 5 * i + 2)
        << 2u8) | (data_bit(data, 5 * i + 3) << 1u8) | data_bit(data, 5 * i + 4)
}

/// Unpadded base32 of RFC 4648: the bits of the data, most significant
/// first, in groups of five, the last group filled with zero bits, each
/// group written as its symbol.
pub open spec fn base32_encoding(data: Seq<u8>) -> Seq<char> {
    Seq::new(base32_len(data.len()), |i: int| base32_symbol(group_value(data, i)))
}

/// The data whose unpadded base32 is `text`, or `None` where no data has
/// that text (a wrong length, a symbol outside the alphabet, or non-zero
/// filling bits).
pub open spec fn base32_decoding(text: Seq<char>) -> Option<Seq<u8>> {
    if exists|data: Seq<u8>| base32_encoding(data) == text {
        Some(choose|data: Seq<u8>| base32_encoding(data) == text)
    } else {
        None
    }
}

/// A symbol names one 5-bit value, and is an ASCII symbol of the alphabet.
proof fn lemma_symbol(a: u8, b: u8)
    requires
        a < 32,
        b < 32,
    ensures
        base32_symbol(a) == base32_symbol(b) ==> a == b,
        is_base32_symbol(base32_symbol(a)),
        '\0' <= base32_symbol(a) <= '\u{7f}',
{
}

/// A bit is 0 or 1.
proof fn lemma_bit_range(data: Seq<u8>, k: int)
    ensures
        data_bit(data, k) <= 1,
{
    if 0 <= k < data.len() * 8 {
        let x = data[k / 8];
        let sh = (7 - k % 8) as u8;
        assert((x >> sh) & 1u8 <= 1u8) by (bit_vector);
    }
}

/// Five bits make a value below 32 that gives each of them back.
proof fn lemma_group_bits(b0: u8, b1: u8, b2: u8, b3: u8, b4: u8)
    by (bit_vector)
    requires
        b0 <= 1,
        b1 <= 1,
        b2 <= 1,
        b3 <= 1,
        b4 <= 1,
    ensures
        ({
            let g = (b0 << 4u8) | (b1 << 3u8) | (b2 << 2u8) | (b3 << 1u8) | b4;
            &&& g < 32
            &&& (g >> 4u8) & 1u8 == b0
            &&& (g >> 3u8) & 1u8 == b1
            &&& (g >> 2u8) & 1u8 == b2
            &&& (g >> 1u8) & 1u8 == b3
            &&& g & 1u8 == b4
        }),
{
}

/// Different lengths of data have texts of different lengths.
proof fn lemma_len_injective(n1: nat, n2: nat)
    requires
        base32_len(n1) == base32_len(n2),
    ensures
        n1 == n2,
{
    if n1 < n2 {
        assert(base32_len(n1) < base32_len(n2)) by (nonlinear_arith)
            requires
                n1 < n2,
        ;
    } else if n2 < n1 {
        assert(base32_len(n2) < base32_len(n1)) by (nonlinear_arith)
            requires
                n2 < n1,
        ;
    }
}

/// The value of a group is below 32 and gives each of its five bits back.
proof fn lemma_group_of_bits(data: Seq<u8>, i: int)
    ensures
        group_value(data, i) < 32,
        data_bit(data, 5 * i) == (group_value(data, i) >> 4u8) & 1u8,
        data_bit(data, 5 * i + 1) == (group_value(data, i) >> 3u8) & 1u8,
        data_bit(data, 5 * i + 2) == (group_value(data, i) >> 2u8) & 1u8,
        data_bit(data, 5 * i + 3) == (group_value(data, i) >> 1u8) & 1u8,
        data_bit(data, 5 * i + 4) == group_value(data, i) & 1u8,
{
    lemma_bit_range(data, 5 * i);
    lemma_bit_range(data, 5 * i + 1);
    lemma_bit_range(data, 5 * i + 2);
    lemma_bit_range(data, 5 * i + 3);
    lemma_bit_range(data, 5 * i + 4);
    lemma_group_bits(
        data_bit(data, 5 * i),
        data_bit(data, 5 * i + 1),
        data_bit(data, 5 * i + 2),
        data_bit(data, 5 * i + 3),
        data_bit(data, 5 * i + 4),
    );
}

/// A byte is the sum of its eight bits.
proof fn lemma_byte_of_bits(x: u8)
    by (bit_vector)
    ensures
        x == ((((x >> 7u8) & 1u8) << 7u8) | (((x >> 6u8) & 1u8) << 6u8) | (((x >> 5u8) & 1u8)
            << 5u8) | (((x >> 4u8) & 1u8) << 4u8) | (((x >> 3u8) & 1u8) << 3u8) | (((x >> 2u8)
            & 1u8) << 2u8) | (((x >> 1u8) & 1u8) << 1u8) | (x & 1u8)),
{
}

/// The bits of byte `m` are bits `8m` to `8m + 7` of the data.
proof fn lemma_bits_of_byte(data: Seq<u8>, m: int)
    requires
        0 <= m < data.len(),
    ensures
        data_bit(data, 8 * m) == (data[m] >> 7u8) & 1u8,
        data_bit(data, 8 * m + 1) == (data[m] >> 6u8) & 1u8,
        data_bit(data, 8 * m + 2) == (data[m] >> 5u8) & 1u8,
        data_bit(data, 8 * m + 3) == (data[m] >> 4u8) & 1u8,
        data_bit(data, 8 * m + 4) == (data[m] >> 3u8) & 1u8,
        data_bit(data, 8 * m + 5) == (data[m] >> 2u8) & 1u8,
        data_bit(data, 8 * m + 6) == (data[m] >> 1u8) & 1u8,
        data_bit(data, 8 * m + 7) == data[m] & 1u8,
{
    let x = data[m];
    assert((x >> 0u8) & 1u8 == x & 1u8) by (bit_vector);
    assert forall|t: int| 0 <= t < 8 implies #[trigger] ((8 * m + t) / 8) == m && (8 * m + t) % 8
        == t by {
        assert((8 * m + t) / 8 == m && (8 * m + t) % 8 == t) by (nonlinear_arith)
            requires
                0 <= t < 8,
                0 <= m,
        ;
    }
    assert((8 * m) / 8 == m);
    assert((8 * m + 1) / 8 == m);
    assert((8 * m + 2) / 8 == m);
    assert((8 * m + 3) / 8 == m);
    assert((8 * m + 4) / 8 == m);
    assert((8 * m + 5) / 8 == m);
    assert((8 * m + 6) / 8 == m);
    assert((8 * m + 7) / 8 == m);
}

/// Different data have different texts.
proof fn lemma_encoding_injective(d1: Seq<u8>, d2: Seq<u8>)
    requires
        base32_encoding(d1) == base32_encoding(d2),
    ensures
        d1 == d2,
{
    assert(base32_encoding(d1).len() == base32_len(d1.len()));
    assert(base32_encoding(d2).len() == base32_len(d2.len()));
    lemma_len_injective(d1.len(), d2.len());
    let n = d1.len();
    assert forall|k: int| 0 <= k < n * 8 implies data_bit(d1, k) == data_bit(d2, k) by {
        let i = k / 5;
        let j = k % 5;
        assert(0 <= i < base32_len(n) && k == 5 * i + j && 0 <= j < 5) by (nonlinear_arith)
            requires
                0 <= k < n * 8,
                i == k / 5,
                j == k % 5,
        ;
        assert(base32_encoding(d1)[i] == base32_encoding(d2)[i]);
        lemma_group_of_bits(d1, i);
        lemma_group_of_bits(d2, i);
        lemma_symbol(group_value(d1, i), group_value(d2, i));
        assert(base32_encoding(d1)[i] == base32_symbol(group_value(d1, i)));
        assert(base32_encoding(d2)[i] == base32_symbol(group_value(d2, i)));
        assert(group_value(d1, i) == group_value(d2, i));
        if j == 0 {
            assert(k == 5 * i);
        } else if j == 1 {
            assert(k == 5 * i + 1);
        } else if j == 2 {
            assert(k == 5 * i + 2);
        } else if j == 3 {
            assert(k == 5 * i + 3);
        } else {
            assert(k == 5 * i + 4);
        }
    }
    assert forall|m: int| 0 <= m < n implies d1[m] == d2[m] by {
        lemma_bits_of_byte(d1, m);
        lemma_bits_of_byte(d2, m);
        assert(0 <= 8 * m && 8 * m + 7 < n * 8) by (nonlinear_arith)
            requires
                0 <= m < n,
        ;
        assert(data_bit(d1, 8 * m) == data_bit(d2, 8 * m));
        assert(data_bit(d1, 8 * m + 1) == data_bit(d2, 8 * m + 1));
        assert(data_bit(d1, 8 * m + 2) == data_bit(d2, 8 * m + 2));
        assert(data_bit(d1, 8 * m + 3) == data_bit(d2, 8 * m + 3));
        assert(data_bit(d1, 8 * m + 4) == data_bit(d2, 8 * m + 4));
        assert(data_bit(d1, 8 * m + 5) == data_bit(d2, 8 * m + 5));
        assert(data_bit(d1, 8 * m + 6) == data_bit(d2, 8 * m + 6));
        assert(data_bit(d1, 8 * m + 7) == data_bit(d2, 8 * m + 7));
        lemma_byte_of_bits(d1[m]);
        lemma_byte_of_bits(d2[m]);
    }
    assert(d1 =~= d2);
}

#[verifier::external_type_specification]
#[verifier::external_body]
pub struct ExDecodeError(data_encoding::DecodeError);

/// The first two symbols of a text carry the top bits of the first bytes.
proof fn lemma_first_symbols(data: Seq<u8>)
    ensures
        data.len() >= 1 ==> group_value(data, 0) == data[0] >> 3u8,
        data.len() >= 2 ==> group_value(data, 1) == ((data[0] & 7u8) << 2u8) | (data[1] >> 6u8),
{
    if data.len() >= 1 {
        lemma_bits_of_byte(data, 0);
        let x = data[0];
        assert(((((x >> 7u8) & 1u8) << 4u8) | (((x >> 6u8) & 1u8) << 3u8) | (((x >> 5u8) & 1u8)
            << 2u8) | (((x >> 4u8) & 1u8) << 1u8) | ((x >> 3u8) & 1u8)) == x >> 3u8)
            by (bit_vector);
    }
    if data.len() >= 2 {
        lemma_bits_of_byte(data, 0);
        lemma_bits_of_byte(data, 1);
        let x = data[0];
        let y = data[1];
        assert(((((x >> 2u8) & 1u8) << 4u8) | (((x >> 1u8) & 1u8) << 3u8) | ((x & 1u8) << 2u8) | (
        ((y >> 7u8) & 1u8) << 1u8) | ((y >> 6u8) & 1u8)) == ((x & 7u8) << 2u8) | (y >> 6u8))
            by (bit_vector);
    }
}

/// What a text of data is: `ceil(8n/5)` ASCII symbols of the alphabet, its
/// first symbols carrying the top bits, and decoding it gives the data back.
pub proof fn lemma_encoding_facts(data: Seq<u8>)
    ensures
        base32_decoding(base32_encoding(data)) == Some(data),
        is_ascii_chars(base32_encoding(data)),
        base32_encoding(data).len() == base32_len(data.len()),
        forall|i: int|
            0 <= i < base32_encoding(data).len() ==> is_base32_symbol(
                #[trigger] base32_encoding(data)[i],
            ),
        data.len() >= 1 ==> base32_encoding(data)[0] == base32_symbol(data[0] >> 3u8),
        data.len() >= 2 ==> base32_encoding(data)[1] == base32_symbol(
            ((data[0] & 7u8) << 2u8) | (data[1] >> 6u8),
        ),
{
    let text = base32_encoding(data);
    assert forall|i: int| 0 <= i < text.len() implies is_base32_symbol(#[trigger] text[i]) && '\0'
        <= text[i] <= '\u{7f}' by {
        lemma_group_of_bits(data, i);
        lemma_symbol(group_value(data, i), group_value(data, i));
    }
    let other = choose|d: Seq<u8>| base32_encoding(d) == text;
    lemma_encoding_injective(other, data);
    lemma_first_symbols(data);
}

/// The data of a text of `n` symbols is `floor(5n/8)` bytes long.
proof fn lemma_decoded_length(data: Seq<u8>)
    ensures
        data.len() == base32_encoding(data).len() * 5 / 8,
{
    let n = data.len();
    let l = base32_len(n);
    assert(l * 5 / 8 == n) by (nonlinear_arith)
        requires
            l == (n * 8 + 4) / 5,
    ;
}

/// Calls `data_encoding::BASE32_NOPAD.encode`.
///
/// Trusted: the result is the unpadded base32 of `data` as RFC 4648 defines
/// it, which the crate documents itself to compute.
#[verifier::external_body]
fn encode_nopad(data: &[u8]) -> (text: String)
    ensures
        text@ == base32_encoding(data@),
{
    data_encoding::BASE32_NOPAD.encode(data)
}

/// Calls `data_encoding::BASE32_NOPAD.decode` on the bytes of `text`.
///
/// Trusted: the call succeeds exactly on the texts that are the unpadded
/// base32 of some data, and then returns that data (the crate documents
/// `BASE32_NOPAD` as canonical: it checks the length and the filling bits and
/// rejects every text that the encoder could not have written).
#[verifier::external_body]
fn decode_nopad(text: &str) -> (res: Result<Vec<u8>, data_encoding::DecodeError>)
    ensures
        res is Ok <==> base32_decoding(text@) is Some,
        res matches Ok(data) ==> base32_encoding(data@) == text@,
{
    data_encoding::BASE32_NOPAD.decode(text.as_bytes())
}

/// The unpadded base32 of `data`.
pub(crate) fn base32_encode(data: &[u8]) -> (text: String)
    ensures
        text@ == base32_encoding(data@),
        base32_decoding(text@) == Some(data@),
        is_ascii_chars(text@),
        text@.len() == base32_len(data@.len()),
        forall|i: int| 0 <= i < text@.len() ==> is_base32_symbol(#[trigger] text@[i]),
        data@.len() >= 1 ==> text@[0] == base32_symbol(data@[0] >> 3u8),
        data@.len() >= 2 ==> text@[1] == base32_symbol(
            ((data@[0] & 7u8) << 2u8) | (data@[1] >> 6u8),
        ),
{
    let text = encode_nopad(data);
    proof {
        lemma_encoding_facts(data@);
    }
    text
}

/// The data whose unpadded base32 is `text`, or the decoder's error where
/// there is none.
pub(crate) fn base32_decode(text: &str) -> (res: Result<Vec<u8>, data_encoding::DecodeError>)
    ensures
        res is Ok <==> base32_decoding(text@) is Some,
        res matches Ok(data) ==> {
            &&& base32_decoding(text@) == Some(data@)
            &&& base32_encoding(data@) == text@
            &&& is_ascii_chars(text@)
            &&& data@.len() == text@.len() * 5 / 8
        },
{
    let res = decode_nopad(text);
    proof {
        if let Ok(data) = &res {
            lemma_encoding_facts(data@);
            lemma_decoded_length(data@);
        }
    }
    res
}

} // verus!
