//! Images, carried as text.

use vstd::prelude::*;
use vstd::string::*;

verus! {

/// The character that stands for a number below 64.
pub open spec fn base64_symbol(number: int) -> char {
    if number < 26 {
        ('A' as int + number) as char
    } else if number < 52 {
        ('a' as int + (number - 26)) as char
    } else if number < 62 {
        ('0' as int + (number - 52)) as char
    } else if number == 62 {
        '+'
    } else {
        '/'
    }
}

/// The byte at place `i`, or zero behind the last one.
pub open spec fn byte_at(data: Seq<u8>, i: int) -> int {
    if i < data.len() {
        data[i] as int
    } else {
        0
    }
}

/// The six bits of `data` that begin at bit `6 * i`, with zeros behind the last byte.
pub open spec fn six_bits(data: Seq<u8>, i: int) -> int {
    let first = i / 4 * 3;
    let group = byte_at(data, first) * 0x1_0000 + byte_at(data, first + 1) * 0x100 + byte_at(
        data,
        first + 2,
    );
    if i % 4 == 0 {
        group / 0x4_0000
    } else if i % 4 == 1 {
        group / 0x1000 % 64
    } else if i % 4 == 2 {
        group / 64 % 64
    } else {
        group % 64
    }
}

/// The length of the Base64 text of `len` bytes.
pub open spec fn base64_len(len: nat) -> nat {
    (len + 2) / 3 * 4
}

/// The Base64 text of `data` in the standard alphabet: one character for every six bits begun,
/// and equals signs up to a multiple of four characters.
pub open spec fn base64_standard(data: Seq<u8>) -> Seq<char> {
    Seq::new(
        base64_len(data.len()),
        |i: int|
            if i * 6 < data.len() * 8 {
                base64_symbol(six_bits(data, i))
            } else {
                '='
            },
    )
}

/// Calls `Engine::encode` of the `base64` crate on its standard engine: the result is the text
/// of the bytes in the standard alphabet of RFC 4648, padded. That text must fit in memory.
#[verifier::external_body]
fn encode_base64(data: &Vec<u8>) -> (res: String)
    requires
        base64_len(data@.len()) <= isize::MAX,
    ensures
        res@ == base64_standard(data@),
{
    base64::Engine::encode(&base64::prelude::BASE64_STANDARD, data)
}

/// An image given as bytes, as Base64 text.
pub fn encode_thumbnail(data: &Vec<u8>) -> (res: String)
    requires
        base64_len(data@.len()) <= isize::MAX,
    ensures
        res@ == base64_standard(data@),
{
    encode_base64(data)
}

/// A data URL of the given type that holds the given Base64 text.
pub open spec fn data_url_of(mime_type: Seq<char>, encoded: Seq<char>) -> Seq<char> {
    "data:"@ + mime_type + ";base64,"@ + encoded
}

/// A data URL of the given type that holds the given Base64 text.
pub fn data_url(mime_type: &str, encoded: &str) -> (res: String)
    ensures
        res@ == data_url_of(mime_type@, encoded@),
{
    let mut res = "data:".to_string();
    res.append(mime_type);
    res.append(";base64,");
    res.append(encoded);
    res
}

/// The text that is made of an image and its type, if any is made, fits in memory.
pub open spec fn thumbnail_fits(data: Option<Vec<u8>>, mime_type: Option<String>) -> bool {
    match (data, mime_type) {
        (Some(data), Some(_)) => base64_len(data@.len()) <= isize::MAX,
        _ => true,
    }
}

/// The image as a data URL, where both the image and its type are known.
pub open spec fn thumbnail_of(data: Option<Vec<u8>>, mime_type: Option<String>) -> Option<
    Seq<char>,
> {
    match (data, mime_type) {
        (Some(data), Some(mime_type)) => Some(data_url_of(mime_type@, base64_standard(data@))),
        _ => None,
    }
}

/// The image as a data URL, where both the image and its type are known.
pub fn thumbnail(data: &Option<Vec<u8>>, mime_type: &Option<String>) -> (res: Option<String>)
    requires
        thumbnail_fits(*data, *mime_type),
    ensures
        res.deep_view() == thumbnail_of(*data, *mime_type),
{
    match data {
        Some(data) => match mime_type {
            Some(mime_type) => {
                let encoded = encode_thumbnail(data);
                Some(data_url(mime_type.as_str(), encoded.as_str()))
            },
            None => None,
        },
        None => None,
    }
}

/// The number that a character of Base64 text stands for, by the ranges of the alphabet.
pub open spec fn base64_value(symbol: char) -> int {
    if 'A' <= symbol <= 'Z' {
        symbol as int - 'A' as int
    } else if 'a' <= symbol <= 'z' {
        symbol as int - 'a' as int + 26
    } else if '0' <= symbol <= '9' {
        symbol as int - '0' as int + 52
    } else if symbol == '+' {
        62
    } else {
        63
    }
}

proof fn lemma_value_of_symbol(number: int)
    requires
        0 <= number < 64,
    ensures
        base64_value(base64_symbol(number)) == number,
        base64_symbol(number) != '=',
{
}

proof fn lemma_six_bits(data: Seq<u8>, i: int)
    requires
        0 <= i,
    ensures
        0 <= six_bits(data, i) < 64,
{
}

proof fn lemma_group(a: int, b: int, c: int)
    requires
        0 <= a < 256,
        0 <= b < 256,
        0 <= c < 256,
    ensures
        ({
            let group = a * 0x1_0000 + b * 0x100 + c;
            &&& group / 0x4_0000 == a / 4
            &&& group / 0x1000 % 64 == a % 4 * 16 + b / 16
            &&& group / 64 % 64 == b % 16 * 4 + c / 64
            &&& group % 64 == c % 64
        }),
{
    let (p, q, r, s) = (a / 4, a % 4 * 16 + b / 16, b % 16 * 4 + c / 64, c % 64);
    let group = a * 0x1_0000 + b * 0x100 + c;
    assert(a == 4 * (a / 4) + a % 4 && b == 16 * (b / 16) + b % 16 && c == 64 * (c / 64) + c % 64);
    assert(0 <= q < 64 && 0 <= r < 64 && 0 <= s < 64);
    assert(group == p * 0x4_0000 + q * 0x1000 + r * 64 + s);
    lemma_digits(p * 4096 + q * 64 + r, s);
    lemma_digits(p * 64 + q, r);
    lemma_digits(p, q);
    assert(group / 0x1000 == group / 64 / 64);
    assert(group / 0x4_0000 == group / 64 / 64 / 64);
}

proof fn lemma_digits(high: int, low: int)
    requires
        0 <= low < 64,
    ensures
        (high * 64 + low) / 64 == high,
        (high * 64 + low) % 64 == low,
{
}

/// The four groups of six bits that three bytes are made of.
proof fn lemma_four_groups(data: Seq<u8>, m: int)
    requires
        0 <= m,
    ensures
        ({
            let a = byte_at(data, 3 * m);
            let b = byte_at(data, 3 * m + 1);
            let c = byte_at(data, 3 * m + 2);
            &&& 0 <= a < 256 && 0 <= b < 256 && 0 <= c < 256
            &&& six_bits(data, 4 * m) == a / 4
            &&& six_bits(data, 4 * m + 1) == a % 4 * 16 + b / 16
            &&& six_bits(data, 4 * m + 2) == b % 16 * 4 + c / 64
            &&& six_bits(data, 4 * m + 3) == c % 64
        }),
{
    lemma_group(byte_at(data, 3 * m), byte_at(data, 3 * m + 1), byte_at(data, 3 * m + 2));
    assert((4 * m) / 4 == m && (4 * m + 1) / 4 == m && (4 * m + 2) / 4 == m && (4 * m + 3) / 4
        == m);
    assert((4 * m) % 4 == 0 && (4 * m + 1) % 4 == 1 && (4 * m + 2) % 4 == 2 && (4 * m + 3) % 4
        == 3);
    assert(m * 3 == 3 * m);
}

/// A character that holds bits of the data stands for those bits.
proof fn lemma_character(data: Seq<u8>, i: int)
    requires
        0 <= i,
        i * 6 < data.len() * 8,
    ensures
        i < base64_standard(data).len(),
        base64_value(base64_standard(data)[i]) == six_bits(data, i),
{
    lemma_six_bits(data, i);
    lemma_value_of_symbol(six_bits(data, i));
    assert(i < base64_len(data.len()));
}

/// Base64 text can be read back: every byte is made of the bits of two neighbouring characters,
/// so two images with the same text are the same.
pub proof fn base64_can_be_read_back(data: Seq<u8>, k: int)
    requires
        0 <= k < data.len(),
    ensures
        ({
            let text = base64_standard(data);
            let value = |i: int| base64_value(text[i]);
            let first = k / 3 * 4;
            &&& first + k % 3 + 1 < text.len()
            &&& k % 3 == 0 ==> data[k] == value(first) * 4 + value(first + 1) / 16
            &&& k % 3 == 1 ==> data[k] == value(first + 1) % 16 * 16 + value(first + 2) / 4
            &&& k % 3 == 2 ==> data[k] == value(first + 2) % 4 * 64 + value(first + 3)
        }),
{
    let m = k / 3;
    assert(k == 3 * m + k % 3 && m * 4 == 4 * m);
    lemma_four_groups(data, m);
    if k % 3 == 0 {
        lemma_character(data, 4 * m);
        lemma_character(data, 4 * m + 1);
    } else if k % 3 == 1 {
        lemma_character(data, 4 * m + 1);
        lemma_character(data, 4 * m + 2);
    } else {
        lemma_character(data, 4 * m + 2);
        lemma_character(data, 4 * m + 3);
    }
}

/// Base64 text is as long as four characters for every three bytes begun, and is filled up with
/// equals signs, two behind a single last byte and one behind two.
pub proof fn base64_is_filled_up(data: Seq<u8>, i: int)
    requires
        0 <= i < base64_standard(data).len(),
    ensures
        base64_standard(data).len() % 4 == 0,
        3 * base64_standard(data).len() >= 4 * data.len(),
        3 * base64_standard(data).len() < 4 * data.len() + 12,
        base64_standard(data)[i] == '=' <==> i >= base64_standard(data).len() - (3 - data.len() % 3)
            % 3,
{
    lemma_six_bits(data, i);
    lemma_value_of_symbol(six_bits(data, i));
}

/// There is a thumbnail exactly where both the image and its type are known. It names the type
/// and then gives the image, and nothing else.
pub proof fn thumbnail_tells_type_and_image(data: Option<Vec<u8>>, mime_type: Option<String>)
    ensures
        thumbnail_of(data, mime_type) is Some <==> data is Some && mime_type is Some,
        thumbnail_of(data, mime_type) matches Some(url) ==> url == "data:"@ + mime_type->0@
            + ";base64,"@ + base64_standard(data->0@),
{
}

/// A data URL names its type and then gives its text.
pub proof fn data_url_tells_type_and_text(mime_type: Seq<char>, encoded: Seq<char>)
    ensures
        data_url_of(mime_type, encoded) == "data:"@ + mime_type + ";base64,"@ + encoded,
{
}

} // verus!
