use vstd::prelude::*;

verus! {

/// The lowercase hexadecimal digit of a value below sixteen.
pub open spec fn hex_digit(n: u8) -> char {
    if n < 10 {
        ((n + 48) as u8) as char
    } else {
        ((n + 87) as u8) as char
    }
}

/// Two lowercase hexadecimal digits per byte, high half first.
pub open spec fn hex_of(b: Seq<u8>) -> Seq<char> {
    Seq::new(
        2 * b.len(),
        |i: int|
            if i % 2 == 0 {
                hex_digit(b[i / 2] / 16)
            } else {
                hex_digit(b[i / 2] % 16)
            },
    )
}

/// A character that base-16 decoding accepts, in either case.
pub open spec fn is_hex_char(c: char) -> bool {
    ('0' <= c && c <= '9') || ('a' <= c && c <= 'f') || ('A' <= c && c <= 'F')
}

/// The value of a base-16 character.
pub open spec fn hex_value(c: char) -> int {
    if '0' <= c && c <= '9' {
        c as int - 48
    } else if 'a' <= c && c <= 'f' {
        c as int - 87
    } else {
        c as int - 55
    }
}

/// Text that decodes: an even number of base-16 characters.
pub open spec fn is_hex_text(s: Seq<char>) -> bool {
    s.len() % 2 == 0 && forall|i: int| 0 <= i < s.len() ==> is_hex_char(#[trigger] s[i])
}

/// The bytes that base-16 text stands for, two characters per byte.
pub open spec fn bytes_of_hex(s: Seq<char>) -> Seq<u8> {
    Seq::new(
        s.len() / 2,
        |i: int| (16 * hex_value(s[2 * i]) + hex_value(s[2 * i + 1])) as u8,
    )
}

/// The HMAC-SHA-256 tag of a message under a key, both taken as UTF-8 text.
pub uninterp spec fn hmac_sha256_of(message: Seq<char>, key: Seq<char>) -> Seq<u8>;

/// The signature that the server sends for a body under a key: the
/// lowercase hexadecimal form of the HMAC-SHA-256 tag.
pub open spec fn signature_of(message: Seq<char>, key: Seq<char>) -> Seq<char> {
    hex_of(hmac_sha256_of(message, key))
}

/// Relies on `hex::encode`: two lowercase hexadecimal digits per byte.
#[verifier::external_body]
fn to_hex(bytes: &[u8]) -> (r: String)
    ensures
        r@ == hex_of(bytes@),
{
    hex::encode(bytes)
}

/// Relies on `hmac_sha256::HMAC::mac`: the tag of the message's bytes
/// under the key's bytes.
#[verifier::external_body]
fn hmac_sha256(message: &str, key: &str) -> (r: Vec<u8>)
    ensures
        r@ == hmac_sha256_of(message@, key@),
        r@.len() == 32,
{
    hmac_sha256::HMAC::mac(message, key).to_vec()
}

/// The hexadecimal HMAC-SHA-256 signature of `message` under `key`:
/// 64 lowercase hexadecimal digits.
pub fn make_hmac(message: &str, key: &str) -> (r: String)
    ensures
        r@ == signature_of(message@, key@),
        r@.len() == 64,
        forall|i: int| 0 <= i < r@.len() ==> is_lower_hex_char(#[trigger] r@[i]),
{
    let tag = hmac_sha256(message, key);
    let r = to_hex(tag.as_slice());
    proof {
        lemma_hex_digits_are_lowercase(tag@);
    }
    r
}

/// A lowercase hexadecimal digit.
pub open spec fn is_lower_hex_char(c: char) -> bool {
    ('0' <= c && c <= '9') || ('a' <= c && c <= 'f')
}

/// The hexadecimal form of a byte string is made of lowercase digits only.
pub proof fn lemma_hex_digits_are_lowercase(b: Seq<u8>)
    ensures
        forall|i: int| 0 <= i < hex_of(b).len() ==> is_lower_hex_char(#[trigger] hex_of(b)[i]),
{
    let h = hex_of(b);
    assert forall|n: u8| n < 16 implies is_lower_hex_char(#[trigger] hex_digit(n)) by {
        assert(n < 16);
    }
    assert forall|i: int| 0 <= i < h.len() implies is_lower_hex_char(#[trigger] h[i]) by {
        assert(b[i / 2] / 16 < 16);
    }
}

#[verifier::external_type_specification]
#[verifier::external_body]
pub struct ExDecodeError(base16::DecodeError);

/// Relies on `base16::decode`: it accepts exactly an even number of
/// characters from `[0-9a-fA-F]` and yields one byte per pair.
#[verifier::external_body]
fn base16_decode(text: &str) -> (r: Result<Vec<u8>, base16::DecodeError>)
    ensures
        r is Ok <==> is_hex_text(text@),
        r is Ok ==> r->Ok_0@ == bytes_of_hex(text@),
{
    base16::decode(text)
}

/// The bytes of a base-16 file payload, or `None` where the text is not
/// base-16.
pub fn decode_hex(text: &str) -> (r: Option<Vec<u8>>)
    ensures
        r is Some <==> is_hex_text(text@),
        r is Some ==> r->Some_0@ == bytes_of_hex(text@),
{
    match base16_decode(text) {
        Ok(bytes) => Some(bytes),
        Err(_) => None,
    }
}

/// The lowercase base-16 form of a byte string.
pub fn encode_hex(bytes: &[u8]) -> (r: String)
    ensures
        r@ == hex_of(bytes@),
{
    to_hex(bytes)
}

/// Every byte string comes back from its own hexadecimal form.
pub proof fn lemma_hex_round_trip(b: Seq<u8>)
    ensures
        is_hex_text(hex_of(b)),
        bytes_of_hex(hex_of(b)) == b,
{
    let h = hex_of(b);
    assert forall|n: u8| n < 16 implies is_hex_char(#[trigger] hex_digit(n)) && hex_value(
        hex_digit(n),
    ) == n as int by {
        assert(n < 16);
    }
    assert forall|i: int| 0 <= i < h.len() implies is_hex_char(#[trigger] h[i]) by {
        assert(b[i / 2] / 16 < 16);
    }
    assert forall|i: int| 0 <= i < b.len() implies #[trigger] bytes_of_hex(h)[i] == b[i] by {
        assert((2 * i) / 2 == i);
        assert((2 * i + 1) / 2 == i);
        assert((2 * i) % 2 == 0);
        assert((2 * i + 1) % 2 == 1);
        let x = b[i];
        assert(16 * ((x / 16) as int) + (x % 16) as int == x as int);
    }
    assert(bytes_of_hex(h) =~= b);
}

} // verus!
