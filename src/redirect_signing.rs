use vstd::prelude::*;
use vstd::utf8::*;
use hmac::digest::generic_array::typenum::U32;
use hmac::digest::generic_array::GenericArray;
use hmac::{Hmac, Mac};
use sha2::Sha256;
use crate::startup::HmacSecret;

verus! {

broadcast use {encode_utf8_valid_utf8, encode_utf8_decode_utf8, is_ascii_chars_encode_utf8};

// ----- percent-encoding -----

/// Bytes that percent-encoding leaves unchanged: ASCII letters, digits and `-._~`.
pub open spec fn is_unreserved(b: u8) -> bool {
    (48 <= b <= 57) || (65 <= b <= 90) || (97 <= b <= 122) || b == 45 || b == 46 || b == 95
        || b == 126
}

/// The upper-case hexadecimal digit, as a byte, of a value below 16.
pub open spec fn upper_hex_byte(d: u8) -> u8 {
    if d < 10 {
        (48 + d) as u8
    } else {
        (55 + d) as u8
    }
}

pub open spec fn percent_encode_byte(b: u8) -> Seq<u8> {
    if is_unreserved(b) {
        seq![b]
    } else {
        seq![37u8, upper_hex_byte(b / 16), upper_hex_byte(b % 16)]
    }
}

/// Percent-encoding of a byte string.
pub open spec fn percent_encode(bytes: Seq<u8>) -> Seq<u8>
    decreases bytes.len(),
{
    if bytes.len() == 0 {
        seq![]
    } else {
        percent_encode_byte(bytes[0]) + percent_encode(bytes.drop_first())
    }
}

/// Any hexadecimal digit, upper or lower case.
pub open spec fn is_hex_byte(b: u8) -> bool {
    (48 <= b <= 57) || (65 <= b <= 70) || (97 <= b <= 102)
}

pub open spec fn hex_byte_value(b: u8) -> u8 {
    if 48 <= b <= 57 {
        (b - 48) as u8
    } else if 65 <= b <= 70 {
        (b - 55) as u8
    } else {
        (b - 87) as u8
    }
}

/// Percent-decoding: `%` followed by two hex digits stands for one byte; every
/// other byte stands for itself.
pub open spec fn percent_decode(bytes: Seq<u8>) -> Seq<u8>
    decreases bytes.len(),
{
    if bytes.len() == 0 {
        seq![]
    } else if bytes[0] == 37 && bytes.len() >= 3 && is_hex_byte(bytes[1]) && is_hex_byte(bytes[2]) {
        seq![(hex_byte_value(bytes[1]) * 16 + hex_byte_value(bytes[2])) as u8] + percent_decode(
            bytes.subrange(3, bytes.len() as int),
        )
    } else {
        seq![bytes[0]] + percent_decode(bytes.drop_first())
    }
}

/// Decoding undoes encoding.
pub proof fn lemma_percent_round_trip(bytes: Seq<u8>)
    ensures
        percent_decode(percent_encode(bytes)) == bytes,
    decreases bytes.len(),
{
    if bytes.len() > 0 {
        let b: u8 = bytes[0];
        let rest = bytes.drop_first();
        lemma_percent_round_trip(rest);
        let e = percent_encode(bytes);
        assert(e == percent_encode_byte(b) + percent_encode(rest));
        if is_unreserved(b) {
            assert(e.drop_first() =~= percent_encode(rest));
        } else {
            assert(e.subrange(3, e.len() as int) =~= percent_encode(rest));
            assert(hex_byte_value(upper_hex_byte(b / 16)) == b / 16);
            assert(hex_byte_value(upper_hex_byte(b % 16)) == b % 16);
        }
        assert(percent_decode(e) =~= bytes);
    }
}

/// Relies on urlencoding::encode: every byte of the UTF-8 input other than
/// ASCII letters, digits and `-._~` becomes `%` and two upper-case hex digits.
#[verifier::external_body]
fn url_encode(s: &str) -> (r: String)
    ensures
        encode_utf8(r@) == percent_encode(encode_utf8(s@)),
{
    urlencoding::encode(s).into_owned()
}

/// Relies on urlencoding::decode: `%` and two hex digits become that byte, all
/// other bytes stay, and the result is refused when it is not UTF-8.
#[verifier::external_body]
fn url_decode(s: &str) -> (r: Option<String>)
    ensures
        r is Some <==> valid_utf8(percent_decode(encode_utf8(s@))),
        r matches Some(m) ==> m@ == decode_utf8(percent_decode(encode_utf8(s@))),
{
    match urlencoding::decode(s) {
        Ok(m) => Some(m.into_owned()),
        Err(_) => None,
    }
}

// ----- lower-case hexadecimal -----

pub open spec fn lower_hex_char(d: u8) -> char {
    seq!['0', '1', '2', '3', '4', '5', '6', '7', '8', '9', 'a', 'b', 'c', 'd', 'e', 'f'][d as int]
}

pub open spec fn lower_hex_byte(d: u8) -> u8 {
    if d < 10 {
        (48 + d) as u8
    } else {
        (87 + d) as u8
    }
}

/// The digit of position `j` when each byte is written as two lower-case hex digits.
pub open spec fn hex_nibble(bytes: Seq<u8>, j: int) -> u8 {
    if j % 2 == 0 {
        bytes[j / 2] / 16
    } else {
        bytes[j / 2] % 16
    }
}

/// Each byte as two lower-case hex digits, high digit first.
pub open spec fn lower_hex_chars(bytes: Seq<u8>) -> Seq<char> {
    Seq::new(2 * bytes.len(), |j: int| lower_hex_char(hex_nibble(bytes, j)))
}

pub open spec fn lower_hex_bytes(bytes: Seq<u8>) -> Seq<u8> {
    Seq::new(2 * bytes.len(), |j: int| lower_hex_byte(hex_nibble(bytes, j)))
}

pub open spec fn is_lower_hex_byte(b: u8) -> bool {
    (48 <= b <= 57) || (97 <= b <= 102)
}

/// The bytes that a string of lower-case hex digits of even length stands for.
pub open spec fn parse_lower_hex(digits: Seq<u8>) -> Option<Seq<u8>> {
    if digits.len() % 2 == 0 && forall|i: int| 0 <= i < digits.len() ==> is_lower_hex_byte(#[trigger] digits[i]) {
        Some(Seq::new((digits.len() / 2) as nat, |i: int| (hex_byte_value(digits[2 * i]) * 16 + hex_byte_value(digits[2 * i + 1])) as u8))
    } else {
        None
    }
}

/// The UTF-8 bytes of the hex text are its digits as ASCII codes.
pub proof fn lemma_lower_hex_utf8(bytes: Seq<u8>)
    ensures
        encode_utf8(lower_hex_chars(bytes)) == lower_hex_bytes(bytes),
{
    let c = lower_hex_chars(bytes);
    assert forall|j: int| 0 <= j < c.len() implies '\0' <= #[trigger] c[j] <= '\u{7f}'
        && c[j] as u8 == lower_hex_byte(hex_nibble(bytes, j)) by {
        let d: u8 = hex_nibble(bytes, j);
        assert(d < 16);
    }
    assert(is_ascii_chars(c));
    assert(encode_utf8(c) =~= lower_hex_bytes(bytes));
}

/// Reading the hex digits back gives the bytes, and hex text is the only text
/// that reads as those bytes.
pub proof fn lemma_lower_hex_parse(bytes: Seq<u8>, digits: Seq<u8>)
    ensures
        parse_lower_hex(lower_hex_bytes(bytes)) == Some(bytes),
        parse_lower_hex(digits) == Some(bytes) ==> digits == lower_hex_bytes(bytes),
{
    let h = lower_hex_bytes(bytes);
    assert forall|i: int| 0 <= i < h.len() implies is_lower_hex_byte(#[trigger] h[i]) by {
        assert(hex_nibble(bytes, i) < 16);
    }
    assert forall|i: int| 0 <= i < bytes.len() implies (hex_byte_value(h[2 * i]) * 16
        + hex_byte_value(h[2 * i + 1])) as u8 == bytes[i] by {
        assert(hex_nibble(bytes, 2 * i) == bytes[i] / 16);
        assert(hex_nibble(bytes, 2 * i + 1) == bytes[i] % 16);
    }
    assert(parse_lower_hex(h).unwrap() =~= bytes);
    if parse_lower_hex(digits) == Some(bytes) {
        assert forall|j: int| 0 <= j < digits.len() implies digits[j] == #[trigger] h[j] by {
            let i: int = j / 2;
            assert(is_lower_hex_byte(digits[2 * i]));
            assert(is_lower_hex_byte(digits[2 * i + 1]));
            assert(bytes[i] == (hex_byte_value(digits[2 * i]) * 16 + hex_byte_value(digits[2 * i + 1])) as u8);
            if j % 2 == 0 {
                assert(j == 2 * i);
            } else {
                assert(j == 2 * i + 1);
            }
        }
        assert(digits =~= h);
    }
}

fn lower_hex_value(b: u8) -> (r: Option<u8>)
    ensures
        r is Some <==> is_lower_hex_byte(b),
        r matches Some(v) ==> v == hex_byte_value(b) && v < 16,
{
    if 48 <= b && b <= 57 {
        Some(b - 48)
    } else if 97 <= b && b <= 102 {
        Some(b - 87)
    } else {
        None
    }
}

/// Reads lower-case hex text back into bytes.
pub fn decode_lower_hex(digits: &[u8]) -> (r: Option<Vec<u8>>)
    ensures
        r matches Some(v) ==> parse_lower_hex(digits@) == Some(v@),
        r is None ==> parse_lower_hex(digits@) is None,
{
    if digits.len() % 2 != 0 {
        return None;
    }
    let mut out: Vec<u8> = Vec::new();
    let mut i: usize = 0;
    while i < digits.len() / 2
        invariant
            digits@.len() % 2 == 0,
            i <= digits@.len() / 2,
            out@.len() == i,
            forall|k: int| 0 <= k < 2 * i ==> is_lower_hex_byte(#[trigger] digits@[k]),
            forall|k: int| 0 <= k < i ==> #[trigger] out@[k] == (hex_byte_value(digits@[2 * k]) * 16
                + hex_byte_value(digits@[2 * k + 1])) as u8,
        decreases digits@.len() / 2 - i,
    {
        let hi = lower_hex_value(digits[2 * i]);
        let lo = lower_hex_value(digits[2 * i + 1]);
        match (hi, lo) {
            (Some(h), Some(l)) => {
                out.push(h * 16 + l);
            },
            _ => {
                return None;
            },
        }
        i = i + 1;
    }
    assert forall|k: int| 0 <= k < digits@.len() implies is_lower_hex_byte(#[trigger] digits@[k]) by {
        assert(k < 2 * i);
    }
    assert(parse_lower_hex(digits@).unwrap() =~= out@);
    Some(out)
}

// ----- the keyed tag -----

/// HMAC-SHA256 of `message` under `key`.
pub uninterp spec fn hmac_sha256_of(key: Seq<u8>, message: Seq<u8>) -> Seq<u8>;

/// Relies on hmac's `Hmac<Sha256>`: `new_from_slice` takes a key of any length
/// (it never fails for HMAC), and `finalize` gives the 32-byte tag of what `update` was given.
#[verifier::external_body]
fn hmac_sha256(key: &[u8], message: &[u8]) -> (r: Vec<u8>)
    ensures
        r@ == hmac_sha256_of(key@, message@),
        r@.len() == 32,
{
    let mut mac = <Hmac<Sha256> as Mac>::new_from_slice(key).expect("HMAC takes keys of any length");
    mac.update(message);
    mac.finalize().into_bytes().to_vec()
}

/// Relies on hmac's `Mac::verify_slice`: it accepts `tag` exactly when `tag` is
/// the tag that `finalize` would give, and compares in constant time.
#[verifier::external_body]
fn hmac_sha256_verify(key: &[u8], message: &[u8], tag: &[u8]) -> (r: bool)
    ensures
        r == (tag@ == hmac_sha256_of(key@, message@)),
{
    let mut mac = <Hmac<Sha256> as Mac>::new_from_slice(key).expect("HMAC takes keys of any length");
    mac.update(message);
    mac.verify_slice(tag).is_ok()
}

/// Relies on generic-array's `LowerHex` for byte arrays: each byte as two
/// lower-case hex digits, high digit first.
#[verifier::external_body]
fn lower_hex(tag: &[u8]) -> (r: String)
    requires
        tag@.len() == 32,
    ensures
        r@ == lower_hex_chars(tag@),
{
    format!("{:x}", GenericArray::<u8, U32>::from_slice(tag))
}

/// Relies on std's `format!`: the text of `a` followed by the text of `b`.
#[verifier::external_body]
fn concat_str(a: &str, b: &str) -> (r: String)
    ensures
        r@ == a@ + b@,
{
    format!("{}{}", a, b)
}

// ----- signed messages -----

/// The payload bytes that carry `message`: its percent-encoded UTF-8.
pub open spec fn payload_bytes(message: Seq<char>) -> Seq<u8> {
    percent_encode(encode_utf8(message))
}

/// The tag text of a payload: the HMAC of its bytes, in lower-case hex.
pub open spec fn tag_text(key: Seq<u8>, payload: Seq<char>) -> Seq<char> {
    lower_hex_chars(hmac_sha256_of(key, encode_utf8(payload)))
}

/// What a payload and tag received in a redirect amount to: the decoded message
/// when the tag is the HMAC of the payload, and nothing otherwise.
pub open spec fn verified_message(key: Seq<u8>, payload: Seq<char>, tag: Seq<char>) -> Option<Seq<char>> {
    if parse_lower_hex(encode_utf8(tag)) == Some(hmac_sha256_of(key, encode_utf8(payload))) {
        let d = percent_decode(encode_utf8(payload));
        if valid_utf8(d) {
            Some(decode_utf8(d))
        } else {
            None
        }
    } else {
        None
    }
}

/// A message prepared to travel in a redirect, with the tag that vouches for it.
pub struct SignedRedirectMessage {
    /// The percent-encoded message.
    pub payload: String,
    /// The HMAC of the payload, in lower-case hex.
    pub tag: String,
}

/// Percent-encodes `message` and tags the result with the HMAC under `secret`.
pub fn encode(secret: &HmacSecret, message: &str) -> (r: SignedRedirectMessage)
    ensures
        encode_utf8(r.payload@) == payload_bytes(message@),
        r.tag@ == tag_text(secret@, r.payload@),
{
    let payload = url_encode(message);
    let mac = hmac_sha256(secret.expose_secret(), payload.as_str().as_bytes());
    let tag = lower_hex(mac.as_slice());
    SignedRedirectMessage { payload, tag }
}

/// The message of a received payload, when `tag` vouches for it under `secret`;
/// nothing otherwise. The tag is compared in constant time.
pub fn verify(secret: &HmacSecret, payload: &str, tag: &str) -> (r: Option<String>)
    ensures
        match r {
            Some(m) => verified_message(secret@, payload@, tag@) == Some(m@),
            None => verified_message(secret@, payload@, tag@) is None,
        },
{
    let tag_bytes = match decode_lower_hex(tag.as_bytes()) {
        Some(t) => t,
        None => {
            return None;
        },
    };
    if !hmac_sha256_verify(secret.expose_secret(), payload.as_bytes(), tag_bytes.as_slice()) {
        return None;
    }
    url_decode(payload)
}

impl SignedRedirectMessage {
    /// The login page's address carrying this message: `/login?error=<payload>&tag=<tag>`.
    pub fn login_location(&self) -> (r: String)
        ensures
            r@ == "/login?error="@ + self.payload@ + "&tag="@ + self.tag@,
    {
        let a = concat_str("/login?error=", self.payload.as_str());
        let b = concat_str(a.as_str(), "&tag=");
        concat_str(b.as_str(), self.tag.as_str())
    }
}

/// A message that was encoded and tagged verifies as that same message.
pub proof fn lemma_verify_after_encode(key: Seq<u8>, message: Seq<char>, payload: Seq<char>)
    requires
        encode_utf8(payload) == payload_bytes(message),
    ensures
        verified_message(key, payload, tag_text(key, payload)) == Some(message),
{
    let h = hmac_sha256_of(key, encode_utf8(payload));
    lemma_lower_hex_utf8(h);
    lemma_lower_hex_parse(h, lower_hex_bytes(h));
    lemma_percent_round_trip(encode_utf8(message));
}

/// A payload is shown only with its own tag: any other tag text, whatever it
/// differs in, yields no message.
pub proof fn lemma_altered_tag_rejected(key: Seq<u8>, payload: Seq<char>, tag: Seq<char>)
    requires
        tag != tag_text(key, payload),
    ensures
        verified_message(key, payload, tag) is None,
{
    let h = hmac_sha256_of(key, encode_utf8(payload));
    lemma_lower_hex_utf8(h);
    lemma_lower_hex_parse(h, encode_utf8(tag));
    if parse_lower_hex(encode_utf8(tag)) == Some(h) {
        assert(decode_utf8(encode_utf8(tag)) == decode_utf8(encode_utf8(tag_text(key, payload))));
    }
}

} // verus!
