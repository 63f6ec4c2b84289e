//! Byte encodings and cryptographic primitives the rules are built on.
//!
//! Each outside function is reached through exactly one trusted wrapper below.
//! Hexadecimal is specified completely (its behaviour is a few lines); base64,
//! HMAC-SHA256 and PBKDF2 results are named, with the short facts their
//! documentation gives stated on the wrapper that makes the call.
use vstd::prelude::*;
use vstd::utf8::*;
use base64::Engine;
use hmac::Mac;
use rand::RngCore;

verus! {

broadcast use vstd::utf8::group_utf8_lib;

// ---------------------------------------------------------------------------
// Hexadecimal
// ---------------------------------------------------------------------------

/// Lowercase hexadecimal digit for a value below sixteen.
pub open spec fn hex_digit(v: int) -> char {
    if v < 10 {
        (v + 48) as char
    } else {
        (v + 87) as char
    }
}

/// Lowercase hexadecimal text of `data`: two digits per byte, high nibble first.
pub open spec fn hex_lower(data: Seq<u8>) -> Seq<char> {
    Seq::new(
        (2 * data.len()) as nat,
        |i: int|
            if i % 2 == 0 {
                hex_digit(data[i / 2] as int / 16)
            } else {
                hex_digit(data[i / 2] as int % 16)
            },
    )
}

/// Value of one hexadecimal digit byte, either case.
pub open spec fn hex_value(b: u8) -> Option<int> {
    if 48 <= b <= 57 {
        Some(b - 48)
    } else if 97 <= b <= 102 {
        Some(b - 87)
    } else if 65 <= b <= 70 {
        Some(b - 55)
    } else {
        None
    }
}

/// Bytes denoted by hexadecimal text (given as bytes): `None` for an odd length
/// or any byte that is not a hexadecimal digit.
pub open spec fn hex_decoded(text: Seq<u8>) -> Option<Seq<u8>> {
    if text.len() % 2 != 0 {
        None
    } else if exists|i: int| 0 <= i < text.len() && (#[trigger] hex_value(text[i])) is None {
        None
    } else {
        Some(
            Seq::new(
                text.len() / 2,
                |k: int| (hex_value(text[2 * k])->0 * 16 + hex_value(text[2 * k + 1])->0) as u8,
            ),
        )
    }
}

/// `hex::encode`: the lowercase hexadecimal text of `data`.
#[verifier::external_body]
pub(crate) fn hex_encode(data: &[u8]) -> (text: String)
    ensures
        text@ == hex_lower(data@),
{
    hex::encode(data)
}

/// `hex::decode`: the bytes denoted by `text`, or `None` when `text` has an odd
/// number of bytes or a byte that is not a hexadecimal digit of either case.
#[verifier::external_body]
pub(crate) fn hex_decode(text: &str) -> (bytes: Option<Vec<u8>>)
    ensures
        match bytes {
            Some(b) => hex_decoded(encode_utf8(text@)) == Some(b@),
            None => hex_decoded(encode_utf8(text@)) is None,
        },
{
    hex::decode(text).ok()
}

proof fn lemma_hex_digit(v: int)
    requires
        0 <= v < 16,
    ensures
        '\0' <= hex_digit(v) <= '\u{7f}',
        hex_digit(v) as u8 as int == (if v < 10 { v + 48 } else { v + 87 }),
        hex_value(hex_digit(v) as u8) == Some(v),
{
}

/// Every character of hexadecimal text is a digit `0`-`9` or `a`-`f`.
pub proof fn lemma_hex_lower_digits(data: Seq<u8>)
    ensures
        forall|i: int| 0 <= i < hex_lower(data).len() ==> {
            let c = #[trigger] hex_lower(data)[i];
            ('0' <= c <= '9') || ('a' <= c <= 'f')
        },
{
    assert forall|i: int| 0 <= i < hex_lower(data).len() implies {
        let c = #[trigger] hex_lower(data)[i];
        ('0' <= c <= '9') || ('a' <= c <= 'f')
    } by {
        lemma_hex_digit(data[i / 2] as int / 16);
        lemma_hex_digit(data[i / 2] as int % 16);
    }
}

/// Hexadecimal text is ASCII, and decoding the bytes of the text that
/// `hex_lower` produces gives back the original bytes.
pub proof fn lemma_hex_round_trip(data: Seq<u8>)
    ensures
        is_ascii_chars(hex_lower(data)),
        hex_decoded(encode_utf8(hex_lower(data))) == Some(data),
{
    let t = hex_lower(data);
    assert forall|i: int| 0 <= i < t.len() implies '\0' <= #[trigger] t[i] <= '\u{7f}' by {
        lemma_hex_digit(data[i / 2] as int / 16);
        lemma_hex_digit(data[i / 2] as int % 16);
    }
    is_ascii_chars_encode_utf8(t);
    let b = encode_utf8(t);
    assert forall|i: int| 0 <= i < b.len() implies hex_value(#[trigger] b[i]) is Some by {
        lemma_hex_digit(data[i / 2] as int / 16);
        lemma_hex_digit(data[i / 2] as int % 16);
        assert(b[i] == t[i] as u8);
    }
    let d = hex_decoded(b)->0;
    assert forall|k: int| 0 <= k < data.len() implies d[k] == data[k] by {
        lemma_hex_digit(data[k] as int / 16);
        lemma_hex_digit(data[k] as int % 16);
        assert(b[2 * k] == t[2 * k] as u8);
        assert(b[2 * k + 1] == t[2 * k + 1] as u8);
        assert((2 * k) / 2 == k);
        assert((2 * k + 1) / 2 == k);
        assert((2 * k + 1) % 2 == 1);
    }
    assert(d =~= data);
}

// ---------------------------------------------------------------------------
// Base64 (URL-safe alphabet, no padding)
// ---------------------------------------------------------------------------

/// A character of the URL-safe base64 alphabet.
pub open spec fn base64url_char(c: char) -> bool {
    ||| ('A' <= c && c <= 'Z')
    ||| ('a' <= c && c <= 'z')
    ||| ('0' <= c && c <= '9')
    ||| c == '-'
    ||| c == '_'
}

/// Name for the text `URL_SAFE_NO_PAD.encode` produces for `data`.
pub uninterp spec fn base64url_text(data: Seq<u8>) -> Seq<char>;

/// Name for what `URL_SAFE_NO_PAD.decode` returns for the bytes `text`
/// (`None` for its errors).
pub uninterp spec fn base64url_bytes(text: Seq<u8>) -> Option<Seq<u8>>;

/// `base64::engine::general_purpose::URL_SAFE_NO_PAD.encode`. Claims: the result
/// is a function of `data`; it uses only the URL-safe alphabet; decoding its
/// bytes with the same engine gives `data` back.
#[verifier::external_body]
pub(crate) fn base64url_encode(data: &[u8]) -> (text: String)
    requires
        data@.len() <= usize::MAX / 2,
    ensures
        text@ == base64url_text(data@),
        forall|i: int| 0 <= i < text@.len() ==> base64url_char(#[trigger] text@[i]),
        base64url_bytes(encode_utf8(text@)) == Some(data@),
{
    base64::engine::general_purpose::URL_SAFE_NO_PAD.encode(data)
}

/// `base64::engine::general_purpose::URL_SAFE_NO_PAD.decode` on the bytes of
/// `text`, with its error mapped to `None`. Claims: the result is a function of
/// the text.
#[verifier::external_body]
pub(crate) fn base64url_decode(text: &str) -> (data: Option<Vec<u8>>)
    ensures
        match data {
            Some(d) => base64url_bytes(encode_utf8(text@)) == Some(d@),
            None => base64url_bytes(encode_utf8(text@)) is None,
        },
{
    base64::engine::general_purpose::URL_SAFE_NO_PAD.decode(text).ok()
}

// ---------------------------------------------------------------------------
// HMAC-SHA256
// ---------------------------------------------------------------------------

/// Name for the HMAC-SHA256 tag of `data` under `key`.
pub uninterp spec fn hmac_sha256_tag(key: Seq<u8>, data: Seq<u8>) -> Seq<u8>;

/// `Hmac::<Sha256>::new_from_slice(key)`, `update(data)`, `finalize()`. Claims:
/// the tag is a function of key and data and is 32 bytes long. `new_from_slice`
/// accepts a key of any length for HMAC, so its error branch is never taken.
#[verifier::external_body]
pub(crate) fn hmac_sha256(key: &[u8], data: &[u8]) -> (tag: Vec<u8>)
    ensures
        tag@ == hmac_sha256_tag(key@, data@),
        tag@.len() == 32,
{
    let mut mac = hmac::Hmac::<sha2::Sha256>::new_from_slice(key).expect("HMAC accepts any key length");
    mac.update(data);
    mac.finalize().into_bytes().to_vec()
}

/// `Hmac::<Sha256>::new_from_slice(key)`, `update(data)`, `verify_slice(tag)`.
/// Claims: succeeds exactly when `tag` equals the HMAC-SHA256 tag of `data`
/// under `key` (`verify_slice` rejects a tag of another length or content).
#[verifier::external_body]
pub(crate) fn hmac_sha256_verify(key: &[u8], data: &[u8], tag: &[u8]) -> (ok: bool)
    ensures
        ok == (tag@ == hmac_sha256_tag(key@, data@)),
{
    let mut mac = hmac::Hmac::<sha2::Sha256>::new_from_slice(key).expect("HMAC accepts any key length");
    mac.update(data);
    mac.verify_slice(tag).is_ok()
}

// ---------------------------------------------------------------------------
// PBKDF2-HMAC-SHA512
// ---------------------------------------------------------------------------

/// Name for the PBKDF2-HMAC-SHA512 output of `len` bytes.
pub uninterp spec fn pbkdf2_sha512_key(password: Seq<u8>, salt: Seq<u8>, rounds: u32, len: nat) -> Seq<u8>;

/// `pbkdf2::pbkdf2_hmac::<Sha512>(password, salt, rounds, out)` into a fresh
/// buffer of `len` bytes. Claims: the output is a function of its four inputs
/// and has `len` bytes. `len` is bounded so that the block counter (a `u32`)
/// cannot overflow.
#[verifier::external_body]
pub(crate) fn pbkdf2_sha512(password: &[u8], salt: &[u8], rounds: u32, len: usize) -> (key: Vec<u8>)
    requires
        len <= 0x3f_ffff_ffc0,
    ensures
        key@ == pbkdf2_sha512_key(password@, salt@, rounds, len as nat),
        key@.len() == len,
{
    let mut out = vec![0u8; len];
    pbkdf2::pbkdf2_hmac::<sha2::Sha512>(password, salt, rounds, &mut out);
    out
}

// ---------------------------------------------------------------------------
// Randomness
// ---------------------------------------------------------------------------

/// `rand::thread_rng().fill_bytes` into a fresh buffer of `len` bytes. Claims
/// only the length: the content is random.
#[verifier::external_body]
pub(crate) fn random_bytes(len: usize) -> (bytes: Vec<u8>)
    ensures
        bytes@.len() == len,
{
    let mut out = vec![0u8; len];
    rand::thread_rng().fill_bytes(&mut out);
    out
}

/// A fresh random row id: 18 random bytes as 36 lowercase hexadecimal digits.
pub fn generate_id() -> (id: String)
    ensures
        exists|b: Seq<u8>| b.len() == 18 && id@ == hex_lower(b),
        id@.len() == 36,
{
    let bytes = random_bytes(18);
    hex_encode(bytes.as_slice())
}

} // verus!
