//! Decryption of the encrypted fields of a mail event: hex text is decoded
//! into bytes, the bytes are opened with ECIES under the backend's secret key,
//! and the plaintext must be UTF-8.

use ethers_core::utils::hex::FromHexError;
use vstd::prelude::*;
use vstd::string::StringSliceAdditionalSpecFns;
use vstd::utf8::{
    decode_utf8, decode_utf8_encode_utf8, encode_utf8, encode_utf8_decode_utf8,
    encode_utf8_valid_utf8, valid_utf8,
};

verus! {

/// Why a hex text could not be decoded.
#[derive(Debug, Clone, Copy, PartialEq, Eq, Structural)]
pub enum HexError {
    /// A character that is no hex digit, at this position after the prefix.
    InvalidHexCharacter { c: char, index: usize },
    /// The text has an odd number of bytes.
    OddLength,
    /// The decoded bytes do not fit the requested length.
    InvalidStringLength,
}

/// Why an encrypted field could not be turned back into text.
#[derive(Debug, Clone, Copy, PartialEq, Eq, Structural)]
pub enum DecryptError {
    /// The secret key is not hex text.
    KeyHex(HexError),
    /// The message is not hex text.
    MessageHex(HexError),
    /// The message does not open under the key.
    Ecies,
    /// The plaintext is not UTF-8.
    Utf8,
}

/// The value of a hex digit byte (`0-9`, `a-f`, `A-F`), if it is one.
pub open spec fn hex_digit(b: u8) -> Option<nat> {
    if 48 <= b <= 57 {
        Some((b - 48) as nat)
    } else if 97 <= b <= 102 {
        Some((b - 87) as nat)
    } else if 65 <= b <= 70 {
        Some((b - 55) as nat)
    } else {
        None
    }
}

/// The bytes with a leading `0x` or `0X` taken off.
pub open spec fn strip_hex_prefix(b: Seq<u8>) -> Seq<u8> {
    if b.len() >= 2 && b[0] == 48 && (b[1] == 120 || b[1] == 88) {
        b.subrange(2, b.len() as int)
    } else {
        b
    }
}

/// Whether every byte is a hex digit.
pub open spec fn all_hex_digits(d: Seq<u8>) -> bool {
    forall|i: int| 0 <= i < d.len() ==> (#[trigger] hex_digit(d[i])) is Some
}

/// The bytes that pairs of hex digits stand for, high digit first.
pub open spec fn hex_pairs(d: Seq<u8>) -> Seq<u8> {
    Seq::new(
        d.len() / 2,
        |i: int| (16 * hex_digit(d[2 * i])->0 + hex_digit(d[2 * i + 1])->0) as u8,
    )
}

/// The position of the first byte that is no hex digit.
pub open spec fn first_non_hex(d: Seq<u8>) -> int {
    choose|k: int|
        0 <= k < d.len() && hex_digit(d[k]) is None && forall|j: int|
            0 <= j < k ==> (#[trigger] hex_digit(d[j])) is Some
}

/// What hex decoding gives for a text with these bytes: the length is
/// checked before a `0x` prefix is taken off; the first bad digit is reported.
pub open spec fn hex_decode_bytes(b: Seq<u8>) -> Result<Seq<u8>, HexError> {
    if b.len() % 2 != 0 {
        Err(HexError::OddLength)
    } else {
        let d = strip_hex_prefix(b);
        if all_hex_digits(d) {
            Ok(hex_pairs(d))
        } else {
            let k = first_non_hex(d);
            Err(HexError::InvalidHexCharacter { c: d[k] as char, index: k as usize })
        }
    }
}

/// Decodes hex text with `ethers::utils::hex::decode` (the `const-hex` crate).
/// Claimed: the result is `hex_decode_bytes` of the text's UTF-8 bytes, as
/// the crate's source does it (odd length first, then an optional `0x`/`0X`
/// prefix, then digits of either case, the first bad one reported).
#[verifier::external_body]
fn hex_decode(text: &str) -> (r: Result<Vec<u8>, HexError>)
    ensures
        match r {
            Ok(v) => hex_decode_bytes(text.spec_bytes()) == Ok::<Seq<u8>, HexError>(v@),
            Err(e) => hex_decode_bytes(text.spec_bytes()) == Err::<Seq<u8>, HexError>(e),
        },
{
    match ethers_core::utils::hex::decode(text) {
        Ok(v) => Ok(v),
        Err(FromHexError::InvalidHexCharacter { c, index }) => Err(
            HexError::InvalidHexCharacter { c, index },
        ),
        Err(FromHexError::OddLength) => Err(HexError::OddLength),
        Err(FromHexError::InvalidStringLength) => Err(HexError::InvalidStringLength),
    }
}

/// What `ecies::decrypt` gives for a secret key and a message under the
/// crate's default configuration (secp256k1, uncompressed ephemeral keys,
/// AES-256-GCM): the plaintext, or `None` where the message does not open.
pub uninterp spec fn ecies_decryption(secret_key: Seq<u8>, message: Seq<u8>) -> Option<Seq<u8>>;

/// Opens an ECIES message with `ecies::decrypt`.
/// Claimed: the result is `ecies_decryption` of the two byte strings (this
/// crate never changes the ecies configuration); a key that is not 32 bytes
/// long is refused; an opened message held at least an ephemeral public key
/// (33 bytes or more) and a nonce and tag (32 bytes). The crate keeps its
/// error type private, so which refusal it was is not carried over; nothing
/// is said of the plaintext beyond the name.
#[verifier::external_body]
fn ecies_decrypt(secret_key: &[u8], message: &[u8]) -> (r: Option<Vec<u8>>)
    ensures
        r is Some <==> ecies_decryption(secret_key@, message@) is Some,
        r matches Some(v) ==> ecies_decryption(secret_key@, message@) == Some(v@),
        secret_key@.len() != 32 ==> r is None,
        r is Some ==> message@.len() >= 65,
{
    ecies::decrypt(secret_key, message).ok()
}

/// Turns bytes into a `String` with `String::from_utf8`.
/// Claimed, as std documents it: the bytes are accepted exactly when they are
/// valid UTF-8, and the text is their decoding.
#[verifier::external_body]
fn utf8_string(bytes: Vec<u8>) -> (r: Option<String>)
    ensures
        r is Some <==> valid_utf8(bytes@),
        r matches Some(s) ==> s@ == decode_utf8(bytes@),
{
    String::from_utf8(bytes).ok()
}

/// The text of what ECIES opened: `None` (the message did not open) is an
/// ECIES failure, bytes that are not UTF-8 are a UTF-8 failure.
pub open spec fn opened_text_of(opened: Option<Seq<u8>>) -> Result<Seq<char>, DecryptError> {
    match opened {
        None => Err(DecryptError::Ecies),
        Some(plain) => if valid_utf8(plain) {
            Ok(decode_utf8(plain))
        } else {
            Err(DecryptError::Utf8)
        },
    }
}

/// Turns the outcome of opening an ECIES message into text.
pub fn opened_text(opened: Option<Vec<u8>>) -> (r: Result<String, DecryptError>)
    ensures
        match r {
            Ok(s) => opened_text_of(
                match opened {
                    Some(v) => Some(v@),
                    None => None,
                },
            ) == Ok::<Seq<char>, DecryptError>(s@),
            Err(e) => opened_text_of(
                match opened {
                    Some(v) => Some(v@),
                    None => None,
                },
            ) == Err::<Seq<char>, DecryptError>(e),
        },
{
    match opened {
        None => Err(DecryptError::Ecies),
        Some(plain) => match utf8_string(plain) {
            Some(s) => Ok(s),
            None => Err(DecryptError::Utf8),
        },
    }
}

/// What decrypting an event field gives: the key and the message are hex
/// text, the message is opened with ECIES, the plaintext must be UTF-8.
pub open spec fn decrypted_text(secret_key: Seq<char>, message: Seq<char>) -> Result<
    Seq<char>,
    DecryptError,
> {
    match hex_decode_bytes(encode_utf8(secret_key)) {
        Err(e) => Err(DecryptError::KeyHex(e)),
        Ok(key) => match hex_decode_bytes(encode_utf8(message)) {
            Err(e) => Err(DecryptError::MessageHex(e)),
            Ok(ciphertext) => opened_text_of(ecies_decryption(key, ciphertext)),
        },
    }
}

/// Decrypts one hex-encoded ECIES field of a mail event with the backend's
/// hex-encoded secret key.
pub fn decrypt_string(secret_key: &str, message: String) -> (r: Result<String, DecryptError>)
    ensures
        match r {
            Ok(s) => decrypted_text(secret_key@, message@) == Ok::<Seq<char>, DecryptError>(s@),
            Err(e) => decrypted_text(secret_key@, message@) == Err::<Seq<char>, DecryptError>(e),
        },
{
    let key = match hex_decode(secret_key) {
        Ok(k) => k,
        Err(e) => return Err(DecryptError::KeyHex(e)),
    };
    let ciphertext = match hex_decode(message.as_str()) {
        Ok(c) => c,
        Err(e) => return Err(DecryptError::MessageHex(e)),
    };
    opened_text(ecies_decrypt(key.as_slice(), ciphertext.as_slice()))
}

/// What ECIES opens is carried over whole: valid UTF-8 bytes give the text
/// whose UTF-8 encoding is exactly those bytes, however long they are; other
/// bytes are a UTF-8 failure, and a message that does not open is an ECIES
/// failure.
pub proof fn lemma_opened_text_whole(b: Seq<u8>)
    ensures
        valid_utf8(b) ==> (opened_text_of(Some(b)) matches Ok(t) && encode_utf8(t) == b && t
            == decode_utf8(b)),
        !valid_utf8(b) ==> opened_text_of(Some(b)) == Err::<Seq<char>, DecryptError>(
            DecryptError::Utf8,
        ),
        opened_text_of(None) == Err::<Seq<char>, DecryptError>(DecryptError::Ecies),
{
    if valid_utf8(b) {
        decode_utf8_encode_utf8(b);
    }
}

/// Opening the UTF-8 encoding of a text gives that text back.
pub proof fn lemma_opened_text_round_trip(m: Seq<char>)
    ensures
        opened_text_of(Some(encode_utf8(m))) == Ok::<Seq<char>, DecryptError>(m),
{
    encode_utf8_valid_utf8(m);
    encode_utf8_decode_utf8(m);
}

/// A field that ECIES opens to the UTF-8 encoding of a text `m` (its key and
/// message being hex text) decrypts to exactly `m`.
pub proof fn lemma_decrypt_gives_plaintext(
    secret_key: Seq<char>,
    message: Seq<char>,
    key: Seq<u8>,
    ciphertext: Seq<u8>,
    m: Seq<char>,
)
    requires
        hex_decode_bytes(encode_utf8(secret_key)) == Ok::<Seq<u8>, HexError>(key),
        hex_decode_bytes(encode_utf8(message)) == Ok::<Seq<u8>, HexError>(ciphertext),
        ecies_decryption(key, ciphertext) == Some(encode_utf8(m)),
    ensures
        decrypted_text(secret_key, message) == Ok::<Seq<char>, DecryptError>(m),
{
    lemma_opened_text_round_trip(m);
}

/// The key is checked before the message: a key that is not hex text is the
/// error, whatever the message; then a message that is not hex text.
pub proof fn lemma_decrypt_error_order(secret_key: Seq<char>, message: Seq<char>)
    ensures
        hex_decode_bytes(encode_utf8(secret_key)) matches Err(e) ==> decrypted_text(
            secret_key,
            message,
        ) == Err::<Seq<char>, DecryptError>(DecryptError::KeyHex(e)),
        hex_decode_bytes(encode_utf8(secret_key)) is Ok ==> (hex_decode_bytes(
            encode_utf8(message),
        ) matches Err(e) ==> decrypted_text(secret_key, message) == Err::<
            Seq<char>,
            DecryptError,
        >(DecryptError::MessageHex(e))),
{
}

} // verus!
