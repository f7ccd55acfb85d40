//! Text forms of the chain values that the backend writes down: a chain id
//! (`U256`, in decimal) and a transaction hash (`H256`, as `0x` and hex).

use std::str::FromStr;

use ethers_core::types::{Address, H256, U256};
use vstd::prelude::*;

use vstd::string::StringSliceAdditionalSpecFns;

use crate::crypto::{all_hex_digits, hex_decode_bytes, hex_digit, hex_pairs, strip_hex_prefix, HexError};
use crate::decimal::{ascii_bytes, decimal};

verus! {

/// The number held by the four little-endian 64-bit limbs of a `U256`.
pub open spec fn limbs_value(limbs: Seq<u64>) -> nat {
    (limbs[0] + limbs[1] * 0x1_0000_0000_0000_0000 + limbs[2]
        * 0x1_0000_0000_0000_0000_0000_0000_0000_0000 + limbs[3]
        * 0x1_0000_0000_0000_0000_0000_0000_0000_0000_0000_0000_0000_0000) as nat
}

/// The lower-case hex character of a value below 16.
pub open spec fn hex_char(v: nat) -> char {
    if v < 10 {
        (48 + v) as char
    } else {
        (87 + v) as char
    }
}

/// Two lower-case hex characters per byte, high half first.
pub open spec fn lower_hex(bytes: Seq<u8>) -> Seq<char> {
    Seq::new(
        2 * bytes.len(),
        |i: int|
            if i % 2 == 0 {
                hex_char((bytes[i / 2] / 16) as nat)
            } else {
                hex_char((bytes[i / 2] % 16) as nat)
            },
    )
}

/// Formats a `U256` with `{:?}`, which ethers (the `uint` crate) writes as
/// the number in decimal. Claimed: the text is `decimal` of the limbs' value.
#[verifier::external_body]
pub(crate) fn u256_debug_text(limbs: [u64; 4]) -> (s: String)
    ensures
        s@ == decimal(limbs_value(limbs@)),
{
    format!("{:?}", U256(limbs))
}

/// Formats an `H256` with `{:?}`, which ethers (the `fixed-hash` crate)
/// writes as `{:#x}`: `0x` and two lower-case hex digits per byte.
/// Claimed: the text is `0x` followed by `lower_hex` of the bytes.
#[verifier::external_body]
pub(crate) fn h256_debug_text(bytes: [u8; 32]) -> (s: String)
    ensures
        s@ == seq!['0', 'x'] + lower_hex(bytes@),
{
    format!("{:?}", H256(bytes))
}

/// Whether a byte is white space that hex parsing of a hash skips.
pub open spec fn is_hex_space(b: u8) -> bool {
    b == 32 || b == 13 || b == 10 || b == 9
}

/// The bytes with a leading `0x` taken off.
pub open spec fn strip_0x(b: Seq<u8>) -> Seq<u8> {
    if b.len() >= 2 && b[0] == 48 && b[1] == 120 {
        b.subrange(2, b.len() as int)
    } else {
        b
    }
}

/// The hex digits of an address text, its white space left out.
pub open spec fn address_digits(b: Seq<u8>) -> Seq<u8> {
    strip_0x(b).filter(|c: u8| !is_hex_space(c))
}

/// Whether a text (by its bytes) is an address: after an optional `0x`, only
/// hex digits and white space, and exactly 40 digits.
pub open spec fn is_address_text(b: Seq<u8>) -> bool {
    &&& forall|i: int|
        0 <= i < strip_0x(b).len() ==> (#[trigger] hex_digit(strip_0x(b)[i])) is Some
            || is_hex_space(strip_0x(b)[i])
    &&& address_digits(b).len() == 40
}

/// Parses a contract address with `Address::from_str` (`H160`, from the
/// `fixed-hash` crate with `rustc-hex`). Claimed, as the source does it: an
/// optional `0x` is taken off, spaces, tabs and line breaks are skipped, the
/// rest must be exactly 40 hex digits, read in pairs, high digit first.
#[verifier::external_body]
pub(crate) fn parse_contract_address(text: &str) -> (r: Option<[u8; 20]>)
    ensures
        r is Some <==> is_address_text(text.spec_bytes()),
        r matches Some(a) ==> a@ == hex_pairs(address_digits(text.spec_bytes())),
{
    Address::from_str(text).ok().map(|a| a.0)
}

proof fn lemma_hex_char_digit(v: nat)
    requires
        v < 16,
    ensures
        hex_digit(hex_char(v) as u8) == Some(v),
        hex_char(v) != 'x' && hex_char(v) != 'X',
{
    assert(hex_char(v) as u32 == if v < 10 { 48 + v } else { 87 + v });
}

/// Lower-case hex text decodes back to the bytes it was written from.
pub proof fn lemma_lower_hex_round_trip(b: Seq<u8>)
    ensures
        hex_decode_bytes(ascii_bytes(lower_hex(b))) == Ok::<Seq<u8>, HexError>(b),
{
    let d = ascii_bytes(lower_hex(b));
    assert forall|i: int| 0 <= i < d.len() implies hex_digit(d[i]) == Some(
        (if i % 2 == 0 { b[i / 2] / 16 } else { b[i / 2] % 16 }) as nat,
    ) by {
        lemma_hex_char_digit((if i % 2 == 0 { b[i / 2] / 16 } else { b[i / 2] % 16 }) as nat);
    }
    if d.len() >= 2 {
        lemma_hex_char_digit((b[0] % 16) as nat);
        assert(d[1] == hex_char((b[0] % 16) as nat) as u8);
    }
    assert(strip_hex_prefix(d) == d);
    assert(all_hex_digits(d));
    assert forall|i: int| 0 <= i < b.len() implies hex_pairs(d)[i] == b[i] by {
        assert((2 * i) / 2 == i && (2 * i) % 2 == 0);
        assert((2 * i + 1) / 2 == i && (2 * i + 1) % 2 == 1);
        assert(hex_digit(d[2 * i]) == Some((b[i] / 16) as nat));
        assert(hex_digit(d[2 * i + 1]) == Some((b[i] % 16) as nat));
    }
    assert(hex_pairs(d) =~= b);
}

/// A `0x`-prefixed lower-case hex text (as ethers writes a hash) decodes back
/// to its bytes.
pub proof fn lemma_prefixed_hex_round_trip(b: Seq<u8>)
    ensures
        hex_decode_bytes(ascii_bytes(seq!['0', 'x'] + lower_hex(b))) == Ok::<Seq<u8>, HexError>(b),
{
    lemma_lower_hex_round_trip(b);
    let d = ascii_bytes(seq!['0', 'x'] + lower_hex(b));
    assert(d.subrange(2, d.len() as int) =~= ascii_bytes(lower_hex(b)));
}

} // verus!
