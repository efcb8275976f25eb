//! Address syntax, chain by chain.
//!
//! An Ethereum address is twenty bytes in hexadecimal, a Solana address a
//! public key of thirty-two bytes in base 58. A Bitcoin address is passed on
//! as it is written. Reading the two encodings is the work of the `ethers`
//! and `solana-pubkey` crates.

use vstd::prelude::*;
use crate::error::{ProviderError, ProviderErrorKind, ProviderErrorView};

verus! {

/// A hexadecimal digit, in either case.
pub open spec fn is_hex_digit(c: char) -> bool {
    ('0' <= c <= '9') || ('a' <= c <= 'f') || ('A' <= c <= 'F')
}

/// The value of a hexadecimal digit.
pub open spec fn hex_value(c: char) -> nat {
    if '0' <= c <= '9' {
        (c as u32 - '0' as u32) as nat
    } else if 'a' <= c <= 'f' {
        (c as u32 - 'a' as u32 + 10) as nat
    } else {
        (c as u32 - 'A' as u32 + 10) as nat
    }
}

/// A character that may stand between hexadecimal digits and is passed over:
/// a space, a carriage return, a line feed or a tab.
pub open spec fn is_hex_filler(c: char) -> bool {
    c == ' ' || c == '\r' || c == '\n' || c == '\t'
}

/// `s` without one leading `0x`.
pub open spec fn without_hex_prefix(s: Seq<char>) -> Seq<char> {
    if s.len() >= 2 && s[0] == '0' && s[1] == 'x' {
        s.skip(2)
    } else {
        s
    }
}

/// The hexadecimal digits of `s`, in order.
pub open spec fn hex_digits_of(s: Seq<char>) -> Seq<char> {
    s.filter(|c: char| is_hex_digit(c))
}

/// Whether `s` writes an Ethereum address: after one optional `0x`, forty
/// hexadecimal digits, with nothing between, before or after them but
/// fillers.
pub open spec fn is_ethereum_address(s: Seq<char>) -> bool {
    let body = without_hex_prefix(s);
    &&& forall|i: int|
        0 <= i < body.len() ==> is_hex_digit(#[trigger] body[i]) || is_hex_filler(body[i])
    &&& hex_digits_of(body).len() == 40
}

/// The twenty bytes that an Ethereum address writes, the first byte first:
/// each byte from two digits, the high one before the low one.
pub open spec fn ethereum_address_bytes(s: Seq<char>) -> Seq<u8> {
    let digits = hex_digits_of(without_hex_prefix(s));
    Seq::new(20, |i: int| (16 * hex_value(digits[2 * i]) + hex_value(digits[2 * i + 1])) as u8)
}

/// The message with which `ethers` refuses a text that writes no Ethereum
/// address.
pub uninterp spec fn ethereum_address_fault(s: Seq<char>) -> Seq<char>;

/// What `solana-pubkey` reads from a text: the thirty-two bytes of the public
/// key that it writes in base 58, or the message with which it is refused.
pub uninterp spec fn solana_address_parse(s: Seq<char>) -> Result<Seq<u8>, Seq<char>>;

/// Calls `ethers::types::Address::from_str`. The type is the twenty-byte hash
/// `H160` of `primitive-types`, and its `FromStr` comes from `fixed-hash`,
/// which reads the digits with the `FromHexIter` of `rustc-hex`. It takes one
/// leading `0x` off, then reads the text byte by byte: two hexadecimal digits
/// make one byte of the address, a space, carriage return, line feed or tab
/// is passed over, and any other character is refused. It succeeds when the
/// text holds exactly forty digits. The contract claims this, the bytes on
/// success, and that the message of a refusal depends on the text alone.
#[verifier::external_body]
fn read_ethereum_address(text: &str) -> (parsed: Result<[u8; 20], String>)
    ensures
        match parsed {
            Ok(bytes) => is_ethereum_address(text@) && bytes@ == ethereum_address_bytes(text@),
            Err(message) => !is_ethereum_address(text@) && message@ == ethereum_address_fault(
                text@,
            ),
        },
{
    match text.parse::<ethers::types::Address>() {
        Ok(address) => Ok(address.0),
        Err(fault) => Err(fault.to_string()),
    }
}

/// Calls `solana_pubkey::Pubkey::from_str`, which refuses a text of more than
/// forty-four bytes and hands any other to `five8::decode_32`, to decode it
/// from base 58 into the thirty-two bytes of a public key. The contract
/// claims only that the outcome, bytes or message, depends on the text
/// alone.
#[verifier::external_body]
fn read_solana_address(text: &str) -> (parsed: Result<[u8; 32], String>)
    ensures
        match parsed {
            Ok(bytes) => solana_address_parse(text@) == Ok::<Seq<u8>, Seq<char>>(bytes@),
            Err(message) => solana_address_parse(text@) == Err::<Seq<u8>, Seq<char>>(message@),
        },
{
    match text.parse::<solana_pubkey::Pubkey>() {
        Ok(key) => Ok(key.to_bytes()),
        Err(fault) => Err(fault.to_string()),
    }
}

/// The account that `address` writes, or the failure to read it.
pub fn ethereum_account(address: &str) -> (account: Result<[u8; 20], ProviderError>)
    ensures
        match account {
            Ok(bytes) => is_ethereum_address(address@) && bytes@ == ethereum_address_bytes(
                address@,
            ),
            Err(error) => !is_ethereum_address(address@) && error@ == (ProviderErrorView {
                kind: ProviderErrorKind::AddressParse,
                message: ethereum_address_fault(address@),
            }),
        },
{
    match read_ethereum_address(address) {
        Ok(bytes) => Ok(bytes),
        Err(message) => Err(ProviderError { kind: ProviderErrorKind::AddressParse, message }),
    }
}

/// What a reading of a Solana address comes to: the key, or a failure to
/// parse with the reader's message.
pub open spec fn spec_solana_key(parsed: Result<Seq<u8>, Seq<char>>) -> Result<
    Seq<u8>,
    ProviderErrorView,
> {
    match parsed {
        Ok(bytes) => Ok(bytes),
        Err(message) => Err(
            ProviderErrorView { kind: ProviderErrorKind::AddressParse, message },
        ),
    }
}

/// Turns a reading of a Solana address into the key or the provider failure.
pub fn solana_key_from(parsed: Result<[u8; 32], String>) -> (key: Result<[u8; 32], ProviderError>)
    ensures
        match key {
            Ok(bytes) => parsed is Ok && bytes == parsed->Ok_0,
            Err(error) => parsed is Err && error@ == (ProviderErrorView {
                kind: ProviderErrorKind::AddressParse,
                message: parsed->Err_0@,
            }),
        },
{
    match parsed {
        Ok(bytes) => Ok(bytes),
        Err(message) => Err(ProviderError { kind: ProviderErrorKind::AddressParse, message }),
    }
}

/// The public key that `address` writes, or the failure to read it.
pub fn solana_key(address: &str) -> (key: Result<[u8; 32], ProviderError>)
    ensures
        match key {
            Ok(bytes) => spec_solana_key(solana_address_parse(address@)) == Ok::<
                Seq<u8>,
                ProviderErrorView,
            >(bytes@),
            Err(error) => spec_solana_key(solana_address_parse(address@)) == Err::<
                Seq<u8>,
                ProviderErrorView,
            >(error@),
        },
{
    solana_key_from(read_solana_address(address))
}

} // verus!
