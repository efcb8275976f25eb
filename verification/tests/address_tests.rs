use trading_calculator::address::{ethereum_account, solana_key, solana_key_from};
use trading_calculator::error::ProviderErrorKind;

const DEPOSIT_CONTRACT: [u8; 20] = [
    0x00, 0x00, 0x00, 0x00, 0x21, 0x9a, 0xb5, 0x40, 0x35, 0x6c, 0xbb, 0x83, 0x9c, 0xbe, 0x05, 0x30,
    0x3d, 0x77, 0x05, 0xfa,
];

const WRAPPED_SOL: [u8; 32] = [
    6, 155, 136, 87, 254, 171, 129, 132, 251, 104, 127, 99, 70, 24, 192, 53, 218, 196, 57, 220, 26,
    235, 59, 85, 152, 160, 240, 0, 0, 0, 0, 1,
];

#[test]
fn ethereum_address_is_read() {
    let account = ethereum_account("0x00000000219ab540356cBB839Cbe05303d7705Fa").unwrap();
    assert_eq!(account, DEPOSIT_CONTRACT);
}

#[test]
fn ethereum_address_without_prefix_is_read() {
    let account = ethereum_account("00000000219AB540356CBB839CBE05303D7705FA").unwrap();
    assert_eq!(account, DEPOSIT_CONTRACT);
}

#[test]
fn ethereum_address_may_hold_fillers() {
    let account = ethereum_account("0x00000000 219ab540\t356cBB83\r\n9Cbe0530 3d7705Fa \n").unwrap();
    assert_eq!(account, DEPOSIT_CONTRACT);
}

#[test]
fn text_that_is_no_ethereum_address_is_refused() {
    let error = ethereum_account("not-an-address").unwrap_err();
    assert_eq!(error.kind, ProviderErrorKind::AddressParse);
    assert_eq!(error.message, "Invalid character 'n' at position 0");
}

#[test]
fn ethereum_address_of_wrong_length_is_refused() {
    let short = ethereum_account("0x00000000219ab540356cBB839Cbe05303d7705F").unwrap_err();
    assert_eq!(short.kind, ProviderErrorKind::AddressParse);
    assert_eq!(short.message, "Invalid input length");
    let long = ethereum_account("0x00000000219ab540356cBB839Cbe05303d7705Fa00").unwrap_err();
    assert_eq!(long.kind, ProviderErrorKind::AddressParse);
    assert_eq!(long.message, "Invalid input length");
    assert!(ethereum_account("").is_err());
    assert!(ethereum_account("0x").is_err());
}

#[test]
fn ethereum_prefix_is_taken_off_once_and_in_lower_case() {
    assert!(ethereum_account("0X00000000219ab540356cBB839Cbe05303d7705Fa").is_err());
    assert!(ethereum_account("0x0x00000000219ab540356cBB839Cbe05303d7705Fa").is_err());
    assert!(ethereum_account(" 0x00000000219ab540356cBB839Cbe05303d7705Fa").is_err());
    assert!(ethereum_account("0x00000000219ab540356cBB839Cbe05303d7705Fg").is_err());
    assert!(ethereum_account("0x00000000219ab540356cBB839Cbe05303d7705Fa!").is_err());
}

#[test]
fn solana_address_is_read() {
    let key = solana_key("So11111111111111111111111111111111111111112").unwrap();
    assert_eq!(key, WRAPPED_SOL);
    let zero = solana_key("11111111111111111111111111111111").unwrap();
    assert_eq!(zero, [0u8; 32]);
}

#[test]
fn text_that_is_no_solana_address_is_refused() {
    let error = solana_key("not-a-key!").unwrap_err();
    assert_eq!(error.kind, ProviderErrorKind::AddressParse);
    assert_eq!(error.message, "Invalid Base58 string");
}

#[test]
fn solana_address_of_wrong_size_is_refused() {
    let long = solana_key("So111111111111111111111111111111111111111122222").unwrap_err();
    assert_eq!(long.kind, ProviderErrorKind::AddressParse);
    assert_eq!(long.message, "String is the wrong size");
    let short = solana_key("abc").unwrap_err();
    assert_eq!(short.kind, ProviderErrorKind::AddressParse);
    assert_eq!(short.message, "String is the wrong size");
}

#[test]
fn solana_reading_becomes_key_or_failure() {
    assert_eq!(solana_key_from(Ok(WRAPPED_SOL)).unwrap(), WRAPPED_SOL);
    let error = solana_key_from(Err(String::from("no key"))).unwrap_err();
    assert_eq!(error.kind, ProviderErrorKind::AddressParse);
    assert_eq!(error.message, "no key");
}
