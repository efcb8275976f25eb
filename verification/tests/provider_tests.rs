use trading_calculator::balance::NativeBalance;
use trading_calculator::chain::Chain;
use trading_calculator::error::{ProviderError, ProviderErrorKind, QuoteError, QuoteErrorKind};
use trading_calculator::provider::{balance_query, read_balance, BalanceQuery, BalanceReply};
use trading_calculator::text::{chars_of, joined, same_text};

#[test]
fn ethereum_query_holds_the_account() {
    let query = balance_query(Chain::Ethereum, "0x00000000219ab540356cBB839Cbe05303d7705Fa").unwrap();
    match &query {
        BalanceQuery::Ethereum { account } => {
            assert_eq!(account[4], 0x21);
            assert_eq!(account[19], 0xfa);
        }
        other => panic!("{:?}", other),
    }
    assert_eq!(query.chain(), Chain::Ethereum);
    assert_eq!(query.url(), "https://eth.llamarpc.com");
    assert!(!query.blocks());
}

#[test]
fn bitcoin_query_holds_the_address_as_written() {
    let query = balance_query(Chain::Bitcoin, "1A1zP1eP5QGefi2DMPTfTL5SLmv7DivfNa").unwrap();
    match &query {
        BalanceQuery::Bitcoin { address } => assert_eq!(address, "1A1zP1eP5QGefi2DMPTfTL5SLmv7DivfNa"),
        other => panic!("{:?}", other),
    }
    assert_eq!(query.chain(), Chain::Bitcoin);
    assert_eq!(
        query.url(),
        "https://blockchain.info/q/addressbalance/1A1zP1eP5QGefi2DMPTfTL5SLmv7DivfNa"
    );
    assert!(!query.blocks());
    let odd = balance_query(Chain::Bitcoin, "not an address").unwrap();
    assert_eq!(odd.url(), "https://blockchain.info/q/addressbalance/not an address");
}

#[test]
fn solana_query_holds_the_key_and_blocks() {
    let query = balance_query(Chain::Solana, "Vote111111111111111111111111111111111111111").unwrap();
    match &query {
        BalanceQuery::Solana { key } => {
            assert_eq!(key[0], 7);
            assert_eq!(key[1], 97);
            assert_eq!(key[27], 128);
            assert_eq!(key[31], 0);
        }
        other => panic!("{:?}", other),
    }
    assert_eq!(query.chain(), Chain::Solana);
    assert_eq!(query.url(), "https://api.mainnet-beta.solana.com");
    assert!(query.blocks());
}

#[test]
fn unreadable_addresses_prepare_no_query() {
    let ethereum = balance_query(Chain::Ethereum, "not-an-address").unwrap_err();
    assert_eq!(ethereum.kind, ProviderErrorKind::AddressParse);
    let solana = balance_query(Chain::Solana, "0x00000000219ab540356cBB839Cbe05303d7705Fa").unwrap_err();
    assert_eq!(solana.kind, ProviderErrorKind::AddressParse);
    assert_eq!(solana.message, "Invalid Base58 string");
}

#[test]
fn amount_is_the_balance() {
    let wei = read_balance(Chain::Ethereum, BalanceReply::Amount(1_500_000_000_000_000_000)).unwrap();
    assert_eq!(wei, NativeBalance { chain: Chain::Ethereum, base_units: 1_500_000_000_000_000_000 });
    let lamports = read_balance(Chain::Solana, BalanceReply::Amount(0)).unwrap();
    assert_eq!(lamports, NativeBalance { chain: Chain::Solana, base_units: 0 });
}

#[test]
fn text_is_read_as_an_amount() {
    let reply = BalanceReply::Text(String::from("5000000000\n"));
    let satoshis = read_balance(Chain::Bitcoin, reply).unwrap();
    assert_eq!(satoshis, NativeBalance { chain: Chain::Bitcoin, base_units: 5_000_000_000 });
    assert_eq!(satoshis.whole_coins(), 50);
}

#[test]
fn text_that_is_no_amount_is_an_upstream_failure() {
    let reply = BalanceReply::Text(String::from("Checksum does not validate"));
    let error = read_balance(Chain::Bitcoin, reply).unwrap_err();
    assert_eq!(error.kind, ProviderErrorKind::Upstream);
    assert_eq!(error.message, "invalid digit found in string");
    let empty = read_balance(Chain::Bitcoin, BalanceReply::Text(String::new())).unwrap_err();
    assert_eq!(empty.kind, ProviderErrorKind::Upstream);
    assert_eq!(empty.message, "cannot parse integer from empty string");
    let negative = read_balance(Chain::Bitcoin, BalanceReply::Text(String::from("-5"))).unwrap_err();
    assert_eq!(negative.kind, ProviderErrorKind::Upstream);
    let large = BalanceReply::Text(String::from("18446744073709551616"));
    let error = read_balance(Chain::Bitcoin, large).unwrap_err();
    assert_eq!(error.message, "number too large to fit in target type");
}

#[test]
fn failed_reply_is_an_upstream_failure() {
    let reply = BalanceReply::Failed(String::from("error sending request"));
    let error = read_balance(Chain::Ethereum, reply).unwrap_err();
    assert_eq!(error.kind, ProviderErrorKind::Upstream);
    assert_eq!(error.message, "error sending request");
}

#[test]
fn aborted_reply_is_a_task_failure() {
    let reply = BalanceReply::Aborted(String::from("task 7 panicked"));
    let error = read_balance(Chain::Solana, reply).unwrap_err();
    assert_eq!(error.kind, ProviderErrorKind::TaskFailure);
    assert_eq!(error.message, "task 7 panicked");
}

#[test]
fn errors_are_made_of_kind_and_message() {
    let provider = ProviderError::new(ProviderErrorKind::Upstream, "timed out");
    assert_eq!(provider.kind, ProviderErrorKind::Upstream);
    assert_eq!(provider.message, "timed out");
    let quote = QuoteError::new(QuoteErrorKind::NotFound, "Price not found");
    assert_eq!(quote.kind, QuoteErrorKind::NotFound);
    assert_eq!(quote.message, "Price not found");
}

#[test]
fn text_helpers() {
    assert_eq!(chars_of("a\u{e9}\u{1f600}z"), vec!['a', '\u{e9}', '\u{1f600}', 'z']);
    assert_eq!(chars_of(""), Vec::<char>::new());
    assert!(same_text("solana", "solana"));
    assert!(!same_text("solana", "solana "));
    assert!(!same_text("", "x"));
    assert_eq!(joined("ab", "cd"), "abcd");
    assert_eq!(joined("", ""), "");
}
