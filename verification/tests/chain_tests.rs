use trading_calculator::balance::NativeBalance;
use trading_calculator::chain::Chain;

fn in_coins(balance: &NativeBalance) -> f64 {
    balance.base_units as f64 / balance.chain.base_units_per_coin() as f64
}

#[test]
fn tags_select_chains() {
    assert_eq!(Chain::from_tag("ethereum"), Some(Chain::Ethereum));
    assert_eq!(Chain::from_tag("bitcoin"), Some(Chain::Bitcoin));
    assert_eq!(Chain::from_tag("solana"), Some(Chain::Solana));
}

#[test]
fn other_tags_select_nothing() {
    assert_eq!(Chain::from_tag("dogecoin"), None);
    assert_eq!(Chain::from_tag(""), None);
    assert_eq!(Chain::from_tag("Ethereum"), None);
    assert_eq!(Chain::from_tag("ethereum "), None);
    assert_eq!(Chain::from_tag("ETH"), None);
}

#[test]
fn every_chain_is_selected_by_its_tag() {
    for chain in [Chain::Ethereum, Chain::Bitcoin, Chain::Solana] {
        assert_eq!(Chain::from_tag(chain.tag()), Some(chain));
    }
}

#[test]
fn constants_of_the_chains() {
    assert_eq!(Chain::Ethereum.tag(), "ethereum");
    assert_eq!(Chain::Bitcoin.tag(), "bitcoin");
    assert_eq!(Chain::Solana.tag(), "solana");
    assert_eq!(Chain::Ethereum.asset_id(), "ethereum");
    assert_eq!(Chain::Bitcoin.asset_id(), "bitcoin");
    assert_eq!(Chain::Solana.asset_id(), "solana");
    assert_eq!(Chain::Ethereum.asset_symbol(), "ETH");
    assert_eq!(Chain::Bitcoin.asset_symbol(), "BTC");
    assert_eq!(Chain::Solana.asset_symbol(), "SOL");
    assert_eq!(Chain::Ethereum.name(), "Ethereum");
    assert_eq!(Chain::Bitcoin.name(), "Bitcoin");
    assert_eq!(Chain::Solana.name(), "Solana");
}

#[test]
fn base_units_per_coin_are_powers_of_ten() {
    assert_eq!(Chain::Ethereum.base_units_per_coin(), 1_000_000_000_000_000_000);
    assert_eq!(Chain::Bitcoin.base_units_per_coin(), 100_000_000);
    assert_eq!(Chain::Solana.base_units_per_coin(), 1_000_000_000);
    for chain in [Chain::Ethereum, Chain::Bitcoin, Chain::Solana] {
        assert_eq!(chain.base_units_per_coin(), 10u64.pow(chain.decimals()));
    }
    assert_eq!(Chain::Ethereum.base_units_per_coin() as f64, 1e18);
    assert_eq!(Chain::Bitcoin.base_units_per_coin() as f64, 1e8);
    assert_eq!(Chain::Solana.base_units_per_coin() as f64, 1e9);
}

#[test]
fn no_base_units_are_exactly_zero_coins() {
    for chain in [Chain::Ethereum, Chain::Bitcoin, Chain::Solana] {
        let balance = NativeBalance::from_base_units(chain, 0);
        assert_eq!(balance.whole_coins(), 0);
        assert_eq!(balance.fraction(), 0);
        assert_eq!(in_coins(&balance), 0.0);
    }
}

#[test]
fn one_coin_in_base_units() {
    for chain in [Chain::Ethereum, Chain::Bitcoin, Chain::Solana] {
        let balance = NativeBalance::from_base_units(chain, chain.base_units_per_coin() as u128);
        assert_eq!(balance.whole_coins(), 1);
        assert_eq!(balance.fraction(), 0);
        assert_eq!(in_coins(&balance), 1.0);
    }
}

#[test]
fn conversion_round_trips_within_epsilon() {
    for chain in [Chain::Ethereum, Chain::Bitcoin, Chain::Solana] {
        let per_coin = chain.base_units_per_coin() as f64;
        for coins in [0.5, 1.0, 2.25, 1234.5] {
            let base_units = (coins * per_coin) as u128;
            let balance = NativeBalance::from_base_units(chain, base_units);
            let back = in_coins(&balance);
            assert!((back - coins).abs() <= f64::EPSILON * coins);
        }
    }
}

#[test]
fn parts_of_a_balance() {
    let balance = NativeBalance::from_base_units(Chain::Bitcoin, 123_456_789);
    assert_eq!(balance.whole_coins(), 1);
    assert_eq!(balance.fraction(), 23_456_789);
    let ether = NativeBalance::from_base_units(Chain::Ethereum, 2_500_000_000_000_000_001);
    assert_eq!(ether.whole_coins(), 2);
    assert_eq!(ether.fraction(), 500_000_000_000_000_001);
    let sol = NativeBalance::from_base_units(Chain::Solana, 999_999_999);
    assert_eq!(sol.whole_coins(), 0);
    assert_eq!(sol.fraction(), 999_999_999);
}

#[test]
fn parts_round_trip() {
    for chain in [Chain::Ethereum, Chain::Bitcoin, Chain::Solana] {
        for base_units in [0u128, 1, 99_999_999, 100_000_000, 123_456_789_012_345_678_901, u128::MAX] {
            let balance = NativeBalance::from_base_units(chain, base_units);
            let again = NativeBalance::from_parts(chain, balance.whole_coins(), balance.fraction());
            assert_eq!(again, Some(balance));
        }
    }
}

#[test]
fn parts_that_make_no_balance() {
    assert_eq!(NativeBalance::from_parts(Chain::Bitcoin, 1, 100_000_000), None);
    assert_eq!(NativeBalance::from_parts(Chain::Solana, 0, 1_000_000_000), None);
    assert_eq!(NativeBalance::from_parts(Chain::Bitcoin, u128::MAX, 0), None);
    assert_eq!(
        NativeBalance::from_parts(Chain::Bitcoin, u128::MAX / 100_000_000, 99_999_999),
        None
    );
    assert_eq!(
        NativeBalance::from_parts(Chain::Bitcoin, 3, 5),
        Some(NativeBalance { chain: Chain::Bitcoin, base_units: 300_000_005 })
    );
}
