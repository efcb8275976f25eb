//! The supported chains and their fixed constants.

use vstd::prelude::*;
use vstd::arithmetic::power::pow;
use crate::text::same_text;

verus! {

/// A supported chain.
#[derive(Clone, Copy, Debug, PartialEq, Eq, Structural)]
pub enum Chain {
    Ethereum,
    Bitcoin,
    Solana,
}

impl Chain {
    /// The tag by which requests name the chain.
    pub open spec fn spec_tag(self) -> Seq<char> {
        match self {
            Chain::Ethereum => "ethereum"@,
            Chain::Bitcoin => "bitcoin"@,
            Chain::Solana => "solana"@,
        }
    }

    /// The chain that `tag` names, if any.
    pub open spec fn spec_from_tag(tag: Seq<char>) -> Option<Chain> {
        if tag == "ethereum"@ {
            Some(Chain::Ethereum)
        } else if tag == "bitcoin"@ {
            Some(Chain::Bitcoin)
        } else if tag == "solana"@ {
            Some(Chain::Solana)
        } else {
            None
        }
    }

    /// Selects the chain that a request names. Any tag other than the three
    /// known ones selects nothing.
    pub fn from_tag(tag: &str) -> (chain: Option<Chain>)
        ensures
            chain == Chain::spec_from_tag(tag@),
    {
        if same_text(tag, "ethereum") {
            Some(Chain::Ethereum)
        } else if same_text(tag, "bitcoin") {
            Some(Chain::Bitcoin)
        } else if same_text(tag, "solana") {
            Some(Chain::Solana)
        } else {
            None
        }
    }

    /// The tag by which requests name the chain.
    pub fn tag(self) -> (tag: &'static str)
        ensures
            tag@ == self.spec_tag(),
    {
        match self {
            Chain::Ethereum => "ethereum",
            Chain::Bitcoin => "bitcoin",
            Chain::Solana => "solana",
        }
    }

    /// The identifier under which the chain's coin is quoted.
    pub open spec fn spec_asset_id(self) -> Seq<char> {
        match self {
            Chain::Ethereum => "ethereum"@,
            Chain::Bitcoin => "bitcoin"@,
            Chain::Solana => "solana"@,
        }
    }

    /// The identifier under which the chain's coin is quoted.
    pub fn asset_id(self) -> (id: &'static str)
        ensures
            id@ == self.spec_asset_id(),
    {
        match self {
            Chain::Ethereum => "ethereum",
            Chain::Bitcoin => "bitcoin",
            Chain::Solana => "solana",
        }
    }

    /// The symbol of the chain's coin.
    pub open spec fn spec_asset_symbol(self) -> Seq<char> {
        match self {
            Chain::Ethereum => "ETH"@,
            Chain::Bitcoin => "BTC"@,
            Chain::Solana => "SOL"@,
        }
    }

    /// The symbol of the chain's coin.
    pub fn asset_symbol(self) -> (symbol: &'static str)
        ensures
            symbol@ == self.spec_asset_symbol(),
    {
        match self {
            Chain::Ethereum => "ETH",
            Chain::Bitcoin => "BTC",
            Chain::Solana => "SOL",
        }
    }

    /// The chain's name as messages write it.
    pub open spec fn spec_name(self) -> Seq<char> {
        match self {
            Chain::Ethereum => "Ethereum"@,
            Chain::Bitcoin => "Bitcoin"@,
            Chain::Solana => "Solana"@,
        }
    }

    /// The chain's name as messages write it.
    pub fn name(self) -> (name: &'static str)
        ensures
            name@ == self.spec_name(),
    {
        match self {
            Chain::Ethereum => "Ethereum",
            Chain::Bitcoin => "Bitcoin",
            Chain::Solana => "Solana",
        }
    }

    /// How many decimal places of the coin one base unit is.
    pub open spec fn spec_decimals(self) -> nat {
        match self {
            Chain::Ethereum => 18,
            Chain::Bitcoin => 8,
            Chain::Solana => 9,
        }
    }

    /// How many decimal places of the coin one base unit is.
    pub fn decimals(self) -> (decimals: u32)
        ensures
            decimals == self.spec_decimals(),
    {
        match self {
            Chain::Ethereum => 18,
            Chain::Bitcoin => 8,
            Chain::Solana => 9,
        }
    }

    /// How many base units make one coin: wei in an ether, satoshis in a
    /// bitcoin, lamports in a sol.
    pub open spec fn spec_base_units_per_coin(self) -> nat {
        match self {
            Chain::Ethereum => 1_000_000_000_000_000_000,
            Chain::Bitcoin => 100_000_000,
            Chain::Solana => 1_000_000_000,
        }
    }

    /// How many base units make one coin.
    pub fn base_units_per_coin(self) -> (units: u64)
        ensures
            units == self.spec_base_units_per_coin(),
    {
        match self {
            Chain::Ethereum => 1_000_000_000_000_000_000,
            Chain::Bitcoin => 100_000_000,
            Chain::Solana => 1_000_000_000,
        }
    }
}

/// A tag selects a chain exactly when it is that chain's tag.
pub proof fn lemma_tags_select_their_chain(chain: Chain)
    ensures
        Chain::spec_from_tag(chain.spec_tag()) == Some(chain),
{
    reveal_strlit("ethereum");
    reveal_strlit("bitcoin");
    reveal_strlit("solana");
    assert("ethereum"@.len() == 8);
    assert("bitcoin"@.len() == 7);
    assert("solana"@.len() == 6);
}

/// A tag selects no chain but the one whose tag it is.
pub proof fn lemma_selected_chain_has_the_tag(tag: Seq<char>)
    ensures
        Chain::spec_from_tag(tag) matches Some(chain) ==> chain.spec_tag() == tag,
{
}

/// The number of base units in one coin is ten to the number of decimals.
pub proof fn lemma_base_units_are_a_power_of_ten(chain: Chain)
    ensures
        chain.spec_base_units_per_coin() == pow(10, chain.spec_decimals()),
{
    reveal_with_fuel(pow, 19);
}

} // verus!
