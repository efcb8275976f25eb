//! The balance providers: what to ask each chain's service for the balance of
//! an address, and how its answer is read.

use vstd::prelude::*;
use crate::address::{
    ethereum_account,
    ethereum_address_bytes,
    ethereum_address_fault,
    is_ethereum_address,
    solana_address_parse,
    solana_key,
    spec_solana_key,
};
use crate::balance::NativeBalance;
use crate::chain::Chain;
use crate::decimal::{parse_amount, spec_parse_amount, trimmed};
use crate::error::{ProviderError, ProviderErrorKind, ProviderErrorView};
use crate::text::joined;

verus! {

/// What a chain's service is asked.
#[derive(Debug)]
pub enum BalanceQuery {
    /// The balance of an account, of the Ethereum JSON-RPC endpoint.
    Ethereum { account: [u8; 20] },
    /// The balance of an address, of the Bitcoin balance service. The address
    /// goes into the request as it was written.
    Bitcoin { address: String },
    /// The balance of a public key, of the Solana JSON-RPC endpoint.
    Solana { key: [u8; 32] },
}

/// A balance query with its contents as sequences.
pub enum BalanceQueryView {
    Ethereum { account: Seq<u8> },
    Bitcoin { address: Seq<char> },
    Solana { key: Seq<u8> },
}

impl View for BalanceQuery {
    type V = BalanceQueryView;

    open spec fn view(&self) -> BalanceQueryView {
        match self {
            BalanceQuery::Ethereum { account } => BalanceQueryView::Ethereum {
                account: account@,
            },
            BalanceQuery::Bitcoin { address } => BalanceQueryView::Bitcoin {
                address: address@,
            },
            BalanceQuery::Solana { key } => BalanceQueryView::Solana { key: key@ },
        }
    }
}

impl BalanceQueryView {
    /// The chain that is asked.
    pub open spec fn chain(self) -> Chain {
        match self {
            BalanceQueryView::Ethereum { .. } => Chain::Ethereum,
            BalanceQueryView::Bitcoin { .. } => Chain::Bitcoin,
            BalanceQueryView::Solana { .. } => Chain::Solana,
        }
    }

    /// The address of the service: an endpoint for Ethereum and Solana, for
    /// Bitcoin the balance path followed by the address.
    pub open spec fn url(self) -> Seq<char> {
        match self {
            BalanceQueryView::Ethereum { .. } => "https://eth.llamarpc.com"@,
            BalanceQueryView::Bitcoin { address } => "https://blockchain.info/q/addressbalance/"@
                + address,
            BalanceQueryView::Solana { .. } => "https://api.mainnet-beta.solana.com"@,
        }
    }

    /// Whether performing the query blocks the caller, so that it has to be
    /// handed to a unit of execution of its own. Only the Solana query does.
    pub open spec fn blocks(self) -> bool {
        self is Solana
    }
}

impl BalanceQuery {
    /// The chain that is asked.
    pub fn chain(&self) -> (chain: Chain)
        ensures
            chain == self@.chain(),
    {
        match self {
            BalanceQuery::Ethereum { .. } => Chain::Ethereum,
            BalanceQuery::Bitcoin { .. } => Chain::Bitcoin,
            BalanceQuery::Solana { .. } => Chain::Solana,
        }
    }

    /// The address of the service.
    pub fn url(&self) -> (url: String)
        ensures
            url@ == self@.url(),
    {
        match self {
            BalanceQuery::Ethereum { .. } => String::from_str("https://eth.llamarpc.com"),
            BalanceQuery::Bitcoin { address } => joined(
                "https://blockchain.info/q/addressbalance/",
                address.as_str(),
            ),
            BalanceQuery::Solana { .. } => String::from_str(
                "https://api.mainnet-beta.solana.com",
            ),
        }
    }

    /// Whether performing the query blocks the caller.
    pub fn blocks(&self) -> (blocks: bool)
        ensures
            blocks == self@.blocks(),
    {
        match self {
            BalanceQuery::Solana { .. } => true,
            _ => false,
        }
    }
}

/// The query for the balance of `address` on `chain`: for Ethereum and
/// Solana the address as bytes, where it is written as the chain writes
/// addresses, and else a failure to parse; for Bitcoin the address as it is.
pub open spec fn spec_balance_query(chain: Chain, address: Seq<char>) -> Result<
    BalanceQueryView,
    ProviderErrorView,
> {
    match chain {
        Chain::Ethereum => if is_ethereum_address(address) {
            Ok(BalanceQueryView::Ethereum { account: ethereum_address_bytes(address) })
        } else {
            Err(
                ProviderErrorView {
                    kind: ProviderErrorKind::AddressParse,
                    message: ethereum_address_fault(address),
                },
            )
        },
        Chain::Bitcoin => Ok(BalanceQueryView::Bitcoin { address }),
        Chain::Solana => match spec_solana_key(solana_address_parse(address)) {
            Ok(key) => Ok(BalanceQueryView::Solana { key }),
            Err(error) => Err(error),
        },
    }
}

/// Prepares the query for the balance of `address` on `chain`. No service is
/// asked where the address cannot be read.
pub fn balance_query(chain: Chain, address: &str) -> (query: Result<BalanceQuery, ProviderError>)
    ensures
        match query {
            Ok(prepared) => spec_balance_query(chain, address@) == Ok::<
                BalanceQueryView,
                ProviderErrorView,
            >(prepared@),
            Err(error) => spec_balance_query(chain, address@) == Err::<
                BalanceQueryView,
                ProviderErrorView,
            >(error@),
        },
{
    match chain {
        Chain::Ethereum => match ethereum_account(address) {
            Ok(account) => Ok(BalanceQuery::Ethereum { account }),
            Err(error) => Err(error),
        },
        Chain::Bitcoin => Ok(BalanceQuery::Bitcoin { address: String::from_str(address) }),
        Chain::Solana => match solana_key(address) {
            Ok(key) => Ok(BalanceQuery::Solana { key }),
            Err(error) => Err(error),
        },
    }
}

/// What came back for a balance query.
#[derive(Debug)]
pub enum BalanceReply {
    /// The service answered with a number of base units.
    Amount(u128),
    /// The service answered with plain text that is to write a number of
    /// base units.
    Text(String),
    /// The service could not be reached, or answered with a failure.
    Failed(String),
    /// The unit of execution that the query was handed to did not complete.
    Aborted(String),
}

/// A balance reply with its texts as sequences of characters.
pub enum BalanceReplyView {
    Amount(u128),
    Text(Seq<char>),
    Failed(Seq<char>),
    Aborted(Seq<char>),
}

impl View for BalanceReply {
    type V = BalanceReplyView;

    open spec fn view(&self) -> BalanceReplyView {
        match self {
            BalanceReply::Amount(amount) => BalanceReplyView::Amount(*amount),
            BalanceReply::Text(text) => BalanceReplyView::Text(text@),
            BalanceReply::Failed(message) => BalanceReplyView::Failed(message@),
            BalanceReply::Aborted(message) => BalanceReplyView::Aborted(message@),
        }
    }
}

/// The balance on `chain` that a reply gives. A text that writes no amount
/// is an upstream failure, whatever the service meant by it.
pub open spec fn spec_read_balance(chain: Chain, reply: BalanceReplyView) -> Result<
    NativeBalance,
    ProviderErrorView,
> {
    match reply {
        BalanceReplyView::Amount(base_units) => Ok(NativeBalance { chain, base_units }),
        BalanceReplyView::Text(text) => match spec_parse_amount(trimmed(text)) {
            Ok(amount) => Ok(NativeBalance { chain, base_units: amount as u128 }),
            Err(fault) => Err(
                ProviderErrorView {
                    kind: ProviderErrorKind::Upstream,
                    message: fault.spec_message(),
                },
            ),
        },
        BalanceReplyView::Failed(message) => Err(
            ProviderErrorView { kind: ProviderErrorKind::Upstream, message },
        ),
        BalanceReplyView::Aborted(message) => Err(
            ProviderErrorView { kind: ProviderErrorKind::TaskFailure, message },
        ),
    }
}

/// Reads the balance on `chain` from the reply to its query.
pub fn read_balance(chain: Chain, reply: BalanceReply) -> (balance: Result<
    NativeBalance,
    ProviderError,
>)
    ensures
        match balance {
            Ok(held) => spec_read_balance(chain, reply@) == Ok::<
                NativeBalance,
                ProviderErrorView,
            >(held),
            Err(error) => spec_read_balance(chain, reply@) == Err::<
                NativeBalance,
                ProviderErrorView,
            >(error@),
        },
{
    match reply {
        BalanceReply::Amount(base_units) => Ok(NativeBalance::from_base_units(chain, base_units)),
        BalanceReply::Text(text) => match parse_amount(text.as_str()) {
            Ok(amount) => Ok(NativeBalance::from_base_units(chain, amount as u128)),
            Err(fault) => Err(ProviderError::new(ProviderErrorKind::Upstream, fault.message())),
        },
        BalanceReply::Failed(message) => Err(
            ProviderError { kind: ProviderErrorKind::Upstream, message },
        ),
        BalanceReply::Aborted(message) => Err(
            ProviderError { kind: ProviderErrorKind::TaskFailure, message },
        ),
    }
}

} // verus!
