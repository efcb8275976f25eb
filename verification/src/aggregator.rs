//! The wallet aggregator: one request for the value of an address on a chain,
//! taken from the request to the answer.
//!
//! The aggregator moves in three steps, and between them the caller performs
//! what the current step asks for: [`open`] asks for a balance,
//! [`on_balance`] takes the reply and asks for a price, [`on_price`] takes
//! that reply and closes with the valuation. Each step either goes on or
//! closes the request with a [`Failure`]; nothing partial is ever handed out.

use vstd::prelude::*;
use crate::address::is_ethereum_address;
use crate::balance::NativeBalance;
use crate::chain::Chain;
use crate::error::{ProviderError, ProviderErrorKind, ProviderErrorView, QuoteErrorView};
use crate::number::Number;
use crate::provider::{
    balance_query,
    read_balance,
    spec_balance_query,
    spec_read_balance,
    BalanceQuery,
    BalanceQueryView,
    BalanceReply,
    BalanceReplyView,
};
use crate::quote::{read_price, spec_read_price, PriceQuery, PriceReply, PriceReplyView};
use crate::text::joined;

verus! {

/// The status of a failure that the request is to blame for.
pub const STATUS_BAD_REQUEST: u16 = 400;

/// The status of a failure that the service is to blame for.
pub const STATUS_SERVER_ERROR: u16 = 500;

/// A request for the value of `address` on the chain that `chain` names.
#[derive(Debug)]
pub struct WalletConnectRequest {
    pub address: String,
    pub chain: String,
}

/// Why a request is closed without a valuation.
#[derive(Debug)]
pub enum Failure {
    /// The request names no supported chain.
    UnsupportedChain,
    /// The balance could not be had: the address was not read, or the
    /// chain's service failed.
    BalanceUnavailable { chain: Chain, detail: String },
    /// The unit of execution that fetched the balance did not complete.
    ExecutionFault { chain: Chain, detail: String },
    /// The price could not be had.
    PriceUnavailable { chain: Chain },
}

/// A failure with its texts as sequences of characters.
pub enum FailureView {
    UnsupportedChain,
    BalanceUnavailable { chain: Chain, detail: Seq<char> },
    ExecutionFault { chain: Chain, detail: Seq<char> },
    PriceUnavailable { chain: Chain },
}

impl View for Failure {
    type V = FailureView;

    open spec fn view(&self) -> FailureView {
        match self {
            Failure::UnsupportedChain => FailureView::UnsupportedChain,
            Failure::BalanceUnavailable { chain, detail } => FailureView::BalanceUnavailable {
                chain: *chain,
                detail: detail@,
            },
            Failure::ExecutionFault { chain, detail } => FailureView::ExecutionFault {
                chain: *chain,
                detail: detail@,
            },
            Failure::PriceUnavailable { chain } => FailureView::PriceUnavailable {
                chain: *chain,
            },
        }
    }
}

impl FailureView {
    /// The status of the answer: the request is to blame for an unsupported
    /// chain and for a balance that could not be had, the service for the
    /// rest.
    pub open spec fn status(self) -> u16 {
        match self {
            FailureView::UnsupportedChain => STATUS_BAD_REQUEST,
            FailureView::BalanceUnavailable { .. } => STATUS_BAD_REQUEST,
            FailureView::ExecutionFault { .. } => STATUS_SERVER_ERROR,
            FailureView::PriceUnavailable { .. } => STATUS_SERVER_ERROR,
        }
    }

    /// The plain text of the answer.
    pub open spec fn message(self) -> Seq<char> {
        match self {
            FailureView::UnsupportedChain => "Unsupported chain. Use: ethereum, bitcoin, solana"@,
            FailureView::BalanceUnavailable { chain, detail } => "Invalid "@ + chain.spec_name()
                + " address or RPC error: "@ + detail,
            FailureView::ExecutionFault { chain, detail } => "Failed to complete "@
                + chain.spec_name() + " balance lookup: "@ + detail,
            FailureView::PriceUnavailable { chain } => "Failed to get "@
                + chain.spec_asset_symbol() + " price"@,
        }
    }
}

impl Failure {
    /// The status of the answer.
    pub fn status(&self) -> (status: u16)
        ensures
            status == self@.status(),
    {
        match self {
            Failure::UnsupportedChain => STATUS_BAD_REQUEST,
            Failure::BalanceUnavailable { .. } => STATUS_BAD_REQUEST,
            Failure::ExecutionFault { .. } => STATUS_SERVER_ERROR,
            Failure::PriceUnavailable { .. } => STATUS_SERVER_ERROR,
        }
    }

    /// The plain text of the answer.
    pub fn message(&self) -> (message: String)
        ensures
            message@ == self@.message(),
    {
        match self {
            Failure::UnsupportedChain => String::from_str(
                "Unsupported chain. Use: ethereum, bitcoin, solana",
            ),
            Failure::BalanceUnavailable { chain, detail } => joined("Invalid ", chain.name())
                .concat(" address or RPC error: ").concat(detail.as_str()),
            Failure::ExecutionFault { chain, detail } => joined(
                "Failed to complete ",
                chain.name(),
            ).concat(" balance lookup: ").concat(detail.as_str()),
            Failure::PriceUnavailable { chain } => joined("Failed to get ", chain.asset_symbol())
                .concat(" price"),
        }
    }
}

/// A request that waits for its balance.
#[derive(Debug)]
pub struct AwaitingBalance {
    pub address: String,
    pub chain: Chain,
    /// What the caller is to ask.
    pub query: BalanceQuery,
}

/// A request that waits for its balance, as mathematical values.
pub struct AwaitingBalanceView {
    pub address: Seq<char>,
    pub chain: Chain,
    pub query: BalanceQueryView,
}

impl View for AwaitingBalance {
    type V = AwaitingBalanceView;

    open spec fn view(&self) -> AwaitingBalanceView {
        AwaitingBalanceView { address: self.address@, chain: self.chain, query: self.query@ }
    }
}

/// A request that has its balance and waits for its price.
#[derive(Debug)]
pub struct AwaitingPrice {
    pub address: String,
    pub chain: Chain,
    pub balance: NativeBalance,
    /// What the caller is to ask.
    pub query: PriceQuery,
}

/// A request that waits for its price, as mathematical values.
pub struct AwaitingPriceView {
    pub address: Seq<char>,
    pub chain: Chain,
    pub balance: NativeBalance,
    pub query: PriceQuery,
}

impl View for AwaitingPrice {
    type V = AwaitingPriceView;

    open spec fn view(&self) -> AwaitingPriceView {
        AwaitingPriceView {
            address: self.address@,
            chain: self.chain,
            balance: self.balance,
            query: self.query,
        }
    }
}

/// The balance of one asset.
#[derive(Debug)]
pub struct AssetBalance {
    pub symbol: String,
    pub balance: NativeBalance,
}

/// The value of an address on a chain: its balances by asset symbol, and the
/// price of one coin. The total value is the balance in coins times the
/// price.
#[derive(Debug)]
pub struct WalletValuation {
    pub address: String,
    pub chain: String,
    pub balances: Vec<AssetBalance>,
    pub price: Number,
}

/// A valuation as mathematical values.
pub struct WalletValuationView {
    pub address: Seq<char>,
    pub chain: Seq<char>,
    pub balances: Seq<(Seq<char>, NativeBalance)>,
    pub price: Number,
}

impl View for WalletValuation {
    type V = WalletValuationView;

    open spec fn view(&self) -> WalletValuationView {
        WalletValuationView {
            address: self.address@,
            chain: self.chain@,
            balances: Seq::new(
                self.balances@.len(),
                |i: int| (self.balances@[i].symbol@, self.balances@[i].balance),
            ),
            price: self.price,
        }
    }
}

/// The failure that a failed balance provider closes the request with: an
/// execution fault where the unit of execution did not complete, and else a
/// balance that could not be had.
pub open spec fn spec_balance_failure(chain: Chain, error: ProviderErrorView) -> FailureView {
    match error.kind {
        ProviderErrorKind::TaskFailure => FailureView::ExecutionFault {
            chain,
            detail: error.message,
        },
        ProviderErrorKind::AddressParse => FailureView::BalanceUnavailable {
            chain,
            detail: error.message,
        },
        ProviderErrorKind::Upstream => FailureView::BalanceUnavailable {
            chain,
            detail: error.message,
        },
    }
}

/// The first step: the chain is selected and the balance query prepared.
pub open spec fn spec_open(address: Seq<char>, chain_tag: Seq<char>) -> Result<
    AwaitingBalanceView,
    FailureView,
> {
    match Chain::spec_from_tag(chain_tag) {
        None => Err(FailureView::UnsupportedChain),
        Some(chain) => match spec_balance_query(chain, address) {
            Ok(query) => Ok(AwaitingBalanceView { address, chain, query }),
            Err(error) => Err(spec_balance_failure(chain, error)),
        },
    }
}

/// The second step: the balance is read and the price query prepared.
pub open spec fn spec_on_balance(state: AwaitingBalanceView, reply: BalanceReplyView) -> Result<
    AwaitingPriceView,
    FailureView,
> {
    match spec_read_balance(state.chain, reply) {
        Ok(balance) => Ok(
            AwaitingPriceView {
                address: state.address,
                chain: state.chain,
                balance,
                query: PriceQuery { chain: state.chain },
            },
        ),
        Err(error) => Err(spec_balance_failure(state.chain, error)),
    }
}

/// The third step: the price is read and the valuation put together, with
/// one balance, under the symbol of the chain's coin.
pub open spec fn spec_on_price(state: AwaitingPriceView, reply: PriceReplyView) -> Result<
    WalletValuationView,
    FailureView,
> {
    match spec_read_price(state.chain, reply) {
        Ok(price) => Ok(
            WalletValuationView {
                address: state.address,
                chain: state.chain.spec_tag(),
                balances: seq![(state.chain.spec_asset_symbol(), state.balance)],
                price,
            },
        ),
        Err(_) => Err(FailureView::PriceUnavailable { chain: state.chain }),
    }
}

fn balance_failure(chain: Chain, error: ProviderError) -> (failure: Failure)
    ensures
        failure@ == spec_balance_failure(chain, error@),
{
    match error.kind {
        ProviderErrorKind::TaskFailure => Failure::ExecutionFault {
            chain,
            detail: error.message,
        },
        ProviderErrorKind::AddressParse => Failure::BalanceUnavailable {
            chain,
            detail: error.message,
        },
        ProviderErrorKind::Upstream => Failure::BalanceUnavailable {
            chain,
            detail: error.message,
        },
    }
}

/// Opens a request. Where the request names no supported chain it is closed
/// at once and nothing is asked of any service. Where the address cannot be
/// read on its chain the request is closed as well. Else the state holds the
/// balance query that the caller is to perform.
pub fn open(request: &WalletConnectRequest) -> (step: Result<AwaitingBalance, Failure>)
    ensures
        match step {
            Ok(state) => spec_open(request.address@, request.chain@) == Ok::<
                AwaitingBalanceView,
                FailureView,
            >(state@),
            Err(failure) => spec_open(request.address@, request.chain@) == Err::<
                AwaitingBalanceView,
                FailureView,
            >(failure@),
        },
{
    let chain = match Chain::from_tag(request.chain.as_str()) {
        Some(chain) => chain,
        None => {
            return Err(Failure::UnsupportedChain);
        },
    };
    match balance_query(chain, request.address.as_str()) {
        Ok(query) => Ok(AwaitingBalance { address: request.address.clone(), chain, query }),
        Err(error) => Err(balance_failure(chain, error)),
    }
}

/// Takes the reply to the balance query. A failed reply closes the request;
/// no price is then asked. Else the state holds the balance and the price
/// query that the caller is to perform.
pub fn on_balance(state: AwaitingBalance, reply: BalanceReply) -> (step: Result<
    AwaitingPrice,
    Failure,
>)
    ensures
        match step {
            Ok(next) => spec_on_balance(state@, reply@) == Ok::<AwaitingPriceView, FailureView>(
                next@,
            ),
            Err(failure) => spec_on_balance(state@, reply@) == Err::<
                AwaitingPriceView,
                FailureView,
            >(failure@),
        },
{
    let chain = state.chain;
    match read_balance(chain, reply) {
        Ok(balance) => Ok(
            AwaitingPrice { address: state.address, chain, balance, query: PriceQuery { chain } },
        ),
        Err(error) => Err(balance_failure(chain, error)),
    }
}

/// Takes the reply to the price query and closes the request: with the
/// valuation, or with a failure where the price could not be had.
pub fn on_price(state: AwaitingPrice, reply: PriceReply) -> (step: Result<
    WalletValuation,
    Failure,
>)
    ensures
        match step {
            Ok(valuation) => spec_on_price(state@, reply@) == Ok::<
                WalletValuationView,
                FailureView,
            >(valuation@),
            Err(failure) => spec_on_price(state@, reply@) == Err::<
                WalletValuationView,
                FailureView,
            >(failure@),
        },
{
    let chain = state.chain;
    match read_price(chain, reply) {
        Ok(price) => {
            let mut balances: Vec<AssetBalance> = Vec::new();
            balances.push(
                AssetBalance {
                    symbol: String::from_str(chain.asset_symbol()),
                    balance: state.balance,
                },
            );
            let valuation = WalletValuation {
                address: state.address,
                chain: String::from_str(chain.tag()),
                balances,
                price,
            };
            assert(valuation@.balances =~= seq![(chain.spec_asset_symbol(), state.balance)]);
            Ok(valuation)
        },
        Err(_) => Err(Failure::PriceUnavailable { chain }),
    }
}

/// A request that names a chain other than the three supported ones is
/// closed by the first step, as the request's fault, whatever its address.
/// No query is prepared, so no service is asked.
pub proof fn lemma_unknown_chain_is_refused(address: Seq<char>, chain_tag: Seq<char>)
    requires
        chain_tag != "ethereum"@,
        chain_tag != "bitcoin"@,
        chain_tag != "solana"@,
    ensures
        spec_open(address, chain_tag) == Err::<AwaitingBalanceView, FailureView>(
            FailureView::UnsupportedChain,
        ),
        FailureView::UnsupportedChain.status() == STATUS_BAD_REQUEST,
{
}

/// A request for Ethereum whose address is not written as an Ethereum address
/// is closed by the first step, as the request's fault. The request never
/// comes to wait for a balance, and so never for a price.
pub proof fn lemma_bad_ethereum_address_is_refused(address: Seq<char>)
    requires
        !is_ethereum_address(address),
    ensures
        spec_open(address, "ethereum"@) is Err,
        spec_open(address, "ethereum"@)->Err_0 is BalanceUnavailable,
        spec_open(address, "ethereum"@)->Err_0.status() == STATUS_BAD_REQUEST,
{
}

/// A request that goes through all three steps is answered with its own
/// address and chain tag, with exactly one balance, which is the one that the
/// balance reply gave, under the symbol of the chain's coin, and with the
/// price that the price reply gave for that coin.
pub proof fn lemma_valuation_answers_the_request(
    address: Seq<char>,
    chain_tag: Seq<char>,
    balance_reply: BalanceReplyView,
    price_reply: PriceReplyView,
)
    requires
        spec_open(address, chain_tag) is Ok,
        spec_on_balance(spec_open(address, chain_tag)->Ok_0, balance_reply) is Ok,
        spec_on_price(
            spec_on_balance(spec_open(address, chain_tag)->Ok_0, balance_reply)->Ok_0,
            price_reply,
        ) is Ok,
    ensures
        ({
            let waiting = spec_open(address, chain_tag)->Ok_0;
            let priced = spec_on_balance(waiting, balance_reply)->Ok_0;
            let valuation = spec_on_price(priced, price_reply)->Ok_0;
            &&& Chain::spec_from_tag(chain_tag) == Some(waiting.chain)
            &&& waiting.query.chain() == waiting.chain
            &&& valuation.address == address
            &&& valuation.chain == chain_tag
            &&& valuation.balances.len() == 1
            &&& valuation.balances[0].0 == waiting.chain.spec_asset_symbol()
            &&& spec_read_balance(waiting.chain, balance_reply) == Ok::<
                NativeBalance,
                ProviderErrorView,
            >(valuation.balances[0].1)
            &&& spec_read_price(waiting.chain, price_reply) == Ok::<
                Number,
                QuoteErrorView,
            >(valuation.price)
        }),
{
}

/// The first two steps close a request only as a balance that could not be
/// had, as an execution fault or, the first, as an unsupported chain; the
/// third only as a price that could not be had. A balance failure is the
/// request's fault unless the unit of execution failed.
pub proof fn lemma_failures_by_step(
    address: Seq<char>,
    chain_tag: Seq<char>,
    waiting: AwaitingBalanceView,
    balance_reply: BalanceReplyView,
    priced: AwaitingPriceView,
    price_reply: PriceReplyView,
)
    ensures
        spec_open(address, chain_tag) is Err ==> spec_open(address, chain_tag)->Err_0.status()
            == STATUS_BAD_REQUEST,
        spec_on_balance(waiting, balance_reply) is Err ==> (spec_on_balance(
            waiting,
            balance_reply,
        )->Err_0.status() == STATUS_SERVER_ERROR <==> balance_reply is Aborted),
        spec_on_price(priced, price_reply) is Err ==> spec_on_price(
            priced,
            price_reply,
        )->Err_0 == (FailureView::PriceUnavailable { chain: priced.chain }),
        spec_on_price(priced, price_reply) is Err ==> spec_on_price(
            priced,
            price_reply,
        )->Err_0.status() == STATUS_SERVER_ERROR,
{
}

} // verus!
