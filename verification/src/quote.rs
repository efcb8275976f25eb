//! The quote provider: what to ask the quote service, and how its answer is
//! read.
//!
//! The service answers with prices by asset identifier and currency code.
//! A [`QuoteTable`] holds such an answer. Recording a price for a pair that
//! already has one replaces it.

use vstd::prelude::*;
use crate::chain::Chain;
use crate::error::{QuoteError, QuoteErrorKind, QuoteErrorView};
use crate::number::Number;
use crate::text::{joined, same_text};

verus! {

/// One price: of an asset, in a currency.
#[derive(Debug)]
pub struct Quote {
    pub asset_id: String,
    pub currency: String,
    pub price: Number,
}

/// The prices of an answer of the quote service.
#[derive(Debug)]
pub struct QuoteTable {
    quotes: Vec<Quote>,
}

/// The prices that a sequence of quotes records, a later quote replacing an
/// earlier one for the same asset and currency.
pub open spec fn recorded_prices(quotes: Seq<Quote>) -> Map<(Seq<char>, Seq<char>), Number>
    decreases quotes.len(),
{
    if quotes.len() == 0 {
        Map::empty()
    } else {
        recorded_prices(quotes.drop_last()).insert(
            (quotes.last().asset_id@, quotes.last().currency@),
            quotes.last().price,
        )
    }
}

impl View for QuoteTable {
    type V = Map<(Seq<char>, Seq<char>), Number>;

    closed spec fn view(&self) -> Map<(Seq<char>, Seq<char>), Number> {
        recorded_prices(self.quotes@)
    }
}

impl QuoteTable {
    /// A table without prices.
    pub fn new() -> (table: QuoteTable)
        ensures
            table@ == Map::<(Seq<char>, Seq<char>), Number>::empty(),
    {
        QuoteTable { quotes: Vec::new() }
    }

    /// Records the price of `asset_id` in `currency`.
    pub fn record(&mut self, asset_id: &str, currency: &str, price: Number)
        ensures
            final(self)@ == old(self)@.insert((asset_id@, currency@), price),
    {
        let quote = Quote {
            asset_id: String::from_str(asset_id),
            currency: String::from_str(currency),
            price,
        };
        self.quotes.push(quote);
        assert(self.quotes@.drop_last() =~= old(self).quotes@);
    }

    /// The price of `asset_id` in `currency`, if the table has one.
    pub fn price_of(&self, asset_id: &str, currency: &str) -> (price: Option<Number>)
        ensures
            price == if self@.contains_key((asset_id@, currency@)) {
                Some(self@[(asset_id@, currency@)])
            } else {
                None
            },
    {
        let ghost key = (asset_id@, currency@);
        let mut remaining: usize = self.quotes.len();
        assert(self.quotes@.take(remaining as int) =~= self.quotes@);
        while remaining > 0
            invariant
                remaining <= self.quotes.len(),
                key == (asset_id@, currency@),
                self@ == recorded_prices(self.quotes@),
                self@.contains_key(key) == recorded_prices(
                    self.quotes@.take(remaining as int),
                ).contains_key(key),
                self@.contains_key(key) ==> self@[key] == recorded_prices(
                    self.quotes@.take(remaining as int),
                )[key],
            decreases remaining,
        {
            let quote = &self.quotes[remaining - 1];
            assert(self.quotes@.take(remaining as int).drop_last() =~= self.quotes@.take(
                remaining - 1,
            ));
            if same_text(quote.asset_id.as_str(), asset_id) && same_text(
                quote.currency.as_str(),
                currency,
            ) {
                return Some(quote.price);
            }
            remaining -= 1;
        }
        None
    }
}

/// What the quote service is asked: the price of one chain's coin.
#[derive(Clone, Copy, Debug, PartialEq, Eq, Structural)]
pub struct PriceQuery {
    pub chain: Chain,
}

impl PriceQuery {
    /// The currency in which prices are asked.
    pub open spec fn spec_currency() -> Seq<char> {
        "usd"@
    }

    /// The currency in which prices are asked.
    pub fn currency() -> (currency: &'static str)
        ensures
            currency@ == PriceQuery::spec_currency(),
    {
        "usd"
    }

    /// The address of the request: the service's price path with the asset
    /// and the currency as its query.
    pub open spec fn spec_url(self) -> Seq<char> {
        "https://api.coingecko.com/api/v3/simple/price?ids="@ + self.chain.spec_asset_id()
            + "&vs_currencies="@ + PriceQuery::spec_currency()
    }

    /// The address of the request.
    pub fn url(&self) -> (url: String)
        ensures
            url@ == self.spec_url(),
    {
        let path = joined(
            "https://api.coingecko.com/api/v3/simple/price?ids=",
            self.chain.asset_id(),
        );
        path.concat("&vs_currencies=").concat(PriceQuery::currency())
    }
}

/// What came back for a price query.
#[derive(Debug)]
pub enum PriceReply {
    /// The service answered with these prices.
    Table(QuoteTable),
    /// The service could not be reached, answered with a failure, or with
    /// something that is no table of prices.
    Failed(String),
}

/// A price reply with its contents as mathematical values.
pub enum PriceReplyView {
    Table(Map<(Seq<char>, Seq<char>), Number>),
    Failed(Seq<char>),
}

impl View for PriceReply {
    type V = PriceReplyView;

    open spec fn view(&self) -> PriceReplyView {
        match self {
            PriceReply::Table(table) => PriceReplyView::Table(table@),
            PriceReply::Failed(message) => PriceReplyView::Failed(message@),
        }
    }
}

/// The message of a quote that is not in the answer.
pub open spec fn spec_not_found_message() -> Seq<char> {
    "Price not found"@
}

/// The price of `chain`'s coin that a reply gives: the price recorded for the
/// chain's asset in the currency asked, a failure where the table has none,
/// and the upstream failure where there is no table.
pub open spec fn spec_read_price(chain: Chain, reply: PriceReplyView) -> Result<
    Number,
    QuoteErrorView,
> {
    match reply {
        PriceReplyView::Table(prices) => {
            let key = (chain.spec_asset_id(), PriceQuery::spec_currency());
            if prices.contains_key(key) {
                Ok(prices[key])
            } else {
                Err(
                    QuoteErrorView {
                        kind: QuoteErrorKind::NotFound,
                        message: spec_not_found_message(),
                    },
                )
            }
        },
        PriceReplyView::Failed(message) => Err(
            QuoteErrorView { kind: QuoteErrorKind::Upstream, message },
        ),
    }
}

/// Reads the price of `chain`'s coin from the reply to its query.
pub fn read_price(chain: Chain, reply: PriceReply) -> (price: Result<Number, QuoteError>)
    ensures
        match price {
            Ok(number) => spec_read_price(chain, reply@) == Ok::<Number, QuoteErrorView>(number),
            Err(error) => spec_read_price(chain, reply@) == Err::<Number, QuoteErrorView>(
                error@,
            ),
        },
{
    match reply {
        PriceReply::Table(table) => match table.price_of(
            chain.asset_id(),
            PriceQuery::currency(),
        ) {
            Some(number) => Ok(number),
            None => Err(QuoteError::new(QuoteErrorKind::NotFound, "Price not found")),
        },
        PriceReply::Failed(message) => Err(
            QuoteError { kind: QuoteErrorKind::Upstream, message },
        ),
    }
}

} // verus!
