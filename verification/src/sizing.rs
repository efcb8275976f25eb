//! Position sizing: which trade requests are accepted, and which report the
//! accepted ones get.
//!
//! A request is held to six checks in a fixed order, and the first that fails
//! decides the answer. The figures of an accepted request are quotients and
//! products of the request's numbers; the caller computes them.

use vstd::prelude::*;
use crate::number::Number;

verus! {

/// The parameters of one trade.
#[derive(Clone, Copy, Debug, PartialEq, Eq, Structural)]
pub struct TradeRequest {
    pub account_size: Number,
    pub risk_dollars: Number,
    pub entry_price: Number,
    pub stop_loss: Number,
    pub target_price: Option<Number>,
}

/// Why a trade request is refused.
#[derive(Clone, Copy, Debug, PartialEq, Eq, Structural)]
pub enum Rejection {
    /// The account size is not greater than zero.
    AccountSize,
    /// The amount at risk is not greater than zero.
    RiskAmount,
    /// The entry price is not greater than zero.
    EntryPrice,
    /// The stop loss is not greater than zero.
    StopLoss,
    /// The amount at risk is greater than the account size.
    RiskExceedsAccount,
    /// Entry price and stop loss leave no risk per share.
    NoRiskPerShare,
}

/// How an accepted request reports its ratio of reward to risk.
#[derive(Clone, Copy, Debug, PartialEq, Eq, Structural)]
pub enum RatioReport {
    /// As `1:` followed by reward over risk per share, to two decimals.
    Computed,
    /// As the fixed text of [`unavailable_ratio_text`].
    Unavailable,
}

/// The status of every refusal: the request is at fault.
pub const REJECTION_STATUS: u16 = 400;

impl TradeRequest {
    /// The first check that the request fails, if it fails any.
    pub open spec fn spec_rejection(self) -> Option<Rejection> {
        if !self.account_size@.is_positive() {
            Some(Rejection::AccountSize)
        } else if !self.risk_dollars@.is_positive() {
            Some(Rejection::RiskAmount)
        } else if !self.entry_price@.is_positive() {
            Some(Rejection::EntryPrice)
        } else if !self.stop_loss@.is_positive() {
            Some(Rejection::StopLoss)
        } else if self.risk_dollars@.exceeds(self.account_size@) {
            Some(Rejection::RiskExceedsAccount)
        } else if self.entry_price@.cancels(self.stop_loss@) {
            Some(Rejection::NoRiskPerShare)
        } else {
            None
        }
    }

    /// The ratio is computed when a target price is given and positive.
    pub open spec fn spec_ratio_report(self) -> RatioReport {
        match self.target_price {
            Some(target) => if target@.is_positive() {
                RatioReport::Computed
            } else {
                RatioReport::Unavailable
            },
            None => RatioReport::Unavailable,
        }
    }

    /// What a valid request gets, or the first check that the request fails.
    pub open spec fn spec_validate(self) -> Result<RatioReport, Rejection> {
        match self.spec_rejection() {
            Some(rejection) => Err(rejection),
            None => Ok(self.spec_ratio_report()),
        }
    }

    /// Holds the request to the six checks, in order: account size, amount at
    /// risk, entry price and stop loss each greater than zero; the amount at
    /// risk no greater than the account size; entry price and stop loss not
    /// cancelling each other. The first failing check is the answer. A
    /// request that passes them all is told how to report its ratio.
    pub fn validate(&self) -> (outcome: Result<RatioReport, Rejection>)
        ensures
            outcome == self.spec_validate(),
    {
        if !self.account_size.is_positive() {
            return Err(Rejection::AccountSize);
        }
        if !self.risk_dollars.is_positive() {
            return Err(Rejection::RiskAmount);
        }
        if !self.entry_price.is_positive() {
            return Err(Rejection::EntryPrice);
        }
        if !self.stop_loss.is_positive() {
            return Err(Rejection::StopLoss);
        }
        if self.risk_dollars.exceeds(self.account_size) {
            return Err(Rejection::RiskExceedsAccount);
        }
        if self.entry_price.cancels(self.stop_loss) {
            return Err(Rejection::NoRiskPerShare);
        }
        match self.target_price {
            Some(target) => {
                if target.is_positive() {
                    Ok(RatioReport::Computed)
                } else {
                    Ok(RatioReport::Unavailable)
                }
            },
            None => Ok(RatioReport::Unavailable),
        }
    }
}

impl Rejection {
    /// The message of the refusal.
    pub open spec fn spec_message(self) -> Seq<char> {
        match self {
            Rejection::AccountSize => "Account size must be positive"@,
            Rejection::RiskAmount => "Risk amount must be positive"@,
            Rejection::EntryPrice => "Entry price must be positive"@,
            Rejection::StopLoss => "Stop loss must be positive"@,
            Rejection::RiskExceedsAccount => "Risk amount cannot exceed account size"@,
            Rejection::NoRiskPerShare => "Entry and stop loss prices are too close"@,
        }
    }

    /// The plain-text message that the refusal is answered with.
    pub fn message(self) -> (message: &'static str)
        ensures
            message@ == self.spec_message(),
    {
        match self {
            Rejection::AccountSize => "Account size must be positive",
            Rejection::RiskAmount => "Risk amount must be positive",
            Rejection::EntryPrice => "Entry price must be positive",
            Rejection::StopLoss => "Stop loss must be positive",
            Rejection::RiskExceedsAccount => "Risk amount cannot exceed account size",
            Rejection::NoRiskPerShare => "Entry and stop loss prices are too close",
        }
    }

    /// The status that the refusal is answered with.
    pub fn status(self) -> (status: u16)
        ensures
            status == REJECTION_STATUS,
    {
        REJECTION_STATUS
    }
}

/// The text that stands for the ratio where none is computed.
pub fn unavailable_ratio_text() -> (text: &'static str)
    ensures
        text@ == "N/A"@,
{
    "N/A"
}

/// A request whose entry price and stop loss are the same finite value is
/// refused, whatever its other fields hold.
pub proof fn lemma_equal_prices_are_refused(request: TradeRequest)
    requires
        request.entry_price@ is Finite,
        request.entry_price@ == request.stop_loss@,
    ensures
        request.spec_validate() is Err,
{
}

/// A request that risks more than the account holds is refused, whatever its
/// other fields hold.
pub proof fn lemma_excess_risk_is_refused(request: TradeRequest)
    requires
        request.risk_dollars@.exceeds(request.account_size@),
    ensures
        request.spec_validate() is Err,
{
}

/// An accepted request has a risk per share: where its entry price and stop
/// loss are finite, they differ, so that the amount at risk is never divided
/// by zero.
pub proof fn lemma_accepted_requests_have_risk(request: TradeRequest)
    requires
        request.spec_validate() is Ok,
        request.entry_price@ is Finite,
        request.stop_loss@ is Finite,
    ensures
        request.entry_price@->units != request.stop_loss@->units,
        request.entry_price@->units > 0,
        request.stop_loss@->units > 0,
{
}

/// A request is accepted exactly when it passes each of the six checks.
pub proof fn lemma_accepted_requests(request: TradeRequest)
    ensures
        request.spec_validate() is Ok <==> {
            &&& request.account_size@.is_positive()
            &&& request.risk_dollars@.is_positive()
            &&& request.entry_price@.is_positive()
            &&& request.stop_loss@.is_positive()
            &&& !request.risk_dollars@.exceeds(request.account_size@)
            &&& !request.entry_price@.cancels(request.stop_loss@)
        },
{
}

} // verus!
