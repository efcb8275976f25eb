//! Balances in exact arithmetic.
//!
//! A balance is a whole number of base units of one chain. In coins it is
//! that number over the chain's base units per coin: a whole part and a
//! fraction, both exact.

use vstd::prelude::*;
use crate::chain::Chain;

verus! {

/// The balance of one address on one chain.
#[derive(Clone, Copy, Debug, PartialEq, Eq, Structural)]
pub struct NativeBalance {
    pub chain: Chain,
    pub base_units: u128,
}

impl NativeBalance {
    /// The whole coins in the balance.
    pub open spec fn spec_whole_coins(self) -> nat {
        self.base_units as nat / self.chain.spec_base_units_per_coin()
    }

    /// The base units beyond the whole coins.
    pub open spec fn spec_fraction(self) -> nat {
        self.base_units as nat % self.chain.spec_base_units_per_coin()
    }

    /// The balance of `whole` coins and `fraction` base units, if `fraction`
    /// is less than a coin and the sum is a balance.
    pub open spec fn spec_from_parts(chain: Chain, whole: nat, fraction: nat) -> Option<
        NativeBalance,
    > {
        let base_units = whole * chain.spec_base_units_per_coin() + fraction;
        if fraction < chain.spec_base_units_per_coin() && base_units <= u128::MAX {
            Some(NativeBalance { chain, base_units: base_units as u128 })
        } else {
            None
        }
    }

    /// The balance of `base_units` base units on `chain`.
    pub fn from_base_units(chain: Chain, base_units: u128) -> (balance: NativeBalance)
        ensures
            balance == (NativeBalance { chain, base_units }),
    {
        NativeBalance { chain, base_units }
    }

    /// The whole coins in the balance.
    pub fn whole_coins(&self) -> (whole: u128)
        ensures
            whole == self.spec_whole_coins(),
    {
        self.base_units / (self.chain.base_units_per_coin() as u128)
    }

    /// The base units beyond the whole coins.
    pub fn fraction(&self) -> (fraction: u64)
        ensures
            fraction == self.spec_fraction(),
    {
        (self.base_units % (self.chain.base_units_per_coin() as u128)) as u64
    }

    /// The balance of `whole` coins and `fraction` base units. There is none
    /// where `fraction` is a coin or more, or where the sum is too large.
    pub fn from_parts(chain: Chain, whole: u128, fraction: u64) -> (balance: Option<
        NativeBalance,
    >)
        ensures
            balance == NativeBalance::spec_from_parts(chain, whole as nat, fraction as nat),
    {
        let per_coin: u64 = chain.base_units_per_coin();
        if fraction >= per_coin {
            return None;
        }
        match whole.checked_mul(per_coin as u128) {
            Some(product) => match product.checked_add(fraction as u128) {
                Some(base_units) => Some(NativeBalance { chain, base_units }),
                None => None,
            },
            None => None,
        }
    }
}

/// No base units are no coins and no fraction, on every chain.
pub proof fn lemma_nothing_is_zero_coins(chain: Chain)
    ensures
        (NativeBalance { chain, base_units: 0 }).spec_whole_coins() == 0,
        (NativeBalance { chain, base_units: 0 }).spec_fraction() == 0,
{
}

/// The base units of one coin are one whole coin and no fraction: 10^18 wei
/// are one ether, 10^8 satoshis one bitcoin, 10^9 lamports one sol.
pub proof fn lemma_one_coin(chain: Chain)
    ensures
        (NativeBalance {
            chain,
            base_units: chain.spec_base_units_per_coin() as u128,
        }).spec_whole_coins() == 1,
        (NativeBalance {
            chain,
            base_units: chain.spec_base_units_per_coin() as u128,
        }).spec_fraction() == 0,
{
    let per_coin = chain.spec_base_units_per_coin() as int;
    vstd::arithmetic::div_mod::lemma_mod_self_0(per_coin);
    vstd::arithmetic::div_mod::lemma_div_by_self(per_coin);
}

/// Taking a balance apart and putting it together again gives the balance
/// back, exactly.
pub proof fn lemma_parts_round_trip(balance: NativeBalance)
    ensures
        balance.spec_fraction() < balance.chain.spec_base_units_per_coin(),
        balance.spec_whole_coins() * balance.chain.spec_base_units_per_coin()
            + balance.spec_fraction() == balance.base_units,
        NativeBalance::spec_from_parts(
            balance.chain,
            balance.spec_whole_coins(),
            balance.spec_fraction(),
        ) == Some(balance),
{
    let per_coin = balance.chain.spec_base_units_per_coin() as int;
    vstd::arithmetic::div_mod::lemma_fundamental_div_mod(balance.base_units as int, per_coin);
    assert(per_coin * (balance.base_units as int / per_coin) == (balance.base_units as int
        / per_coin) * per_coin) by (nonlinear_arith);
}

/// Putting a balance together and taking it apart again gives the parts back.
pub proof fn lemma_parts_are_recovered(chain: Chain, whole: nat, fraction: nat)
    requires
        NativeBalance::spec_from_parts(chain, whole, fraction) is Some,
    ensures
        NativeBalance::spec_from_parts(chain, whole, fraction)->0.spec_whole_coins() == whole,
        NativeBalance::spec_from_parts(chain, whole, fraction)->0.spec_fraction() == fraction,
{
    let per_coin = chain.spec_base_units_per_coin() as int;
    vstd::arithmetic::div_mod::lemma_fundamental_div_mod_converse(
        whole * per_coin + fraction,
        per_coin,
        whole as int,
        fraction as int,
    );
}

} // verus!
