//! Amounts of a Cosmos denomination.

use crate::amount::Amount;
use vstd::prelude::*;

verus! {

/// An amount of one denomination.
#[derive(Clone, Debug, PartialEq, Eq)]
pub struct Coin {
    pub denom: String,
    pub amount: Amount,
}

/// What a `Coin` holds.
pub struct CoinView {
    pub denom: Seq<char>,
    pub amount: Amount,
}

impl View for Coin {
    type V = CoinView;

    open spec fn view(&self) -> CoinView {
        CoinView { denom: self.denom@, amount: self.amount }
    }
}

impl Coin {
    /// A coin of the same denomination and amount.
    pub fn duplicate(&self) -> (coin: Coin)
        ensures
            coin@ == self@,
    {
        Coin { denom: self.denom.clone(), amount: self.amount }
    }
}

/// What each coin of a list holds.
pub open spec fn coin_views(coins: Seq<Coin>) -> Seq<CoinView> {
    coins.map_values(|c: Coin| c@)
}

} // verus!
