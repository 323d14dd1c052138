//! Coins: an amount of one currency.

use vstd::prelude::*;

verus! {

/// What a [`Coin`] stands for: a currency code and an amount of it.
pub struct CoinView {
    pub denom: Seq<char>,
    pub amount: nat,
}

/// An amount of the currency `denom`.
#[derive(Debug, PartialEq, Eq)]
pub struct Coin {
    pub denom: String,
    pub amount: u128,
}

impl View for Coin {
    type V = CoinView;

    open spec fn view(&self) -> CoinView {
        CoinView { denom: self.denom@, amount: self.amount as nat }
    }
}

impl Clone for Coin {
    fn clone(&self) -> (copy: Self)
        ensures
            copy == *self,
    {
        Coin { denom: self.denom.clone(), amount: self.amount }
    }
}

/// What a list of coins stands for, entry by entry.
pub open spec fn coins_view(coins: Seq<Coin>) -> Seq<CoinView> {
    Seq::new(coins.len(), |i: int| coins[i]@)
}

/// A coin of `amount` units of `denom`.
pub fn coin(amount: u128, denom: &str) -> (made: Coin)
    ensures
        made@ == (CoinView { denom: denom@, amount: amount as nat }),
{
    Coin { denom: denom.to_owned(), amount }
}

/// A list of one coin of `amount` units of `denom`.
pub fn coins(amount: u128, denom: &str) -> (made: Vec<Coin>)
    ensures
        coins_view(made@) == seq![CoinView { denom: denom@, amount: amount as nat }],
{
    let made = vec![coin(amount, denom)];
    assert(coins_view(made@) =~= seq![CoinView { denom: denom@, amount: amount as nat }]);
    made
}

/// A copy of a list of coins.
pub fn clone_coins(list: &Vec<Coin>) -> (copy: Vec<Coin>)
    ensures
        copy@ == list@,
{
    let mut copy: Vec<Coin> = Vec::new();
    let mut i: usize = 0;
    while i < list.len()
        invariant
            i <= list.len(),
            copy@ == list@.subrange(0, i as int),
        decreases list.len() - i,
    {
        copy.push(list[i].clone());
        assert(copy@ =~= list@.subrange(0, i + 1));
        i += 1;
    }
    assert(list@.subrange(0, list.len() as int) =~= list@);
    copy
}

} // verus!
