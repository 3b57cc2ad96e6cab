//! The currency ledger collaborator, modelled at its interface: one balance
//! per account and an atomic `transfer` that either moves the full amount or
//! reports `InsufficientFunds` and changes nothing.

use std::collections::HashMap;
use vstd::prelude::*;

verus! {

broadcast use vstd::std_specs::hash::group_hash_axioms;

/// Account identifiers of the surrounding runtime.
pub type AccountId = u64;

/// Currency amounts.
pub type Balance = u128;

/// The one failure the currency ledger surfaces: the payer cannot cover the
/// requested amount.
#[derive(Clone, Copy, Debug, PartialEq, Eq, Structural)]
pub enum CurrencyError {
    InsufficientFunds,
}

/// The balance of `who` in the map `m`; an account without an entry holds
/// nothing.
pub open spec fn balance_in(m: Map<AccountId, Balance>, who: AccountId) -> Balance {
    if m.contains_key(who) {
        m[who]
    } else {
        0
    }
}

/// The balance map after moving `amount` from `from` to `to`. A transfer to
/// oneself moves nothing.
pub open spec fn transferred(
    m: Map<AccountId, Balance>,
    from: AccountId,
    to: AccountId,
    amount: Balance,
) -> Map<AccountId, Balance> {
    if from == to {
        m
    } else {
        m.insert(from, (balance_in(m, from) - amount) as Balance).insert(
            to,
            (balance_in(m, to) + amount) as Balance,
        )
    }
}

/// The currency ledger's state: balances by account.
pub struct Balances {
    pub accounts: HashMap<AccountId, Balance>,
}

impl View for Balances {
    type V = Map<AccountId, Balance>;

    open spec fn view(&self) -> Map<AccountId, Balance> {
        self.accounts@
    }
}

impl Balances {
    /// An empty ledger: every account holds nothing.
    pub fn new() -> (b: Balances)
        ensures
            b@ == Map::<AccountId, Balance>::empty(),
    {
        Balances { accounts: HashMap::new() }
    }

    /// Overwrite the balance of `who` with `amount`.
    pub fn set_balance(&mut self, who: AccountId, amount: Balance)
        ensures
            final(self)@ == old(self)@.insert(who, amount),
    {
        self.accounts.insert(who, amount);
    }

    /// The balance currently held by `who`.
    pub fn free_balance(&self, who: AccountId) -> (r: Balance)
        ensures
            r == balance_in(self@, who),
    {
        match self.accounts.get(&who) {
            Some(b) => *b,
            None => 0,
        }
    }

    /// Move `amount` from `from` to `to`, atomically: either the payer is
    /// debited and the payee credited in one step, or nothing changes and the
    /// shortfall is reported.
    pub fn transfer(&mut self, from: AccountId, to: AccountId, amount: Balance) -> (r: Result<
        (),
        CurrencyError,
    >)
        requires
            from != to ==> balance_in(old(self)@, to) + amount <= Balance::MAX,
        ensures
            balance_in(old(self)@, from) < amount ==> r == Err::<(), CurrencyError>(
                CurrencyError::InsufficientFunds,
            ) && final(self)@ == old(self)@,
            balance_in(old(self)@, from) >= amount ==> r == Ok::<(), CurrencyError>(())
                && final(self)@ == transferred(old(self)@, from, to, amount),
    {
        let from_balance = self.free_balance(from);
        if from_balance < amount {
            return Err(CurrencyError::InsufficientFunds);
        }
        if from == to {
            return Ok(());
        }
        let to_balance = self.free_balance(to);
        self.accounts.insert(from, from_balance - amount);
        self.accounts.insert(to, to_balance + amount);
        Ok(())
    }
}

} // verus!
