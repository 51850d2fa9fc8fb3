use crate::bank::BankError;
use crate::ids::{AccountId, CardId, UserId};
use std::collections::HashSet;
use vstd::prelude::*;

verus! {

broadcast use vstd::std_specs::hash::group_hash_axioms;

/// The kind of an account. It is stored and may be changed; nothing else
/// depends on it.
#[derive(Clone, Copy, Debug, PartialEq, Eq, Structural)]
pub enum AccountCategory {
    Checking,
    Savings,
}

/// A payment card attached to one account.
pub struct Card {
    pub id: CardId,
}

impl Card {
    pub fn new(id: CardId) -> (r: Card)
        ensures
            r.id == id,
    {
        Card { id }
    }
}

/// An account: its owner, its balance, its category and the cards attached
/// to it.
pub struct Account {
    pub id: AccountId,
    pub owner: UserId,
    pub balance: u64,
    pub category: AccountCategory,
    pub cards: HashSet<CardId>,
}

/// What an account holds, as mathematical values.
pub struct AccountModel {
    pub id: AccountId,
    pub owner: UserId,
    pub balance: u64,
    pub category: AccountCategory,
    pub cards: Set<CardId>,
}

impl View for Account {
    type V = AccountModel;

    open spec fn view(&self) -> AccountModel {
        AccountModel {
            id: self.id,
            owner: self.owner,
            balance: self.balance,
            category: self.category,
            cards: self.cards@,
        }
    }
}

/// The account that `a` becomes once its balance is `balance`.
pub open spec fn with_balance(a: AccountModel, balance: u64) -> AccountModel {
    AccountModel { balance, ..a }
}

impl Account {
    /// A new account of `owner`, with a zero balance and no cards.
    pub fn new(id: AccountId, owner: UserId, category: AccountCategory) -> (r: Account)
        ensures
            r@ == (AccountModel { id, owner, balance: 0, category, cards: Set::empty() }),
    {
        Account { id, owner, balance: 0, category, cards: HashSet::new() }
    }

    pub fn balance(&self) -> (r: u64)
        ensures
            r == self@.balance,
    {
        self.balance
    }

    pub fn owner(&self) -> (r: UserId)
        ensures
            r == self@.owner,
    {
        self.owner
    }

    pub fn category(&self) -> (r: AccountCategory)
        ensures
            r == self@.category,
    {
        self.category
    }

    pub fn has_card(&self, card_id: CardId) -> (r: bool)
        ensures
            r == self@.cards.contains(card_id),
    {
        self.cards.contains(&card_id)
    }

    pub fn card_count(&self) -> (r: usize)
        ensures
            r == self@.cards.len(),
    {
        self.cards.len()
    }

    /// Adds `amount` to the balance. A sum past `u64::MAX` is refused with
    /// `BalanceOverflow` and leaves the account as it was.
    pub fn increase_balance(&mut self, amount: u64) -> (r: Result<(), BankError>)
        ensures
            old(self)@.balance + amount <= u64::MAX ==> r is Ok && final(self)@ == with_balance(
                old(self)@,
                (old(self)@.balance + amount) as u64,
            ),
            old(self)@.balance + amount > u64::MAX ==> r == Err::<(), BankError>(
                BankError::BalanceOverflow,
            ) && final(self)@ == old(self)@,
    {
        match self.balance.checked_add(amount) {
            Some(b) => {
                self.balance = b;
                Ok(())
            },
            None => Err(BankError::BalanceOverflow),
        }
    }

    /// Takes `amount` from the balance. An amount above the balance is
    /// refused with `LowBalance` and leaves the account as it was.
    pub fn decrease_balance(&mut self, amount: u64) -> (r: Result<(), BankError>)
        ensures
            amount <= old(self)@.balance ==> r is Ok && final(self)@ == with_balance(
                old(self)@,
                (old(self)@.balance - amount) as u64,
            ),
            amount > old(self)@.balance ==> r == Err::<(), BankError>(BankError::LowBalance)
                && final(self)@ == old(self)@,
    {
        if amount > self.balance {
            Err(BankError::LowBalance)
        } else {
            self.balance = self.balance - amount;
            Ok(())
        }
    }

    /// Attaches a card; attaching one that is already there changes nothing.
    pub fn register_card(&mut self, card_id: CardId)
        ensures
            final(self)@ == (AccountModel { cards: old(self)@.cards.insert(card_id), ..old(self)@ }),
    {
        self.cards.insert(card_id);
    }
}

} // verus!
