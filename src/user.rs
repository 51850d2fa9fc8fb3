use crate::ids::{AccountId, UserId};
use std::collections::HashSet;
use vstd::prelude::*;

verus! {

broadcast use vstd::std_specs::hash::group_hash_axioms;

/// A user and the accounts that it owns.
pub struct User {
    pub id: UserId,
    pub accounts: HashSet<AccountId>,
}

/// What a user holds, as mathematical values.
pub struct UserModel {
    pub id: UserId,
    pub accounts: Set<AccountId>,
}

impl View for User {
    type V = UserModel;

    open spec fn view(&self) -> UserModel {
        UserModel { id: self.id, accounts: self.accounts@ }
    }
}

impl User {
    /// A user that owns no account yet; its id is given on registration.
    pub fn new() -> (r: User)
        ensures
            r@.accounts == Set::<AccountId>::empty(),
    {
        User { id: 0, accounts: HashSet::new() }
    }

    pub fn with_id(id: UserId) -> (r: User)
        ensures
            r@ == (UserModel { id, accounts: Set::empty() }),
    {
        User { id, accounts: HashSet::new() }
    }

    pub fn owns(&self, account_id: AccountId) -> (r: bool)
        ensures
            r == self@.accounts.contains(account_id),
    {
        self.accounts.contains(&account_id)
    }

    pub fn account_count(&self) -> (r: usize)
        ensures
            r == self@.accounts.len(),
    {
        self.accounts.len()
    }

    /// Records that this user owns `account_id`; recording it twice changes
    /// nothing.
    pub fn add_account(&mut self, account_id: AccountId)
        ensures
            final(self)@ == (UserModel {
                accounts: old(self)@.accounts.insert(account_id),
                ..old(self)@
            }),
    {
        self.accounts.insert(account_id);
    }
}

} // verus!
