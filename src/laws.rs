use crate::account::{with_balance, AccountModel};
use crate::bank::{transfer_result, transferred, Bank};
use crate::ids::{AccountId, CardId, UserId};
use vstd::prelude::*;

verus! {

/// The sum of the balances of the accounts in `keys`.
pub open spec fn balance_sum(accounts: Map<AccountId, AccountModel>, keys: Set<AccountId>) -> int
    decreases keys.len(),
{
    if keys.finite() && keys.len() > 0 {
        let k = keys.choose();
        accounts[k].balance + balance_sum(accounts, keys.remove(k))
    } else {
        0
    }
}

/// The money held by all accounts together.
pub open spec fn total_balance(accounts: Map<AccountId, AccountModel>) -> int {
    balance_sum(accounts, accounts.dom())
}

/// The accounts after each transfer of `ops` in turn, where one that fails
/// leaves them as they were.
pub open spec fn after_transfers(
    accounts: Map<AccountId, AccountModel>,
    ops: Seq<(AccountId, AccountId, u64)>,
) -> Map<AccountId, AccountModel>
    decreases ops.len(),
{
    if ops.len() == 0 {
        accounts
    } else {
        let prev = after_transfers(accounts, ops.drop_last());
        let (from, to, amount) = ops.last();
        if transfer_result(prev, from, to, amount) is Ok {
            transferred(prev, from, to, amount)
        } else {
            prev
        }
    }
}

/// Replacing the record of account `id` moves the sum over `keys` by the
/// change in that account's balance, when `keys` holds `id`.
pub proof fn lemma_balance_sum_update(
    accounts: Map<AccountId, AccountModel>,
    keys: Set<AccountId>,
    id: AccountId,
    a: AccountModel,
)
    requires
        keys.finite(),
    ensures
        balance_sum(accounts.insert(id, a), keys) == balance_sum(accounts, keys) + if keys.contains(
            id,
        ) {
            a.balance - accounts[id].balance
        } else {
            0
        },
    decreases keys.len(),
{
    if keys.len() > 0 {
        let k = keys.choose();
        lemma_balance_sum_update(accounts, keys.remove(k), id, a);
    } else if keys.contains(id) {
        assert(keys.remove(id).len() + 1 == keys.len());
    }
}

/// A transfer that succeeds leaves the total of all balances as it was.
pub proof fn lemma_transfer_conserves_total(
    accounts: Map<AccountId, AccountModel>,
    from: AccountId,
    to: AccountId,
    amount: u64,
)
    requires
        accounts.dom().finite(),
        transfer_result(accounts, from, to, amount) is Ok,
    ensures
        total_balance(transferred(accounts, from, to, amount)) == total_balance(accounts),
        transferred(accounts, from, to, amount).dom() == accounts.dom(),
{
    if from != to {
        let debited = with_balance(accounts[from], (accounts[from].balance - amount) as u64);
        let credited = with_balance(accounts[to], (accounts[to].balance + amount) as u64);
        let m1 = accounts.insert(from, debited);
        assert(m1.dom() =~= accounts.dom());
        lemma_balance_sum_update(accounts, accounts.dom(), from, debited);
        lemma_balance_sum_update(m1, m1.dom(), to, credited);
        assert(m1.insert(to, credited).dom() =~= accounts.dom());
    }
}

/// Any sequence of transfers, each applied when it succeeds and ignored when
/// it fails, leaves the total of all balances as it was.
pub proof fn lemma_transfers_conserve_total(
    accounts: Map<AccountId, AccountModel>,
    ops: Seq<(AccountId, AccountId, u64)>,
)
    requires
        accounts.dom().finite(),
    ensures
        total_balance(after_transfers(accounts, ops)) == total_balance(accounts),
        after_transfers(accounts, ops).dom() == accounts.dom(),
    decreases ops.len(),
{
    if ops.len() > 0 {
        let prev = after_transfers(accounts, ops.drop_last());
        lemma_transfers_conserve_total(accounts, ops.drop_last());
        let (from, to, amount) = ops.last();
        if transfer_result(prev, from, to, amount) is Ok {
            lemma_transfer_conserves_total(prev, from, to, amount);
        }
    }
}

/// Every account that a user lists exists in the ledger and names that user
/// as its owner.
pub proof fn lemma_ownership_integrity(bank: &Bank, user_id: UserId, account_id: AccountId)
    requires
        bank.wf(),
        bank@.users.contains_key(user_id),
        bank@.users[user_id].accounts.contains(account_id),
    ensures
        bank@.accounts.contains_key(account_id),
        bank@.accounts[account_id].owner == user_id,
{
}

/// Every card that an account lists is on file in the ledger.
pub proof fn lemma_cards_on_file(bank: &Bank, account_id: AccountId, card_id: CardId)
    requires
        bank.wf(),
        bank@.accounts.contains_key(account_id),
        bank@.accounts[account_id].cards.contains(card_id),
    ensures
        bank@.cards.contains_key(card_id),
        bank@.cards[card_id].id == card_id,
{
}

} // verus!
