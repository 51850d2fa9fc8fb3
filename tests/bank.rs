use bank_ledger::account::{Account, AccountCategory};
use bank_ledger::bank::{Bank, BankError, SubscribeEvent};
use bank_ledger::ids::fresh_key;
use bank_ledger::user::User;
use std::collections::HashMap;

fn balance(bank: &Bank, id: u64) -> u64 {
    bank.get_account(id).unwrap().balance()
}

fn missing_account(bank: &Bank) -> u64 {
    let mut id: u64 = 7;
    while bank.get_account(id).is_some() {
        id += 1;
    }
    id
}

#[test]
fn ledger_scenario() {
    let mut bank = Bank::new();
    let u = bank.register_user(User::new());
    let a = bank.create_account(u, AccountCategory::Checking).unwrap();
    assert_eq!(balance(&bank, a), 0);
    assert_eq!(bank.get_account(a).unwrap().category(), AccountCategory::Checking);
    bank.reward_account(a, 100).unwrap();
    assert_eq!(balance(&bank, a), 100);
    let b = bank.create_account(u, AccountCategory::Checking).unwrap();
    assert_ne!(a, b);
    bank.transfer_money(a, b, 40).unwrap();
    assert_eq!(balance(&bank, a), 60);
    assert_eq!(balance(&bank, b), 40);
    assert_eq!(bank.transfer_money(a, b, 1000).unwrap_err(), BankError::LowBalance);
    assert_eq!(balance(&bank, a), 60);
    assert_eq!(balance(&bank, b), 40);
    bank.create_card(a).unwrap();
    let account = bank.get_account(a).unwrap();
    assert_eq!(account.card_count(), 1);
    let card = *account.cards.iter().next().unwrap();
    assert!(bank.has_card(card));
    assert!(account.has_card(card));
}

#[test]
fn transfer_conserves_total() {
    let mut bank = Bank::new();
    let u = bank.register_user(User::new());
    let ids: Vec<u64> = (0..3)
        .map(|_| bank.create_account(u, AccountCategory::Savings).unwrap())
        .collect();
    bank.reward_account(ids[0], 500).unwrap();
    bank.reward_account(ids[1], 250).unwrap();
    let total = |bank: &Bank| ids.iter().map(|&i| balance(bank, i)).sum::<u64>();
    assert_eq!(total(&bank), 750);
    bank.transfer_money(ids[0], ids[2], 125).unwrap();
    bank.transfer_money(ids[1], ids[0], 250).unwrap();
    assert!(bank.transfer_money(ids[2], ids[1], 126).is_err());
    bank.transfer_money(ids[2], ids[2], 125).unwrap();
    assert_eq!(total(&bank), 750);
    assert_eq!(balance(&bank, ids[0]), 625);
    assert_eq!(balance(&bank, ids[1]), 0);
    assert_eq!(balance(&bank, ids[2]), 125);
}

#[test]
fn transfer_missing_accounts() {
    let mut bank = Bank::new();
    let u = bank.register_user(User::new());
    let a = bank.create_account(u, AccountCategory::Checking).unwrap();
    bank.reward_account(a, 10).unwrap();
    let missing = missing_account(&bank);
    assert_eq!(bank.transfer_money(missing, a, 5).unwrap_err(), BankError::AccountNotFound);
    assert_eq!(bank.transfer_money(a, missing, 5).unwrap_err(), BankError::AccountNotFound);
    assert_eq!(balance(&bank, a), 10);
    assert!(bank.get_account(missing).is_none());
}

#[test]
fn other_not_found_guards() {
    let mut bank = Bank::new();
    let u = bank.register_user(User::new());
    let a = bank.create_account(u, AccountCategory::Checking).unwrap();
    let missing = missing_account(&bank);
    assert_eq!(bank.create_card(missing).unwrap_err(), BankError::AccountNotFound);
    assert_eq!(bank.reward_account(missing, 3).unwrap_err(), BankError::AccountNotFound);
    assert_eq!(
        bank.change_account_type(missing, AccountCategory::Savings).unwrap_err(),
        BankError::AccountNotFound
    );
    assert_eq!(balance(&bank, a), 0);
    assert_eq!(bank.get_account(a).unwrap().card_count(), 0);
    assert!(bank.get_account(missing).is_none());
}

#[test]
fn create_account_unknown_user() {
    let mut bank = Bank::new();
    let u = bank.register_user(User::new());
    let stranger = u.wrapping_add(1);
    assert_eq!(
        bank.create_account(stranger, AccountCategory::Checking).unwrap_err(),
        BankError::UserNotFound
    );
    assert_eq!(bank.take_events().len(), 0);
    assert_eq!(bank.get_user(u).unwrap().account_count(), 0);
}

#[test]
fn ownership_is_recorded_both_ways() {
    let mut bank = Bank::default();
    let u = bank.register_user(User::new());
    let v = bank.register_user(User::new());
    assert_ne!(u, v);
    let a = bank.create_account(u, AccountCategory::Checking).unwrap();
    let b = bank.create_account(v, AccountCategory::Savings).unwrap();
    let c = bank.create_account(u, AccountCategory::Savings).unwrap();
    let user = bank.get_user(u).unwrap();
    assert_eq!(user.id, u);
    assert_eq!(user.account_count(), 2);
    assert!(user.owns(a) && user.owns(c) && !user.owns(b));
    assert_eq!(bank.get_account(a).unwrap().owner(), u);
    assert_eq!(bank.get_account(b).unwrap().owner(), v);
    assert_eq!(bank.get_account(c).unwrap().id, c);
}

#[test]
fn registration_starts_with_no_accounts() {
    let mut bank = Bank::new();
    let mut user = User::new();
    user.add_account(42);
    let u = bank.register_user(user);
    assert_eq!(bank.get_user(u).unwrap().account_count(), 0);
    assert!(!bank.get_user(u).unwrap().owns(42));
}

#[test]
fn change_category_any_direction() {
    let mut bank = Bank::new();
    let u = bank.register_user(User::new());
    let a = bank.create_account(u, AccountCategory::Savings).unwrap();
    bank.reward_account(a, 9).unwrap();
    bank.change_account_type(a, AccountCategory::Checking).unwrap();
    assert_eq!(bank.get_account(a).unwrap().category(), AccountCategory::Checking);
    bank.change_account_type(a, AccountCategory::Checking).unwrap();
    bank.change_account_type(a, AccountCategory::Savings).unwrap();
    assert_eq!(bank.get_account(a).unwrap().category(), AccountCategory::Savings);
    assert_eq!(balance(&bank, a), 9);
}

#[test]
fn reward_overflow_is_refused() {
    let mut bank = Bank::new();
    let u = bank.register_user(User::new());
    let a = bank.create_account(u, AccountCategory::Checking).unwrap();
    bank.reward_account(a, u64::MAX - 1).unwrap();
    assert_eq!(bank.reward_account(a, 2).unwrap_err(), BankError::BalanceOverflow);
    assert_eq!(balance(&bank, a), u64::MAX - 1);
    bank.reward_account(a, 1).unwrap();
    assert_eq!(balance(&bank, a), u64::MAX);
}

#[test]
fn transfer_overflow_leaves_both_accounts() {
    let mut bank = Bank::new();
    let u = bank.register_user(User::new());
    let a = bank.create_account(u, AccountCategory::Checking).unwrap();
    let b = bank.create_account(u, AccountCategory::Checking).unwrap();
    bank.reward_account(a, 10).unwrap();
    bank.reward_account(b, u64::MAX - 5).unwrap();
    assert_eq!(bank.transfer_money(a, b, 6).unwrap_err(), BankError::BalanceOverflow);
    assert_eq!(balance(&bank, a), 10);
    assert_eq!(balance(&bank, b), u64::MAX - 5);
    bank.transfer_money(a, b, 5).unwrap();
    assert_eq!(balance(&bank, a), 5);
    assert_eq!(balance(&bank, b), u64::MAX);
}

#[test]
fn transfer_exact_balance_and_zero() {
    let mut bank = Bank::new();
    let u = bank.register_user(User::new());
    let a = bank.create_account(u, AccountCategory::Checking).unwrap();
    let b = bank.create_account(u, AccountCategory::Checking).unwrap();
    bank.transfer_money(a, b, 0).unwrap();
    bank.reward_account(a, 30).unwrap();
    bank.transfer_money(a, b, 30).unwrap();
    assert_eq!(balance(&bank, a), 0);
    assert_eq!(balance(&bank, b), 30);
    assert_eq!(bank.transfer_money(a, a, 1).unwrap_err(), BankError::LowBalance);
}

#[test]
fn account_balance_operations() {
    let mut account = Account::new(1, 2, AccountCategory::Checking);
    assert_eq!(account.decrease_balance(1).unwrap_err(), BankError::LowBalance);
    assert_eq!(account.balance(), 0);
    account.increase_balance(70).unwrap();
    account.decrease_balance(20).unwrap();
    assert_eq!(account.balance(), 50);
    assert_eq!(account.decrease_balance(51).unwrap_err(), BankError::LowBalance);
    assert_eq!(account.balance(), 50);
    account.increase_balance(u64::MAX - 50).unwrap();
    assert_eq!(account.increase_balance(1).unwrap_err(), BankError::BalanceOverflow);
    assert_eq!(account.balance(), u64::MAX);
}

#[test]
fn register_card_is_idempotent() {
    let mut account = Account::new(1, 2, AccountCategory::Savings);
    account.register_card(9);
    account.register_card(9);
    account.register_card(4);
    assert_eq!(account.card_count(), 2);
    assert!(account.has_card(9) && account.has_card(4) && !account.has_card(5));
}

#[test]
fn add_account_is_idempotent() {
    let mut user = User::with_id(3);
    user.add_account(8);
    user.add_account(8);
    assert_eq!(user.account_count(), 1);
    assert!(user.owns(8));
    assert_eq!(user.id, 3);
}

#[test]
fn cards_are_distinct_and_on_file() {
    let mut bank = Bank::new();
    let u = bank.register_user(User::new());
    let a = bank.create_account(u, AccountCategory::Checking).unwrap();
    let b = bank.create_account(u, AccountCategory::Checking).unwrap();
    bank.create_card(a).unwrap();
    bank.create_card(a).unwrap();
    bank.create_card(b).unwrap();
    assert_eq!(bank.get_account(a).unwrap().card_count(), 2);
    assert_eq!(bank.get_account(b).unwrap().card_count(), 1);
    for id in [a, b] {
        for card in bank.get_account(id).unwrap().cards.iter() {
            assert!(bank.has_card(*card));
        }
    }
}

#[test]
fn create_account_queues_event() {
    let mut bank = Bank::new();
    let u = bank.register_user(User::new());
    let a = bank.create_account(u, AccountCategory::Savings).unwrap();
    let b = bank.create_account(u, AccountCategory::Checking).unwrap();
    let events = bank.take_events();
    assert_eq!(events.len(), 2);
    assert_eq!(events[0].kind, SubscribeEvent::CreateAccount);
    assert_eq!(events[0].account_id, a);
    assert_eq!(events[0].owner, u);
    assert_eq!(events[0].balance, 0);
    assert_eq!(events[0].category, AccountCategory::Savings);
    assert_eq!(events[1].account_id, b);
    assert!(bank.take_events().is_empty());
}

#[test]
fn fresh_key_free_seed() {
    let mut m: HashMap<u64, ()> = HashMap::new();
    assert_eq!(fresh_key(&m, 5), 5);
    m.insert(6, ());
    assert_eq!(fresh_key(&m, 5), 5);
}

#[test]
fn fresh_key_probes_upward() {
    let mut m: HashMap<u64, ()> = HashMap::new();
    m.insert(5, ());
    m.insert(6, ());
    m.insert(8, ());
    assert_eq!(fresh_key(&m, 5), 7);
}

#[test]
fn fresh_key_wraps_at_max() {
    let mut m: HashMap<u64, ()> = HashMap::new();
    m.insert(u64::MAX, ());
    m.insert(0, ());
    assert_eq!(fresh_key(&m, u64::MAX), 1);
}
