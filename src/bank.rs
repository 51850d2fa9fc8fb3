use crate::account::{with_balance, Account, AccountCategory, AccountModel, Card};
use crate::ids::{random_fresh_key, AccountId, CardId, UserId};
use crate::user::{User, UserModel};
use std::collections::HashMap;
use vstd::prelude::*;

verus! {

broadcast use vstd::std_specs::hash::group_hash_axioms;

/// Why a ledger operation was refused.
#[derive(Clone, Copy, Debug, PartialEq, Eq, Structural)]
pub enum BankError {
    LowBalance,
    AccountNotFound,
    UserNotFound,
    BalanceOverflow,
}

/// The kinds of event that the ledger reports.
#[derive(Clone, Copy, Debug, PartialEq, Eq, Structural)]
pub enum SubscribeEvent {
    CreateAccount,
}

/// An event with a snapshot of the account it concerns.
#[derive(Clone, Copy, Debug, PartialEq, Eq, Structural)]
pub struct BankEvent {
    pub kind: SubscribeEvent,
    pub account_id: AccountId,
    pub owner: UserId,
    pub balance: u64,
    pub category: AccountCategory,
}

/// Events waiting to be handed to whoever listens.
pub struct Publisher {
    pending: Vec<BankEvent>,
}

impl View for Publisher {
    type V = Seq<BankEvent>;

    closed spec fn view(&self) -> Seq<BankEvent> {
        self.pending@
    }
}

impl Publisher {
    pub fn new() -> (r: Publisher)
        ensures
            r@ == Seq::<BankEvent>::empty(),
    {
        Publisher { pending: Vec::new() }
    }

    /// Queues `event` behind those already waiting.
    pub fn notify(&mut self, event: BankEvent)
        ensures
            final(self)@ == old(self)@.push(event),
    {
        self.pending.push(event);
    }

    /// Hands out the waiting events, oldest first, and leaves none.
    pub fn take(&mut self) -> (r: Vec<BankEvent>)
        ensures
            r@ == old(self)@,
            final(self)@ == Seq::<BankEvent>::empty(),
    {
        let mut out: Vec<BankEvent> = Vec::new();
        std::mem::swap(&mut self.pending, &mut out);
        out
    }
}

/// The ledger: every account, user and card, keyed by id.
pub struct Bank {
    accounts: HashMap<AccountId, Account>,
    users: HashMap<UserId, User>,
    cards: HashMap<CardId, Card>,
    publisher: Publisher,
}

/// What the ledger holds, as mathematical values.
pub struct BankModel {
    pub accounts: Map<AccountId, AccountModel>,
    pub users: Map<UserId, UserModel>,
    pub cards: Map<CardId, Card>,
    pub events: Seq<BankEvent>,
}

impl View for Bank {
    type V = BankModel;

    closed spec fn view(&self) -> BankModel {
        BankModel {
            accounts: self.accounts@.map_values(|a: Account| a@),
            users: self.users@.map_values(|u: User| u@),
            cards: self.cards@,
            events: self.publisher@,
        }
    }
}

/// The ledger's invariant: each entity is filed under its own id; an account
/// and its owner refer to each other; every card an account lists exists.
pub open spec fn ledger_wf(m: BankModel) -> bool {
    &&& m.accounts.dom().finite()
    &&& forall|a: AccountId| #[trigger]
        m.accounts.contains_key(a) ==> {
            &&& m.accounts[a].id == a
            &&& m.users.contains_key(m.accounts[a].owner)
            &&& m.users[m.accounts[a].owner].accounts.contains(a)
        }
    &&& forall|u: UserId| #[trigger] m.users.contains_key(u) ==> m.users[u].id == u
    &&& forall|u: UserId, a: AccountId|
        m.users.contains_key(u) && #[trigger] m.users[u].accounts.contains(a)
            ==> m.accounts.contains_key(a) && m.accounts[a].owner == u
    &&& forall|a: AccountId, c: CardId|
        m.accounts.contains_key(a) && #[trigger] m.accounts[a].cards.contains(c)
            ==> m.cards.contains_key(c)
    &&& forall|c: CardId| #[trigger] m.cards.contains_key(c) ==> m.cards[c].id == c
}

/// The outcome of moving `amount` from `from` to `to`.
pub open spec fn transfer_result(
    accounts: Map<AccountId, AccountModel>,
    from: AccountId,
    to: AccountId,
    amount: u64,
) -> Result<(), BankError> {
    if !accounts.contains_key(from) || !accounts.contains_key(to) {
        Err(BankError::AccountNotFound)
    } else if accounts[from].balance < amount {
        Err(BankError::LowBalance)
    } else if from != to && accounts[to].balance + amount > u64::MAX {
        Err(BankError::BalanceOverflow)
    } else {
        Ok(())
    }
}

/// The accounts once `amount` has left `from` and reached `to`.
pub open spec fn transferred(
    accounts: Map<AccountId, AccountModel>,
    from: AccountId,
    to: AccountId,
    amount: u64,
) -> Map<AccountId, AccountModel> {
    if from == to {
        accounts
    } else {
        accounts.insert(
            from,
            with_balance(accounts[from], (accounts[from].balance - amount) as u64),
        ).insert(to, with_balance(accounts[to], (accounts[to].balance + amount) as u64))
    }
}

impl Bank {
    pub open spec fn wf(&self) -> bool {
        ledger_wf(self@)
    }

    /// An empty ledger.
    pub fn new() -> (r: Bank)
        ensures
            r.wf(),
            r@.accounts == Map::<AccountId, AccountModel>::empty(),
            r@.users == Map::<UserId, UserModel>::empty(),
            r@.cards == Map::<CardId, Card>::empty(),
            r@.events == Seq::<BankEvent>::empty(),
    {
        let b = Bank {
            accounts: HashMap::new(),
            users: HashMap::new(),
            cards: HashMap::new(),
            publisher: Publisher::new(),
        };
        assert(b@.accounts =~= Map::empty());
        assert(b@.users =~= Map::empty());
        b
    }

    /// Takes account `id` out of the table, which must hold it.
    fn take_account(&mut self, id: AccountId) -> (r: Account)
        requires
            old(self)@.accounts.contains_key(id),
        ensures
            r@ == old(self)@.accounts[id],
            final(self)@ == (BankModel { accounts: old(self)@.accounts.remove(id), ..old(self)@ }),
    {
        let taken = self.accounts.remove(&id);
        assert(self@.accounts =~= old(self)@.accounts.remove(id));
        match taken {
            Some(a) => a,
            None => {
                assert(false);
                Account::new(id, 0, AccountCategory::Checking)
            },
        }
    }

    /// Files `a` under `id`.
    fn put_account(&mut self, id: AccountId, a: Account)
        ensures
            final(self)@ == (BankModel { accounts: old(self)@.accounts.insert(id, a@), ..old(self)@ }),
    {
        self.accounts.insert(id, a);
        assert(self@.accounts =~= old(self)@.accounts.insert(id, a@));
    }

    /// Moves `amount` from `from_account_id` to `to_account_id`. Both accounts
    /// must exist, `from` must hold at least `amount`, and `to` must have room
    /// for it; otherwise the ledger is left as it was. A transfer from an
    /// account to itself changes nothing.
    pub fn transfer_money(
        &mut self,
        from_account_id: AccountId,
        to_account_id: AccountId,
        amount: u64,
    ) -> (r: Result<(), BankError>)
        requires
            old(self).wf(),
        ensures
            final(self).wf(),
            r == transfer_result(old(self)@.accounts, from_account_id, to_account_id, amount),
            r is Ok ==> final(self)@ == (BankModel {
                accounts: transferred(old(self)@.accounts, from_account_id, to_account_id, amount),
                ..old(self)@
            }),
            r is Err ==> final(self)@ == old(self)@,
    {
        let from_balance: u64 = match self.accounts.get(&from_account_id) {
            Some(a) => a.balance,
            None => {
                return Err(BankError::AccountNotFound);
            },
        };
        let to_balance: u64 = match self.accounts.get(&to_account_id) {
            Some(a) => a.balance,
            None => {
                return Err(BankError::AccountNotFound);
            },
        };
        if from_balance < amount {
            return Err(BankError::LowBalance);
        }
        if from_account_id == to_account_id {
            return Ok(());
        }
        if to_balance > u64::MAX - amount {
            return Err(BankError::BalanceOverflow);
        }
        let mut from = self.take_account(from_account_id);
        let debited = from.decrease_balance(amount);
        self.put_account(from_account_id, from);
        let mut to = self.take_account(to_account_id);
        let credited = to.increase_balance(amount);
        self.put_account(to_account_id, to);
        assert(self@.accounts =~= transferred(
            old(self)@.accounts,
            from_account_id,
            to_account_id,
            amount,
        ));
        // Both steps were checked above, so neither can fail here.
        match (debited, credited) {
            (Ok(()), Ok(())) => Ok(()),
            _ => {
                assert(false);
                Err(BankError::BalanceOverflow)
            },
        }
    }

    /// Registers a user under a fresh id and returns that id. The user starts
    /// out owning no accounts: an account id is recorded only by
    /// `create_account`.
    pub fn register_user(&mut self, user: User) -> (r: UserId)
        requires
            old(self).wf(),
        ensures
            final(self).wf(),
            !old(self)@.users.contains_key(r),
            final(self)@ == (BankModel {
                users: old(self)@.users.insert(r, UserModel { id: r, accounts: Set::empty() }),
                ..old(self)@
            }),
    {
        let user_id = random_fresh_key(&self.users);
        let mut registered = user;
        registered.id = user_id;
        registered.accounts = std::collections::HashSet::new();
        self.users.insert(user_id, registered);
        assert(self@.users =~= old(self)@.users.insert(
            user_id,
            UserModel { id: user_id, accounts: Set::empty() },
        ));
        user_id
    }

    /// Opens a zero-balance account of `category` for `owner_id` under a fresh
    /// id, records it with its owner, queues a `CreateAccount` event, and
    /// returns the id. Fails with `UserNotFound`, changing nothing, when no
    /// such user is registered.
    pub fn create_account(&mut self, owner_id: UserId, category: AccountCategory) -> (r: Result<
        AccountId,
        BankError,
    >)
        requires
            old(self).wf(),
        ensures
            final(self).wf(),
            !old(self)@.users.contains_key(owner_id) ==> r == Err::<AccountId, BankError>(
                BankError::UserNotFound,
            ) && final(self)@ == old(self)@,
            old(self)@.users.contains_key(owner_id) ==> r is Ok,
            r matches Ok(id) ==> {
                &&& !old(self)@.accounts.contains_key(id)
                &&& final(self)@ == opened(old(self)@, id, owner_id, category)
            },
    {
        let mut owner = match self.users.remove(&owner_id) {
            Some(u) => u,
            None => {
                assert(self@.users =~= old(self)@.users);
                return Err(BankError::UserNotFound);
            },
        };
        let account_id = random_fresh_key(&self.accounts);
        let account = Account::new(account_id, owner_id, category);
        let event = BankEvent {
            kind: SubscribeEvent::CreateAccount,
            account_id,
            owner: owner_id,
            balance: account.balance,
            category: account.category,
        };
        self.accounts.insert(account_id, account);
        owner.add_account(account_id);
        self.users.insert(owner_id, owner);
        self.publisher.notify(event);
        assert(self@.accounts =~= opened(old(self)@, account_id, owner_id, category).accounts);
        assert(self@.users =~= opened(old(self)@, account_id, owner_id, category).users);
        Ok(account_id)
    }

    /// Issues a card under a fresh id and attaches it to `account_id`. Fails
    /// with `AccountNotFound`, changing nothing, when there is no such account.
    pub fn create_card(&mut self, account_id: AccountId) -> (r: Result<(), BankError>)
        requires
            old(self).wf(),
        ensures
            final(self).wf(),
            !old(self)@.accounts.contains_key(account_id) ==> r == Err::<(), BankError>(
                BankError::AccountNotFound,
            ) && final(self)@ == old(self)@,
            old(self)@.accounts.contains_key(account_id) ==> r is Ok && exists|c: CardId|
                !old(self)@.cards.contains_key(c) && final(self)@ == #[trigger] issued(
                    old(self)@,
                    account_id,
                    c,
                ),
    {
        if !self.accounts.contains_key(&account_id) {
            return Err(BankError::AccountNotFound);
        }
        let card_id = random_fresh_key(&self.cards);
        let mut account = self.take_account(account_id);
        account.register_card(card_id);
        self.put_account(account_id, account);
        self.cards.insert(card_id, Card::new(card_id));
        assert(self@.accounts =~= issued(old(self)@, account_id, card_id).accounts);
        assert(self@.cards =~= issued(old(self)@, account_id, card_id).cards);
        assert(self@ == issued(old(self)@, account_id, card_id));
        Ok(())
    }

    /// The account filed under `account_id`, if any.
    pub fn get_account(&self, account_id: AccountId) -> (r: Option<&Account>)
        ensures
            r is None <==> !self@.accounts.contains_key(account_id),
            r matches Some(a) ==> a@ == self@.accounts[account_id],
    {
        self.accounts.get(&account_id)
    }

    /// The user registered under `user_id`, if any.
    pub fn get_user(&self, user_id: UserId) -> (r: Option<&User>)
        ensures
            r is None <==> !self@.users.contains_key(user_id),
            r matches Some(u) ==> u@ == self@.users[user_id],
    {
        self.users.get(&user_id)
    }

    /// Whether a card is filed under `card_id`.
    pub fn has_card(&self, card_id: CardId) -> (r: bool)
        ensures
            r == self@.cards.contains_key(card_id),
    {
        self.cards.contains_key(&card_id)
    }

    /// Adds `money` to the balance of `account_id`. Fails with
    /// `AccountNotFound` when there is no such account and with
    /// `BalanceOverflow` when the sum would pass `u64::MAX`; a failure changes
    /// nothing.
    pub fn reward_account(&mut self, account_id: AccountId, money: u64) -> (r: Result<
        (),
        BankError,
    >)
        requires
            old(self).wf(),
        ensures
            final(self).wf(),
            !old(self)@.accounts.contains_key(account_id) ==> r == Err::<(), BankError>(
                BankError::AccountNotFound,
            ),
            old(self)@.accounts.contains_key(account_id) && old(self)@.accounts[account_id].balance
                + money > u64::MAX ==> r == Err::<(), BankError>(BankError::BalanceOverflow),
            old(self)@.accounts.contains_key(account_id) && old(self)@.accounts[account_id].balance
                + money <= u64::MAX ==> r is Ok,
            r is Ok ==> final(self)@ == (BankModel {
                accounts: old(self)@.accounts.insert(
                    account_id,
                    with_balance(
                        old(self)@.accounts[account_id],
                        (old(self)@.accounts[account_id].balance + money) as u64,
                    ),
                ),
                ..old(self)@
            }),
            r is Err ==> final(self)@ == old(self)@,
    {
        if !self.accounts.contains_key(&account_id) {
            return Err(BankError::AccountNotFound);
        }
        let mut account = self.take_account(account_id);
        let r = account.increase_balance(money);
        self.put_account(account_id, account);
        assert(self@.accounts =~= old(self)@.accounts.insert(account_id, self@.accounts[account_id]));
        assert(r is Err ==> self@.accounts =~= old(self)@.accounts);
        r
    }

    /// Sets the category of `account_id` to `new_account_category`, whatever
    /// it was. Fails with `AccountNotFound`, changing nothing, when there is
    /// no such account.
    pub fn change_account_type(
        &mut self,
        account_id: AccountId,
        new_account_category: AccountCategory,
    ) -> (r: Result<(), BankError>)
        requires
            old(self).wf(),
        ensures
            final(self).wf(),
            !old(self)@.accounts.contains_key(account_id) ==> r == Err::<(), BankError>(
                BankError::AccountNotFound,
            ) && final(self)@ == old(self)@,
            old(self)@.accounts.contains_key(account_id) ==> r is Ok && final(self)@ == (BankModel {
                accounts: old(self)@.accounts.insert(
                    account_id,
                    AccountModel { category: new_account_category, ..old(self)@.accounts[account_id] },
                ),
                ..old(self)@
            }),
    {
        if !self.accounts.contains_key(&account_id) {
            return Err(BankError::AccountNotFound);
        }
        let mut account = self.take_account(account_id);
        account.category = new_account_category;
        self.put_account(account_id, account);
        assert(self@.accounts =~= old(self)@.accounts.insert(account_id, self@.accounts[account_id]));
        Ok(())
    }

    /// Hands out the queued events, oldest first, and leaves none queued.
    pub fn take_events(&mut self) -> (r: Vec<BankEvent>)
        requires
            old(self).wf(),
        ensures
            final(self).wf(),
            r@ == old(self)@.events,
            final(self)@ == (BankModel { events: Seq::empty(), ..old(self)@ }),
    {
        self.publisher.take()
    }
}

impl Default for Bank {
    fn default() -> (r: Bank)
        ensures
            r.wf(),
            r@.accounts == Map::<AccountId, AccountModel>::empty(),
            r@.users == Map::<UserId, UserModel>::empty(),
            r@.cards == Map::<CardId, Card>::empty(),
            r@.events == Seq::<BankEvent>::empty(),
    {
        Bank::new()
    }
}

/// The ledger once account `id` of `owner` has been opened with `category`.
pub open spec fn opened(m: BankModel, id: AccountId, owner: UserId, category: AccountCategory) -> BankModel {
    BankModel {
        accounts: m.accounts.insert(
            id,
            AccountModel { id, owner, balance: 0, category, cards: Set::empty() },
        ),
        users: m.users.insert(
            owner,
            UserModel { accounts: m.users[owner].accounts.insert(id), ..m.users[owner] },
        ),
        cards: m.cards,
        events: m.events.push(
            BankEvent { kind: SubscribeEvent::CreateAccount, account_id: id, owner, balance: 0, category },
        ),
    }
}

/// The ledger once card `card` has been issued for account `id`.
pub open spec fn issued(m: BankModel, id: AccountId, card: CardId) -> BankModel {
    BankModel {
        accounts: m.accounts.insert(
            id,
            AccountModel { cards: m.accounts[id].cards.insert(card), ..m.accounts[id] },
        ),
        cards: m.cards.insert(card, Card { id: card }),
        ..m
    }
}

} // verus!
