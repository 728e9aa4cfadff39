//! The store and its mathematical model: the tables, the invariant that ties
//! every balance to the log, and the three ways in which the tables grow.

use crate::models::account::{Account, AccountView};
use crate::models::transaction::{Transaction, TransactionView};
use crate::models::user::{User, UserView};
use vstd::prelude::*;

verus! {

/// What is stored of a user's password: the salt and the digest of salt and
/// password. The password itself is not kept.
pub struct Credential {
    pub salt: String,
    pub digest: Vec<u8>,
}

/// The mathematical value of a [`Credential`].
pub struct CredentialView {
    pub salt: Seq<char>,
    pub digest: Seq<u8>,
}

impl View for Credential {
    type V = CredentialView;

    open spec fn view(&self) -> CredentialView {
        CredentialView { salt: self.salt@, digest: self.digest@ }
    }
}

/// The sum of the amounts that `log` holds for the account `number`.
pub open spec fn total_of(log: Seq<TransactionView>, number: Seq<char>) -> int
    decreases log.len(),
{
    if log.len() == 0 {
        0
    } else {
        total_of(log.drop_last(), number) + if log.last().account_number == number {
            log.last().amount as int
        } else {
            0
        }
    }
}

/// The funds rule: a credit or a zero movement always passes; a debit passes
/// when it is no larger than the balance.
pub open spec fn funds_suffice(balance: int, amount: int) -> bool {
    amount <= 0 || amount <= balance
}

/// The mathematical value of a [`Ledger`]: its tables, oldest row first.
pub struct LedgerView {
    pub users: Seq<UserView>,
    /// One per user, in the order of `users`.
    pub credentials: Seq<CredentialView>,
    pub accounts: Seq<AccountView>,
    pub transactions: Seq<TransactionView>,
}

impl LedgerView {
    /// The ledger that holds nothing.
    pub open spec fn empty() -> LedgerView {
        LedgerView {
            users: Seq::empty(),
            credentials: Seq::empty(),
            accounts: Seq::empty(),
            transactions: Seq::empty(),
        }
    }

    /// Whether a user with this identity is registered.
    pub open spec fn has_user(self, id: int) -> bool {
        1 <= id <= self.users.len()
    }

    /// Whether a user of this name is registered.
    pub open spec fn has_username(self, name: Seq<char>) -> bool {
        exists|i: int| 0 <= i < self.users.len() && (#[trigger] self.users[i]).username == name
    }

    /// Whether an account with this identity exists.
    pub open spec fn has_account(self, id: int) -> bool {
        1 <= id <= self.accounts.len()
    }

    /// Whether an account of this number exists.
    pub open spec fn has_account_number(self, number: Seq<char>) -> bool {
        exists|i: int|
            0 <= i < self.accounts.len() && (#[trigger] self.accounts[i]).account_number == number
    }

    /// Whether the account at `index` is the one of this number.
    pub open spec fn is_account_index(self, index: int, number: Seq<char>) -> bool {
        0 <= index < self.accounts.len() && self.accounts[index].account_number == number
    }

    /// The position of the account of this number, if there is one.
    pub open spec fn account_index(self, number: Seq<char>) -> int {
        choose|i: int| self.is_account_index(i, number)
    }

    /// The balance of the account of this number, if there is one.
    pub open spec fn balance_of(self, number: Seq<char>) -> i64 {
        self.accounts[self.account_index(number)].balance
    }

    /// The position that [`LedgerView::account_index`] gives for the number of
    /// an account is one of an account of that number.
    pub proof fn lemma_account_index_found(self, number: Seq<char>)
        requires
            self.has_account_number(number),
        ensures
            self.is_account_index(self.account_index(number), number),
    {
        let witness = choose|i: int|
            0 <= i < self.accounts.len() && (#[trigger] self.accounts[i]).account_number == number;
        assert(self.is_account_index(witness, number));
    }

    /// In a well-formed ledger an account number names one position.
    pub proof fn lemma_account_index(self, index: int, number: Seq<char>)
        requires
            self.accounts_wf(),
            self.is_account_index(index, number),
        ensures
            self.has_account_number(number),
            self.account_index(number) == index,
            self.balance_of(number) == self.accounts[index].balance,
    {
        let other = self.account_index(number);
        assert(self.is_account_index(other, number));
        assert(other == index) by {
            if other < index {
                assert(self.accounts[other].account_number != self.accounts[index].account_number);
            } else if index < other {
                assert(self.accounts[index].account_number != self.accounts[other].account_number);
            }
        }
    }

    /// The ledger after a user was registered.
    pub open spec fn with_user(self, user: UserView, credential: CredentialView) -> LedgerView {
        LedgerView {
            users: self.users.push(user),
            credentials: self.credentials.push(credential),
            ..self
        }
    }

    /// The ledger after an account was opened.
    pub open spec fn with_account(self, account: AccountView) -> LedgerView {
        LedgerView { accounts: self.accounts.push(account), ..self }
    }

    /// The ledger after `transaction` was committed against the account at
    /// `index`: the record is appended to the log and its amount is taken
    /// from the balance. Nothing else changes.
    pub open spec fn with_transaction(self, index: int, transaction: TransactionView) -> LedgerView {
        LedgerView {
            accounts: self.accounts.update(
                index,
                AccountView {
                    balance: (self.accounts[index].balance - transaction.amount) as i64,
                    ..self.accounts[index]
                },
            ),
            transactions: self.transactions.push(transaction),
            ..self
        }
    }

    /// Users are numbered from 1 in the order of registration, have a name,
    /// and no two share one. Each has a stored credential.
    pub open spec fn users_wf(self) -> bool {
        &&& self.users.len() <= i32::MAX
        &&& self.credentials.len() == self.users.len()
        &&& forall|i: int|
            0 <= i < self.users.len() ==> {
                &&& (#[trigger] self.users[i]).id == Some((i + 1) as i32)
                &&& self.users[i].username.len() > 0
            }
        &&& forall|i: int, j: int|
            0 <= i < j < self.users.len() ==> (#[trigger] self.users[i]).username != (
            #[trigger] self.users[j]).username
    }

    /// Accounts are numbered from 1 in the order of opening, belong to a
    /// registered user, and no two share an account number. The balance of
    /// each is never negative, and it is what the log says: zero less every
    /// amount committed against it.
    pub open spec fn accounts_wf(self) -> bool {
        &&& self.accounts.len() <= i32::MAX
        &&& forall|i: int|
            0 <= i < self.accounts.len() ==> {
                &&& (#[trigger] self.accounts[i]).id == Some((i + 1) as i32)
                &&& self.has_user(self.accounts[i].user_id as int)
                &&& self.accounts[i].balance >= 0
                &&& self.accounts[i].balance == 0 - total_of(
                    self.transactions,
                    self.accounts[i].account_number,
                )
            }
        &&& forall|i: int, j: int|
            0 <= i < j < self.accounts.len() ==> (#[trigger] self.accounts[i]).account_number != (
            #[trigger] self.accounts[j]).account_number
    }

    /// Transactions are numbered from 1 in the order of commit, name a
    /// counterparty and an account that exists, and each passed the funds rule
    /// against the balance that the log before it gives.
    pub open spec fn transactions_wf(self) -> bool {
        &&& self.transactions.len() <= i32::MAX
        &&& forall|k: int|
            0 <= k < self.transactions.len() ==> {
                &&& (#[trigger] self.transactions[k]).id == Some((k + 1) as i32)
                &&& self.transactions[k].seller.len() > 0
                &&& self.has_account_number(self.transactions[k].account_number)
                &&& funds_suffice(
                    0 - total_of(self.transactions.take(k), self.transactions[k].account_number),
                    self.transactions[k].amount as int,
                )
            }
    }

    /// The invariant of the ledger.
    pub open spec fn wf(self) -> bool {
        &&& self.users_wf()
        &&& self.accounts_wf()
        &&& self.transactions_wf()
    }
}

/// Appending a record adds its amount to the total of its own account and
/// leaves every other total as it was.
pub proof fn lemma_total_of_push(log: Seq<TransactionView>, t: TransactionView, number: Seq<char>)
    ensures
        total_of(log.push(t), number) == total_of(log, number) + if t.account_number == number {
            t.amount as int
        } else {
            0
        },
{
    assert(log.push(t).drop_last() =~= log);
}

/// An account that no record names has a total of zero.
pub proof fn lemma_total_of_absent(log: Seq<TransactionView>, number: Seq<char>)
    requires
        forall|k: int| 0 <= k < log.len() ==> (#[trigger] log[k]).account_number != number,
    ensures
        total_of(log, number) == 0,
    decreases log.len(),
{
    if log.len() > 0 {
        lemma_total_of_absent(log.drop_last(), number);
    }
}

/// Registering a user under a name that is not taken keeps the ledger well
/// formed.
pub proof fn lemma_with_user_wf(v: LedgerView, user: UserView, credential: CredentialView)
    requires
        v.wf(),
        v.users.len() < i32::MAX,
        user.id == Some((v.users.len() + 1) as i32),
        user.username.len() > 0,
        !v.has_username(user.username),
    ensures
        v.with_user(user, credential).wf(),
{
}

/// Opening an account with a fresh number and a balance of zero keeps the
/// ledger well formed.
pub proof fn lemma_with_account_wf(v: LedgerView, account: AccountView)
    requires
        v.wf(),
        v.accounts.len() < i32::MAX,
        account.id == Some((v.accounts.len() + 1) as i32),
        v.has_user(account.user_id as int),
        account.balance == 0,
        !v.has_account_number(account.account_number),
    ensures
        v.with_account(account).wf(),
{
    let w = v.with_account(account);
    lemma_total_of_absent(v.transactions, account.account_number);
    assert forall|k: int| 0 <= k < w.transactions.len() implies w.has_account_number(
        (#[trigger] w.transactions[k]).account_number,
    ) by {
        let number = v.transactions[k].account_number;
        let i = choose|i: int|
            0 <= i < v.accounts.len() && (#[trigger] v.accounts[i]).account_number == number;
        assert(w.accounts[i] == v.accounts[i]);
    }
}

/// Committing a record that passed the funds rule against the balance of its
/// account keeps the ledger well formed.
pub proof fn lemma_with_transaction_wf(v: LedgerView, index: int, t: TransactionView)
    requires
        v.wf(),
        v.transactions.len() < i32::MAX,
        v.is_account_index(index, t.account_number),
        t.id == Some((v.transactions.len() + 1) as i32),
        t.seller.len() > 0,
        funds_suffice(v.accounts[index].balance as int, t.amount as int),
        i64::MIN <= v.accounts[index].balance - t.amount <= i64::MAX,
    ensures
        v.with_transaction(index, t).wf(),
{
    let w = v.with_transaction(index, t);
    assert forall|i: int| 0 <= i < w.accounts.len() implies (#[trigger] w.accounts[i]).balance == 0
        - total_of(w.transactions, w.accounts[i].account_number) by {
        lemma_total_of_push(v.transactions, t, v.accounts[i].account_number);
    }
    assert forall|k: int| 0 <= k < w.transactions.len() implies {
        &&& w.has_account_number((#[trigger] w.transactions[k]).account_number)
        &&& funds_suffice(
            0 - total_of(w.transactions.take(k), w.transactions[k].account_number),
            w.transactions[k].amount as int,
        )
    } by {
        if k < v.transactions.len() {
            assert(w.transactions[k] == v.transactions[k]);
            assert(w.transactions.take(k) =~= v.transactions.take(k));
            let number = v.transactions[k].account_number;
            let i = choose|i: int|
                0 <= i < v.accounts.len() && (#[trigger] v.accounts[i]).account_number == number;
            assert(w.accounts[i].account_number == number);
        } else {
            assert(w.accounts[index].account_number == t.account_number);
        }
    }
}

/// The store: users with their credentials, accounts, and the log of
/// committed transactions. Its tables are changed only through the functions
/// of this crate, each of which keeps [`Ledger::wf`].
pub struct Ledger {
    users: Vec<User>,
    credentials: Vec<Credential>,
    accounts: Vec<Account>,
    transactions: Vec<Transaction>,
}

impl View for Ledger {
    type V = LedgerView;

    closed spec fn view(&self) -> LedgerView {
        LedgerView {
            users: self.users@.map_values(|u: User| u@),
            credentials: self.credentials@.map_values(|c: Credential| c@),
            accounts: self.accounts@.map_values(|a: Account| a@),
            transactions: self.transactions@.map_values(|t: Transaction| t@),
        }
    }
}

impl Ledger {
    /// The invariant of the ledger, see [`LedgerView::wf`].
    pub open spec fn wf(&self) -> bool {
        self@.wf()
    }

    /// A ledger without users, accounts or transactions.
    pub fn new() -> (ledger: Ledger)
        ensures
            ledger.wf(),
            ledger@ == LedgerView::empty(),
    {
        let ledger = Ledger {
            users: Vec::new(),
            credentials: Vec::new(),
            accounts: Vec::new(),
            transactions: Vec::new(),
        };
        assert(ledger@.users =~= Seq::empty());
        assert(ledger@.credentials =~= Seq::empty());
        assert(ledger@.accounts =~= Seq::empty());
        assert(ledger@.transactions =~= Seq::empty());
        ledger
    }

    pub(crate) fn user_count(&self) -> (count: usize)
        ensures
            count == self@.users.len(),
    {
        self.users.len()
    }

    pub(crate) fn user_at(&self, index: usize) -> (user: &User)
        requires
            index < self@.users.len(),
        ensures
            user@ == self@.users[index as int],
    {
        &self.users[index]
    }

    pub(crate) fn account_count(&self) -> (count: usize)
        ensures
            count == self@.accounts.len(),
    {
        self.accounts.len()
    }

    pub(crate) fn account_at(&self, index: usize) -> (account: &Account)
        requires
            index < self@.accounts.len(),
        ensures
            account@ == self@.accounts[index as int],
    {
        &self.accounts[index]
    }

    pub(crate) fn transaction_count(&self) -> (count: usize)
        ensures
            count == self@.transactions.len(),
    {
        self.transactions.len()
    }

    pub(crate) fn transaction_at(&self, index: usize) -> (transaction: &Transaction)
        requires
            index < self@.transactions.len(),
        ensures
            transaction@ == self@.transactions[index as int],
    {
        &self.transactions[index]
    }

    /// Whether a user of this name is registered.
    pub(crate) fn has_username(&self, name: &String) -> (found: bool)
        ensures
            found == self@.has_username(name@),
    {
        let mut i: usize = 0;
        while i < self.users.len()
            invariant
                i <= self.users.len(),
                forall|k: int| 0 <= k < i ==> (#[trigger] self@.users[k]).username != name@,
            decreases self.users.len() - i,
        {
            if self.users[i].username == *name {
                assert(self@.users[i as int].username == name@);
                return true;
            }
            i = i + 1;
        }
        false
    }

    /// The position of the account of this number.
    pub(crate) fn find_account_number(&self, number: &String) -> (found: Option<usize>)
        ensures
            match found {
                Some(index) => self@.is_account_index(index as int, number@),
                None => !self@.has_account_number(number@),
            },
    {
        let mut i: usize = 0;
        while i < self.accounts.len()
            invariant
                i <= self.accounts.len(),
                forall|k: int| 0 <= k < i ==> (#[trigger] self@.accounts[k]).account_number != number@,
            decreases self.accounts.len() - i,
        {
            if self.accounts[i].account_number == *number {
                return Some(i);
            }
            i = i + 1;
        }
        None
    }

    /// Appends a user and the credential stored for it.
    pub(crate) fn insert_user(&mut self, user: User, credential: Credential)
        requires
            old(self).wf(),
            old(self)@.users.len() < i32::MAX,
            user@.id == Some((old(self)@.users.len() + 1) as i32),
            user@.username.len() > 0,
            !old(self)@.has_username(user@.username),
        ensures
            final(self).wf(),
            final(self)@ == old(self)@.with_user(user@, credential@),
    {
        proof {
            lemma_with_user_wf(self@, user@, credential@);
        }
        self.users.push(user);
        self.credentials.push(credential);
        assert(self@.users =~= old(self)@.users.push(user@));
        assert(self@.credentials =~= old(self)@.credentials.push(credential@));
    }

    /// Appends an account.
    pub(crate) fn insert_account(&mut self, account: Account)
        requires
            old(self).wf(),
            old(self)@.accounts.len() < i32::MAX,
            account@.id == Some((old(self)@.accounts.len() + 1) as i32),
            old(self)@.has_user(account@.user_id as int),
            account@.balance == 0,
            !old(self)@.has_account_number(account@.account_number),
        ensures
            final(self).wf(),
            final(self)@ == old(self)@.with_account(account@),
    {
        proof {
            lemma_with_account_wf(self@, account@);
        }
        self.accounts.push(account);
        assert(self@.accounts =~= old(self)@.accounts.push(account@));
    }

    /// Appends a transaction to the log and sets the balance of the account at
    /// `index` to `balance`, which is the old balance less the amount, in one
    /// step. This is the only place where a balance changes.
    pub(crate) fn commit(&mut self, index: usize, transaction: Transaction, balance: i64)
        requires
            old(self).wf(),
            old(self)@.transactions.len() < i32::MAX,
            old(self)@.is_account_index(index as int, transaction@.account_number),
            transaction@.id == Some((old(self)@.transactions.len() + 1) as i32),
            transaction@.seller.len() > 0,
            funds_suffice(
                old(self)@.accounts[index as int].balance as int,
                transaction@.amount as int,
            ),
            balance == old(self)@.accounts[index as int].balance - transaction@.amount,
        ensures
            final(self).wf(),
            final(self)@ == old(self)@.with_transaction(index as int, transaction@),
    {
        proof {
            lemma_with_transaction_wf(self@, index as int, transaction@);
        }
        self.accounts[index].balance = balance;
        self.transactions.push(transaction);
        assert(self@.transactions =~= old(self)@.transactions.push(transaction@));
        assert(self@.accounts =~= old(self)@.with_transaction(
            index as int,
            transaction@,
        ).accounts);
    }
}

} // verus!
