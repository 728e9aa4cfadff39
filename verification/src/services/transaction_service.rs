use crate::enums::errors::{
    account_not_found, balance_out_of_range, identities_exhausted, insufficient_funds,
    missing_fields, Error, ErrorView,
};
use crate::history::{step, Request};
use crate::ledger::{funds_suffice, Ledger, LedgerView};
use crate::models::transaction::{Transaction, TransactionCreation, TransactionView};
use crate::services::clock::unix_time_now;
use vstd::prelude::*;

verus! {

/// Why a movement of `amount` on a balance is turned down, if it is: a debit
/// beyond the balance for want of funds, a credit that would carry the
/// balance past the largest value it can hold as out of range.
pub open spec fn settlement_rejection(balance: i64, amount: i64) -> Option<ErrorView> {
    if !funds_suffice(balance as int, amount as int) {
        Some(insufficient_funds())
    } else if balance - amount > i64::MAX {
        Some(balance_out_of_range())
    } else {
        None
    }
}

/// Why a transaction is turned down, if it is. A missing counterparty is
/// found first, before the ledger is looked at; then the account is looked
/// up; then the movement is held against its balance.
pub open spec fn transaction_rejection(
    v: LedgerView,
    account_number: Seq<char>,
    seller: Seq<char>,
    amount: i64,
) -> Option<ErrorView> {
    if seller.len() == 0 {
        Some(missing_fields())
    } else if !v.has_account_number(account_number) {
        Some(account_not_found())
    } else if settlement_rejection(v.balance_of(account_number), amount) is Some {
        settlement_rejection(v.balance_of(account_number), amount)
    } else if v.transactions.len() >= i32::MAX {
        Some(identities_exhausted())
    } else {
        None
    }
}

/// The record that a commit at the time `now` appends to the log of `v`.
pub open spec fn new_transaction(
    v: LedgerView,
    account_number: Seq<char>,
    seller: Seq<char>,
    amount: i64,
    now: i64,
) -> TransactionView {
    TransactionView {
        id: Some((v.transactions.len() + 1) as i32),
        account_number,
        seller,
        amount,
        created_at: now,
        updated_at: now,
    }
}

/// The funds rule on plain values: the balance that a movement of `amount`
/// leaves, `balance - amount`, or the reason why it is turned down.
pub fn settle(balance: i64, amount: i64) -> (settled: Result<i64, Error>)
    ensures
        match settlement_rejection(balance, amount) {
            Some(reason) => settled matches Err(e) && e@ == reason,
            None => settled matches Ok(rest) && rest == balance - amount,
        },
{
    if amount > 0 && amount > balance {
        return Err(Error::DataError("Insufficient funds".to_owned()));
    }
    if amount <= 0 && balance > i64::MAX + amount {
        return Err(Error::InternalError("Balance out of range".to_owned()));
    }
    Ok(balance - amount)
}

/// All committed transactions, oldest first.
pub fn get_transactions(ledger: &Ledger) -> (transactions: Vec<Transaction>)
    ensures
        transactions@.len() == ledger@.transactions.len(),
        forall|k: int|
            0 <= k < transactions@.len() ==> (#[trigger] transactions@[k])@
                == ledger@.transactions[k],
{
    let mut transactions: Vec<Transaction> = Vec::new();
    let mut i: usize = 0;
    while i < ledger.transaction_count()
        invariant
            i <= ledger@.transactions.len(),
            transactions@.len() == i,
            forall|k: int|
                0 <= k < i ==> (#[trigger] transactions@[k])@ == ledger@.transactions[k],
        decreases ledger@.transactions.len() - i,
    {
        let transaction = ledger.transaction_at(i).clone();
        transactions.push(transaction);
        i = i + 1;
    }
    transactions
}

/// Applies a movement to an account at the time `now`, as one step.
///
/// The request is turned down exactly when [`transaction_rejection`] names a
/// reason; the ledger, balance and log, is then left as it was. Otherwise
/// the record is appended to the log with the next identity, the amount is
/// taken from the balance of the account, and the record is returned.
pub fn apply_transaction(
    ledger: &mut Ledger,
    transaction_creation: TransactionCreation,
    now: i64,
) -> (committed: Result<Transaction, Error>)
    requires
        old(ledger).wf(),
    ensures
        final(ledger).wf(),
        final(ledger)@ == step(
            old(ledger)@,
            Request::Apply {
                account_number: transaction_creation.account_number@,
                seller: transaction_creation.seller@,
                amount: transaction_creation.amount,
                now,
            },
        ),
        match transaction_rejection(
            old(ledger)@,
            transaction_creation.account_number@,
            transaction_creation.seller@,
            transaction_creation.amount,
        ) {
            Some(reason) => {
                &&& committed matches Err(e) && e@ == reason
                &&& final(ledger)@ == old(ledger)@
            },
            None => {
                &&& committed matches Ok(t) && t@ == new_transaction(
                    old(ledger)@,
                    transaction_creation.account_number@,
                    transaction_creation.seller@,
                    transaction_creation.amount,
                    now,
                )
                &&& final(ledger)@ == old(ledger)@.with_transaction(
                    old(ledger)@.account_index(transaction_creation.account_number@),
                    new_transaction(
                        old(ledger)@,
                        transaction_creation.account_number@,
                        transaction_creation.seller@,
                        transaction_creation.amount,
                        now,
                    ),
                )
            },
        },
{
    if transaction_creation.seller.as_str().is_empty() {
        return Err(Error::InputError("Missing required fields".to_owned()));
    }
    let index: usize = match ledger.find_account_number(&transaction_creation.account_number) {
        Some(index) => index,
        None => {
            return Err(Error::DataError("Account not found".to_owned()));
        },
    };
    proof {
        ledger@.lemma_account_index(index as int, transaction_creation.account_number@);
    }
    let balance: i64 = match settle(ledger.account_at(index).balance, transaction_creation.amount) {
        Ok(balance) => balance,
        Err(e) => {
            return Err(e);
        },
    };
    if ledger.transaction_count() >= i32::MAX as usize {
        return Err(Error::InternalError("No identifier left".to_owned()));
    }
    let id: i32 = (ledger.transaction_count() + 1) as i32;
    let row = Transaction {
        id: Some(id),
        account_number: transaction_creation.account_number,
        seller: transaction_creation.seller,
        amount: transaction_creation.amount,
        created_at: now,
        updated_at: now,
    };
    let committed = row.clone();
    ledger.commit(index, row, balance);
    Ok(committed)
}

/// Applies a movement to an account now.
///
/// Whether the request is turned down, and why, is as in
/// [`apply_transaction`]. Where it is not, the ledger is the one that
/// [`apply_transaction`] leaves for the time that the record shows.
pub fn create_transaction(ledger: &mut Ledger, transaction_creation: TransactionCreation) -> (committed:
    Result<Transaction, Error>)
    requires
        old(ledger).wf(),
    ensures
        final(ledger).wf(),
        committed matches Ok(t) ==> t@.created_at >= 0,
        exists|now: i64|
            final(ledger)@ == #[trigger] step(
                old(ledger)@,
                Request::Apply {
                    account_number: transaction_creation.account_number@,
                    seller: transaction_creation.seller@,
                    amount: transaction_creation.amount,
                    now,
                },
            ),
        match transaction_rejection(
            old(ledger)@,
            transaction_creation.account_number@,
            transaction_creation.seller@,
            transaction_creation.amount,
        ) {
            Some(reason) => {
                &&& committed matches Err(e) && e@ == reason
                &&& final(ledger)@ == old(ledger)@
            },
            None => {
                &&& committed matches Ok(t) && t@ == new_transaction(
                    old(ledger)@,
                    transaction_creation.account_number@,
                    transaction_creation.seller@,
                    transaction_creation.amount,
                    t@.created_at,
                ) && final(ledger)@ == old(ledger)@.with_transaction(
                    old(ledger)@.account_index(transaction_creation.account_number@),
                    t@,
                )
            },
        },
{
    let now = unix_time_now();
    apply_transaction(ledger, transaction_creation, now)
}

} // verus!
