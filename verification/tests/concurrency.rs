use std::sync::{Arc, Mutex};

use bank_ledger::ledger::Ledger;
use bank_ledger::models::account::AccountCreation;
use bank_ledger::models::transaction::TransactionCreation;
use bank_ledger::models::user::UserCreation;
use bank_ledger::services::account_service::{get_account_by_account_number, open_account};
use bank_ledger::services::transaction_service::{create_transaction, get_transactions};
use bank_ledger::services::user_service::create_user;

fn funded_ledger(number: &str, funds: i64) -> Ledger {
    let mut ledger = Ledger::new();
    create_user(
        &mut ledger,
        UserCreation { username: "alice".to_string(), password: "pw123".to_string() },
    )
    .unwrap();
    open_account(&mut ledger, AccountCreation { user_id: 1 }, number.to_string(), 1_700_000_000)
        .unwrap();
    create_transaction(
        &mut ledger,
        TransactionCreation {
            account_number: number.to_string(),
            seller: "Employer".to_string(),
            amount: -funds,
        },
    )
    .unwrap();
    ledger
}

fn debit(number: &str, amount: i64) -> TransactionCreation {
    TransactionCreation {
        account_number: number.to_string(),
        seller: "Shop".to_string(),
        amount,
    }
}

#[test]
fn concurrent_commits_lose_no_update() {
    let amounts: Vec<i64> = (1..=32).collect();
    let total: i64 = amounts.iter().sum();

    let mut serial = funded_ledger("42", 10_000);
    for amount in amounts.iter() {
        create_transaction(&mut serial, debit("42", *amount)).unwrap();
    }
    let serial_balance = get_account_by_account_number(&serial, "42".to_string()).unwrap().balance;
    assert_eq!(serial_balance, 10_000 - total);

    let shared = Arc::new(Mutex::new(funded_ledger("42", 10_000)));
    let runtime = tokio::runtime::Builder::new_multi_thread().worker_threads(4).build().unwrap();
    let mut tasks = Vec::new();
    for amount in amounts.iter() {
        let ledger = shared.clone();
        let amount = *amount;
        tasks.push(runtime.spawn_blocking(move || {
            let mut guard = ledger.lock().unwrap();
            create_transaction(&mut guard, debit("42", amount)).is_ok()
        }));
    }
    for task in tasks {
        assert!(runtime.block_on(task).unwrap());
    }
    let guard = shared.lock().unwrap();
    let balance = get_account_by_account_number(&guard, "42".to_string()).unwrap().balance;
    assert_eq!(balance, serial_balance);
    assert_eq!(balance, 9_472);
    assert_eq!(get_transactions(&guard).len(), 33);
}

#[test]
fn concurrent_debits_never_overdraw() {
    let shared = Arc::new(Mutex::new(funded_ledger("42", 100)));
    let runtime = tokio::runtime::Builder::new_multi_thread().worker_threads(4).build().unwrap();
    let mut tasks = Vec::new();
    for _ in 0..20 {
        let ledger = shared.clone();
        tasks.push(runtime.spawn_blocking(move || {
            let mut guard = ledger.lock().unwrap();
            create_transaction(&mut guard, debit("42", 30)).is_ok()
        }));
    }
    let mut committed = 0;
    for task in tasks {
        if runtime.block_on(task).unwrap() {
            committed += 1;
        }
    }
    assert_eq!(committed, 3);
    let guard = shared.lock().unwrap();
    let balance = get_account_by_account_number(&guard, "42".to_string()).unwrap().balance;
    assert_eq!(balance, 10);
    assert_eq!(get_transactions(&guard).len(), 4);
}
