use bank_ledger::enums::errors::Error;
use bank_ledger::ledger::Ledger;
use bank_ledger::models::account::AccountCreation;
use bank_ledger::models::user::UserCreation;
use bank_ledger::services::account_service::{
    create_account, first_free_number, get_account, get_account_by_account_number, get_accounts,
    open_account, open_account_from, ACCOUNT_NUMBER_LENGTH,
};
use bank_ledger::services::user_service::create_user;

fn setup_ledger() -> Ledger {
    Ledger::new()
}

fn ledger_with_users(names: &[&str]) -> Ledger {
    let mut ledger = Ledger::new();
    for name in names {
        create_user(
            &mut ledger,
            UserCreation { username: name.to_string(), password: "password".to_string() },
        )
        .unwrap();
    }
    ledger
}

#[test]
fn test_get_accounts_empty() {
    let ledger = setup_ledger();
    let accounts = get_accounts(&ledger);
    assert!(accounts.is_empty());
}

#[test]
fn test_create_and_get_account() {
    let mut ledger = setup_ledger();
    let _ = create_user(
        &mut ledger,
        UserCreation {
            username: "test_user".to_string(),
            password: "password".to_string(),
        },
    )
    .unwrap();
    let account_creation = AccountCreation { user_id: 1 };
    let _ = create_account(&mut ledger, account_creation.clone()).unwrap();

    let accounts = get_accounts(&ledger);
    assert_eq!(accounts.len(), 1);
    assert_eq!(accounts[0].user_id, 1);
}

#[test]
fn test_multiple_accounts() {
    let mut ledger = setup_ledger();
    let _ = create_user(
        &mut ledger,
        UserCreation {
            username: "a".to_string(),
            password: "password".to_string(),
        },
    )
    .unwrap();
    let _ = create_user(
        &mut ledger,
        UserCreation {
            username: "b".to_string(),
            password: "password".to_string(),
        },
    )
    .unwrap();
    let _ = create_user(
        &mut ledger,
        UserCreation {
            username: "c".to_string(),
            password: "password".to_string(),
        },
    )
    .unwrap();
    let users = vec![1, 2, 3];
    for user in &users {
        let account_creation = AccountCreation { user_id: *user };
        let res = create_account(&mut ledger, account_creation);
        assert!(res.is_ok())
    }
    let accounts = get_accounts(&ledger);
    assert_eq!(accounts.len(), users.len());
    for (i, account) in accounts.iter().enumerate() {
        assert_eq!(account.user_id, users[i]);
    }
}

#[test]
fn test_create_account_with_duplicate_user_id() {
    let mut ledger = setup_ledger();
    let _ = create_user(
        &mut ledger,
        UserCreation {
            username: "c".to_string(),
            password: "password".to_string(),
        },
    )
    .unwrap();
    let account_creation = AccountCreation { user_id: 1 };
    let _ = create_account(&mut ledger, account_creation.clone()).unwrap();

    // Try to create another account with the same user_id
    let result = create_account(&mut ledger, account_creation.clone());
    // Should succeed because account_number is unique, not user_id
    assert!(result.is_ok());

    let accounts = get_accounts(&ledger);
    // There should be two accounts with the same user_id
    let count = accounts.iter().filter(|a| a.user_id == 1).count();
    assert_eq!(count, 2);
}

#[test]
fn new_account_has_zero_balance_and_a_drawn_number() {
    let mut ledger = ledger_with_users(&["alice"]);
    let account = create_account(&mut ledger, AccountCreation { user_id: 1 }).unwrap();
    assert_eq!(account.id, Some(1));
    assert_eq!(account.user_id, 1);
    assert_eq!(account.balance, 0);
    assert_eq!(account.account_number.len(), ACCOUNT_NUMBER_LENGTH);
    assert_eq!(account.account_number.len(), 20);
    assert!(account.account_number.chars().all(|c| c.is_ascii_digit()));
    assert_eq!(account.created_at, account.updated_at);
    assert!(account.created_at > 1_577_836_800);
}

#[test]
fn account_for_an_unknown_user_is_not_opened() {
    let mut ledger = ledger_with_users(&["alice"]);
    for user_id in [0, -1, 2, i32::MAX, i32::MIN] {
        match create_account(&mut ledger, AccountCreation { user_id }) {
            Err(Error::DataError(message)) => assert_eq!(message, "User not found"),
            other => panic!("expected a data error, got {:?}", other),
        }
    }
    assert!(get_accounts(&ledger).is_empty());
}

#[test]
fn accounts_of_distinct_users_get_distinct_numbers() {
    let mut ledger = ledger_with_users(&["alice", "bob"]);
    let a = create_account(&mut ledger, AccountCreation { user_id: 1 }).unwrap();
    let b = create_account(&mut ledger, AccountCreation { user_id: 2 }).unwrap();
    assert_ne!(a.account_number, b.account_number);
}

#[test]
fn account_numbers_stay_unique_over_many_accounts() {
    let mut ledger = ledger_with_users(&["alice"]);
    for _ in 0..200 {
        create_account(&mut ledger, AccountCreation { user_id: 1 }).unwrap();
    }
    let accounts = get_accounts(&ledger);
    assert_eq!(accounts.len(), 200);
    for i in 0..accounts.len() {
        for j in (i + 1)..accounts.len() {
            assert_ne!(accounts[i].account_number, accounts[j].account_number);
        }
    }
}

#[test]
fn open_account_takes_the_given_number_and_time() {
    let mut ledger = ledger_with_users(&["alice"]);
    let account = open_account(
        &mut ledger,
        AccountCreation { user_id: 1 },
        "00000000000000000042".to_string(),
        1_700_000_000,
    )
    .unwrap();
    assert_eq!(account.id, Some(1));
    assert_eq!(account.account_number, "00000000000000000042");
    assert_eq!(account.balance, 0);
    assert_eq!(account.created_at, 1_700_000_000);
    assert_eq!(account.updated_at, 1_700_000_000);
}

#[test]
fn open_account_refuses_a_number_in_use() {
    let mut ledger = ledger_with_users(&["alice", "bob"]);
    open_account(&mut ledger, AccountCreation { user_id: 1 }, "123".to_string(), 10).unwrap();
    match open_account(&mut ledger, AccountCreation { user_id: 2 }, "123".to_string(), 11) {
        Err(Error::DataError(message)) => assert_eq!(message, "Account number already exists"),
        other => panic!("expected a data error, got {:?}", other),
    }
    assert_eq!(get_accounts(&ledger).len(), 1);
}

#[test]
fn open_account_refuses_an_empty_number_first() {
    let mut ledger = ledger_with_users(&["alice"]);
    match open_account(&mut ledger, AccountCreation { user_id: 7 }, "".to_string(), 10) {
        Err(Error::InputError(message)) => assert_eq!(message, "Missing required fields"),
        other => panic!("expected an input error, got {:?}", other),
    }
    match open_account(&mut ledger, AccountCreation { user_id: 7 }, "1".to_string(), 10) {
        Err(Error::DataError(message)) => assert_eq!(message, "User not found"),
        other => panic!("expected a data error, got {:?}", other),
    }
    assert!(get_accounts(&ledger).is_empty());
}

#[test]
fn get_account_finds_by_identity_and_by_number() {
    let mut ledger = ledger_with_users(&["alice", "bob"]);
    let a = create_account(&mut ledger, AccountCreation { user_id: 1 }).unwrap();
    let b = create_account(&mut ledger, AccountCreation { user_id: 2 }).unwrap();
    let by_id = get_account(&ledger, 2).unwrap();
    assert_eq!(by_id.account_number, b.account_number);
    assert_eq!(by_id.user_id, 2);
    let by_number = get_account_by_account_number(&ledger, a.account_number.clone()).unwrap();
    assert_eq!(by_number.id, Some(1));
    assert_eq!(by_number.user_id, 1);
    assert_eq!(by_number.balance, 0);
}

#[test]
fn get_account_reports_a_missing_account() {
    let mut ledger = ledger_with_users(&["alice"]);
    create_account(&mut ledger, AccountCreation { user_id: 1 }).unwrap();
    for id in [0, -5, 2, i64::MAX] {
        match get_account(&ledger, id) {
            Err(Error::DataError(message)) => assert_eq!(message, "Account not found"),
            other => panic!("expected a data error, got {:?}", other),
        }
    }
    match get_account_by_account_number(&ledger, "no such number".to_string()) {
        Err(Error::DataError(message)) => assert_eq!(message, "Account not found"),
        other => panic!("expected a data error, got {:?}", other),
    }
}

#[test]
fn account_summary_shows_number_owner_and_time() {
    let mut ledger = ledger_with_users(&["alice"]);
    let account =
        open_account(&mut ledger, AccountCreation { user_id: 1 }, "77".to_string(), 99).unwrap();
    let summary = account.general();
    assert_eq!(summary.account_number, "77");
    assert_eq!(summary.user_id, 1);
    assert_eq!(summary.created_at, 99);
    let listed = get_accounts(&ledger);
    assert_eq!(listed[0].account_number, "77");
    assert_eq!(listed[0].created_at, 99);
}

fn numbers(list: &[&str]) -> Vec<String> {
    list.iter().map(|n| n.to_string()).collect()
}

#[test]
fn first_free_number_skips_the_numbers_in_use() {
    let mut ledger = ledger_with_users(&["alice"]);
    open_account(&mut ledger, AccountCreation { user_id: 1 }, "11".to_string(), 10).unwrap();
    open_account(&mut ledger, AccountCreation { user_id: 1 }, "22".to_string(), 10).unwrap();
    assert_eq!(first_free_number(&ledger, &numbers(&["33", "11"])), Some(0));
    assert_eq!(first_free_number(&ledger, &numbers(&["11", "33", "44"])), Some(1));
    assert_eq!(first_free_number(&ledger, &numbers(&["11", "22", "11", "44"])), Some(3));
    assert_eq!(first_free_number(&ledger, &numbers(&["11", "22", "22"])), None);
    assert_eq!(first_free_number(&ledger, &numbers(&[])), None);
}

#[test]
fn account_gets_the_first_candidate_that_is_free() {
    let mut ledger = ledger_with_users(&["alice", "bob"]);
    open_account(&mut ledger, AccountCreation { user_id: 1 }, "11".to_string(), 10).unwrap();
    open_account(&mut ledger, AccountCreation { user_id: 1 }, "22".to_string(), 10).unwrap();
    let account = open_account_from(
        &mut ledger,
        AccountCreation { user_id: 2 },
        numbers(&["22", "11", "33", "44"]),
        20,
    )
    .unwrap();
    assert_eq!(account.account_number, "33");
    assert_eq!(account.id, Some(3));
    assert_eq!(account.user_id, 2);
    assert_eq!(account.balance, 0);
    assert_eq!(account.created_at, 20);
    let listed = get_accounts(&ledger);
    assert_eq!(listed.len(), 3);
    assert_eq!(listed[2].account_number, "33");
    assert_eq!(listed[2].user_id, 2);
}

#[test]
fn two_requests_with_the_same_first_candidate_get_distinct_numbers() {
    let mut ledger = ledger_with_users(&["alice", "bob"]);
    let a = open_account_from(
        &mut ledger,
        AccountCreation { user_id: 1 },
        numbers(&["55", "66"]),
        20,
    )
    .unwrap();
    let b = open_account_from(
        &mut ledger,
        AccountCreation { user_id: 2 },
        numbers(&["55", "77"]),
        20,
    )
    .unwrap();
    assert_eq!(a.account_number, "55");
    assert_eq!(b.account_number, "77");
}

#[test]
fn no_number_is_found_only_when_every_candidate_is_in_use() {
    let mut ledger = ledger_with_users(&["alice"]);
    open_account(&mut ledger, AccountCreation { user_id: 1 }, "11".to_string(), 10).unwrap();
    open_account(&mut ledger, AccountCreation { user_id: 1 }, "22".to_string(), 10).unwrap();
    match open_account_from(
        &mut ledger,
        AccountCreation { user_id: 1 },
        numbers(&["11", "22", "22", "11", "11", "22", "11", "22"]),
        20,
    ) {
        Err(Error::InternalError(message)) => assert_eq!(message, "No free account number found"),
        other => panic!("expected an internal error, got {:?}", other),
    }
    assert_eq!(get_accounts(&ledger).len(), 2);
    // The last candidate is free: the request is carried out.
    let account = open_account_from(
        &mut ledger,
        AccountCreation { user_id: 1 },
        numbers(&["11", "22", "22", "11", "11", "22", "11", "33"]),
        20,
    )
    .unwrap();
    assert_eq!(account.account_number, "33");
    assert_eq!(get_accounts(&ledger).len(), 3);
}

#[test]
fn an_unknown_owner_is_reported_before_the_candidates_are_tried() {
    let mut ledger = ledger_with_users(&["alice"]);
    open_account(&mut ledger, AccountCreation { user_id: 1 }, "11".to_string(), 10).unwrap();
    for candidates in [numbers(&["11"]), numbers(&["33"]), numbers(&[])] {
        match open_account_from(&mut ledger, AccountCreation { user_id: 9 }, candidates, 20) {
            Err(Error::DataError(message)) => assert_eq!(message, "User not found"),
            other => panic!("expected a data error, got {:?}", other),
        }
    }
    assert_eq!(get_accounts(&ledger).len(), 1);
}

#[test]
fn no_candidate_at_all_finds_no_number() {
    let mut ledger = ledger_with_users(&["alice"]);
    match open_account_from(&mut ledger, AccountCreation { user_id: 1 }, numbers(&[]), 20) {
        Err(Error::InternalError(message)) => assert_eq!(message, "No free account number found"),
        other => panic!("expected an internal error, got {:?}", other),
    }
    assert!(get_accounts(&ledger).is_empty());
}

#[test]
fn an_empty_candidate_is_refused_as_a_missing_field() {
    let mut ledger = ledger_with_users(&["alice"]);
    match open_account_from(&mut ledger, AccountCreation { user_id: 1 }, numbers(&["", "33"]), 20)
    {
        Err(Error::InputError(message)) => assert_eq!(message, "Missing required fields"),
        other => panic!("expected an input error, got {:?}", other),
    }
    assert!(get_accounts(&ledger).is_empty());
}
