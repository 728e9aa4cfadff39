use crate::enums::errors::{
    account_not_found, account_number_taken, identities_exhausted, missing_fields,
    numbers_exhausted, user_not_found, Error, ErrorView,
};
use crate::history::{step, Request};
use crate::ledger::{lemma_with_account_wf, Ledger, LedgerView};
use crate::models::account::{Account, AccountCreation, AccountGeneral, AccountView};
use crate::services::clock::unix_time_now;
use crate::services::generation_service::{generate_numeric_string, is_numeric_string};
use vstd::prelude::*;

verus! {

/// The number of digits of an account number that the ledger draws.
pub const ACCOUNT_NUMBER_LENGTH: usize = 20;

/// How many account numbers are drawn for one account before the ledger
/// gives up.
pub const NUMBER_ATTEMPTS: u32 = 8;

/// Why a new account cannot be opened for the user `user_id`, whatever its
/// number is to be.
pub open spec fn owner_rejection(v: LedgerView, user_id: i32) -> Option<ErrorView> {
    if !v.has_user(user_id as int) {
        Some(user_not_found())
    } else if v.accounts.len() >= i32::MAX {
        Some(identities_exhausted())
    } else {
        None
    }
}

/// Why opening an account under a given number is turned down, if it is. An
/// empty number is found first, before the ledger is looked at.
pub open spec fn account_rejection(v: LedgerView, user_id: i32, account_number: Seq<char>) -> Option<
    ErrorView,
> {
    if account_number.len() == 0 {
        Some(missing_fields())
    } else if owner_rejection(v, user_id) is Some {
        owner_rejection(v, user_id)
    } else if v.has_account_number(account_number) {
        Some(account_number_taken())
    } else {
        None
    }
}

/// The account that is opened in `v` at the time `now`: the next identity,
/// and a balance of zero.
pub open spec fn new_account(v: LedgerView, user_id: i32, account_number: Seq<char>, now: i64) -> AccountView {
    AccountView {
        id: Some((v.accounts.len() + 1) as i32),
        account_number,
        user_id,
        balance: 0,
        created_at: now,
        updated_at: now,
    }
}

/// The texts of a list of strings, in order.
pub open spec fn texts(strings: Seq<String>) -> Seq<Seq<char>> {
    Seq::new(strings.len(), |i: int| strings[i]@)
}

/// Whether `candidates[k]` is the first candidate that no account bears:
/// it is free, and each one before it is in use.
pub open spec fn is_first_free(v: LedgerView, candidates: Seq<Seq<char>>, k: int) -> bool {
    &&& 0 <= k < candidates.len()
    &&& !v.has_account_number(candidates[k])
    &&& forall|j: int| 0 <= j < k ==> v.has_account_number(#[trigger] candidates[j])
}

/// Whether each of the candidates is the number of an account.
pub open spec fn all_in_use(v: LedgerView, candidates: Seq<Seq<char>>) -> bool {
    forall|j: int| 0 <= j < candidates.len() ==> v.has_account_number(#[trigger] candidates[j])
}

/// Whether `number` is the first of the candidates that no account bears.
pub open spec fn is_first_free_number(
    v: LedgerView,
    candidates: Seq<Seq<char>>,
    number: Seq<char>,
) -> bool {
    exists|k: int| #[trigger] is_first_free(v, candidates, k) && candidates[k] == number
}

/// Whether `candidates` is what is drawn for one account: [`NUMBER_ATTEMPTS`]
/// strings of [`ACCOUNT_NUMBER_LENGTH`] digits each.
pub open spec fn are_drawn_numbers(candidates: Seq<Seq<char>>) -> bool {
    &&& candidates.len() == NUMBER_ATTEMPTS
    &&& forall|j: int|
        0 <= j < candidates.len() ==> {
            &&& (#[trigger] candidates[j]).len() == ACCOUNT_NUMBER_LENGTH
            &&& is_numeric_string(candidates[j])
        }
}

/// The summaries of all accounts, in the order of opening.
pub fn get_accounts(ledger: &Ledger) -> (accounts: Vec<AccountGeneral>)
    ensures
        accounts@.len() == ledger@.accounts.len(),
        forall|k: int|
            0 <= k < accounts@.len() ==> (#[trigger] accounts@[k])@
                == ledger@.accounts[k].general(),
{
    let mut accounts: Vec<AccountGeneral> = Vec::new();
    let mut i: usize = 0;
    while i < ledger.account_count()
        invariant
            i <= ledger@.accounts.len(),
            accounts@.len() == i,
            forall|k: int|
                0 <= k < i ==> (#[trigger] accounts@[k])@ == ledger@.accounts[k].general(),
        decreases ledger@.accounts.len() - i,
    {
        let summary = ledger.account_at(i).general();
        accounts.push(summary);
        i = i + 1;
    }
    accounts
}

/// The account with the identity `id`.
pub fn get_account(ledger: &Ledger, id: i64) -> (found: Result<Account, Error>)
    ensures
        ledger@.has_account(id as int) ==> (found matches Ok(account) && account@
            == ledger@.accounts[id - 1]),
        !ledger@.has_account(id as int) ==> (found matches Err(e) && e@ == account_not_found()),
{
    if id < 1 || id as u64 > ledger.account_count() as u64 {
        return Err(Error::DataError("Account not found".to_owned()));
    }
    let index: usize = (id - 1) as usize;
    Ok(ledger.account_at(index).clone())
}

/// The account with the number `account_number`.
pub fn get_account_by_account_number(ledger: &Ledger, account_number: String) -> (found: Result<
    Account,
    Error,
>)
    requires
        ledger.wf(),
    ensures
        ledger@.has_account_number(account_number@) ==> (found matches Ok(account) && account@
            == ledger@.accounts[ledger@.account_index(account_number@)]),
        !ledger@.has_account_number(account_number@) ==> (found matches Err(e) && e@
            == account_not_found()),
{
    match ledger.find_account_number(&account_number) {
        Some(index) => {
            proof {
                ledger@.lemma_account_index(index as int, account_number@);
            }
            Ok(ledger.account_at(index).clone())
        },
        None => Err(Error::DataError("Account not found".to_owned())),
    }
}

/// Opens an account under `account_number` at the time `now`.
///
/// The request is turned down exactly when [`account_rejection`] names a
/// reason; the ledger is then left as it was. Otherwise the account is
/// appended with the next identity and a balance of zero, and returned.
pub fn open_account(
    ledger: &mut Ledger,
    account_creation: AccountCreation,
    account_number: String,
    now: i64,
) -> (opened: Result<Account, Error>)
    requires
        old(ledger).wf(),
    ensures
        final(ledger).wf(),
        final(ledger)@ == step(
            old(ledger)@,
            Request::Open {
                user_id: account_creation.user_id,
                account_number: account_number@,
                now,
            },
        ),
        match account_rejection(old(ledger)@, account_creation.user_id, account_number@) {
            Some(reason) => {
                &&& opened matches Err(e) && e@ == reason
                &&& final(ledger)@ == old(ledger)@
            },
            None => {
                &&& opened matches Ok(a) && a@ == new_account(
                    old(ledger)@,
                    account_creation.user_id,
                    account_number@,
                    now,
                )
                &&& final(ledger)@ == old(ledger)@.with_account(
                    new_account(old(ledger)@, account_creation.user_id, account_number@, now),
                )
            },
        },
{
    if account_number.as_str().is_empty() {
        return Err(Error::InputError("Missing required fields".to_owned()));
    }
    match check_owner(ledger, account_creation.user_id) {
        Some(e) => {
            return Err(e);
        },
        None => {},
    }
    if ledger.find_account_number(&account_number).is_some() {
        return Err(Error::DataError("Account number already exists".to_owned()));
    }
    let id: i32 = (ledger.account_count() + 1) as i32;
    let row = Account {
        id: Some(id),
        account_number,
        user_id: account_creation.user_id,
        balance: 0,
        created_at: now,
        updated_at: now,
    };
    let opened = row.clone();
    ledger.insert_account(row);
    Ok(opened)
}

/// Tells whether an account can be opened for the user `user_id` at all.
fn check_owner(ledger: &Ledger, user_id: i32) -> (refusal: Option<Error>)
    ensures
        match owner_rejection(ledger@, user_id) {
            Some(reason) => refusal matches Some(e) && e@ == reason,
            None => refusal is None,
        },
{
    if user_id < 1 || user_id as u64 > ledger.user_count() as u64 {
        return Some(Error::DataError("User not found".to_owned()));
    }
    if ledger.account_count() >= i32::MAX as usize {
        return Some(Error::InternalError("No identifier left".to_owned()));
    }
    None
}

/// The position of the first of `candidates` that no account bears.
pub fn first_free_number(ledger: &Ledger, candidates: &Vec<String>) -> (choice: Option<usize>)
    ensures
        match choice {
            Some(k) => is_first_free(ledger@, texts(candidates@), k as int),
            None => all_in_use(ledger@, texts(candidates@)),
        },
{
    let mut k: usize = 0;
    while k < candidates.len()
        invariant
            k <= candidates@.len(),
            forall|j: int| 0 <= j < k ==> ledger@.has_account_number(#[trigger] texts(candidates@)[j]),
        decreases candidates@.len() - k,
    {
        if ledger.find_account_number(&candidates[k]).is_none() {
            return Some(k);
        }
        k = k + 1;
    }
    None
}

/// Opens an account at the time `now` under the first of `candidates` that
/// no account bears.
///
/// A user that is not registered, or a full table, is reported as
/// [`owner_rejection`] says, before any candidate is looked at. Otherwise the
/// candidates are tried in order: with a first free one, the outcome is that
/// of [`open_account`] under it; with every one in use, and only then, the
/// request fails for want of a number. A request that fails leaves the ledger
/// as it was.
pub fn open_account_from(
    ledger: &mut Ledger,
    account_creation: AccountCreation,
    candidates: Vec<String>,
    now: i64,
) -> (opened: Result<Account, Error>)
    requires
        old(ledger).wf(),
    ensures
        final(ledger).wf(),
        match owner_rejection(old(ledger)@, account_creation.user_id) {
            Some(reason) => {
                &&& opened matches Err(e) && e@ == reason
                &&& final(ledger)@ == old(ledger)@
            },
            None => {
                &&& all_in_use(old(ledger)@, texts(candidates@)) ==> {
                    &&& opened matches Err(e) && e@ == numbers_exhausted()
                    &&& final(ledger)@ == old(ledger)@
                }
                &&& forall|k: int| #[trigger]
                    is_first_free(old(ledger)@, texts(candidates@), k) ==> match account_rejection(
                        old(ledger)@,
                        account_creation.user_id,
                        candidates@[k]@,
                    ) {
                        Some(reason) => {
                            &&& opened matches Err(e) && e@ == reason
                            &&& final(ledger)@ == old(ledger)@
                        },
                        None => {
                            &&& opened matches Ok(a) && a@ == new_account(
                                old(ledger)@,
                                account_creation.user_id,
                                candidates@[k]@,
                                now,
                            )
                            &&& final(ledger)@ == old(ledger)@.with_account(
                                new_account(
                                    old(ledger)@,
                                    account_creation.user_id,
                                    candidates@[k]@,
                                    now,
                                ),
                            )
                        },
                    }
            },
        },
{
    match check_owner(ledger, account_creation.user_id) {
        Some(e) => {
            return Err(e);
        },
        None => {},
    }
    match first_free_number(ledger, &candidates) {
        Some(k) => {
            proof {
                lemma_first_free_is_one(ledger@, texts(candidates@), k as int);
            }
            let account_number = candidates[k].clone();
            open_account(ledger, account_creation, account_number, now)
        },
        None => {
            proof {
                lemma_all_in_use_has_no_free(ledger@, texts(candidates@));
            }
            Err(Error::InternalError("No free account number found".to_owned()))
        },
    }
}

/// There is one first free candidate at most.
pub proof fn lemma_first_free_is_one(v: LedgerView, candidates: Seq<Seq<char>>, k: int)
    requires
        is_first_free(v, candidates, k),
    ensures
        !all_in_use(v, candidates),
        forall|other: int| #[trigger] is_first_free(v, candidates, other) ==> other == k,
{
    assert forall|other: int| #[trigger] is_first_free(v, candidates, other) implies other == k by {
        if other < k {
            assert(v.has_account_number(candidates[other]));
        } else if k < other {
            assert(v.has_account_number(candidates[k]));
        }
    }
}

/// Where every candidate is in use, none is the first free one.
pub proof fn lemma_all_in_use_has_no_free(v: LedgerView, candidates: Seq<Seq<char>>)
    requires
        all_in_use(v, candidates),
    ensures
        forall|k: int| !#[trigger] is_first_free(v, candidates, k),
{
}

/// Opens an account for a user now, under a number drawn at random.
///
/// A user that is not registered, or a full table, is reported as
/// [`owner_rejection`] says. Otherwise [`NUMBER_ATTEMPTS`] numbers of
/// [`ACCOUNT_NUMBER_LENGTH`] digits are drawn and handed to
/// [`open_account_from`]: the account gets the first of them that no account
/// bears, and the request fails only where each of them is in use, which
/// cannot happen while there is no account. A request that fails leaves the
/// ledger as it was.
pub fn create_account(ledger: &mut Ledger, account_creation: AccountCreation) -> (opened: Result<
    Account,
    Error,
>)
    requires
        old(ledger).wf(),
    ensures
        final(ledger).wf(),
        opened matches Ok(a) ==> a@.created_at >= 0,
        opened is Ok ==> final(ledger)@ == step(
            old(ledger)@,
            Request::Open {
                user_id: account_creation.user_id,
                account_number: opened->Ok_0@.account_number,
                now: opened->Ok_0@.created_at,
            },
        ),
        match owner_rejection(old(ledger)@, account_creation.user_id) {
            Some(reason) => {
                &&& opened matches Err(e) && e@ == reason
                &&& final(ledger)@ == old(ledger)@
            },
            None => exists|candidates: Seq<Seq<char>>| #[trigger]
                are_drawn_numbers(candidates) && match opened {
                    Ok(a) => {
                        &&& is_first_free_number(old(ledger)@, candidates, a@.account_number)
                        &&& a@ == new_account(
                            old(ledger)@,
                            account_creation.user_id,
                            a@.account_number,
                            a@.created_at,
                        )
                        &&& a@.account_number.len() == ACCOUNT_NUMBER_LENGTH
                        &&& is_numeric_string(a@.account_number)
                        &&& !old(ledger)@.has_account_number(a@.account_number)
                        &&& final(ledger)@ == old(ledger)@.with_account(a@)
                    },
                    Err(e) => {
                        &&& all_in_use(old(ledger)@, candidates)
                        &&& e@ == numbers_exhausted()
                        &&& old(ledger)@.accounts.len() > 0
                        &&& final(ledger)@ == old(ledger)@
                    },
                },
        },
{
    match check_owner(ledger, account_creation.user_id) {
        Some(e) => {
            return Err(e);
        },
        None => {},
    }
    let candidates = draw_account_numbers();
    let now = unix_time_now();
    let ghost strings = candidates@;
    let ghost drawn = texts(strings);
    let opened = open_account_from(ledger, account_creation, candidates, now);
    proof {
        if all_in_use(old(ledger)@, drawn) {
            assert(old(ledger)@.has_account_number(drawn[0]));
        } else {
            lemma_some_first_free(old(ledger)@, drawn);
            let k = choose|k: int| is_first_free(old(ledger)@, drawn, k);
            assert(is_first_free(old(ledger)@, drawn, k));
            assert(drawn[k] == strings[k]@);
            assert(drawn[k].len() == ACCOUNT_NUMBER_LENGTH);
            assert(is_first_free_number(old(ledger)@, drawn, drawn[k]));
        }
        assert(are_drawn_numbers(drawn));
    }
    opened
}

/// Where not every candidate is in use, one of them is the first free one.
pub proof fn lemma_some_first_free(v: LedgerView, candidates: Seq<Seq<char>>)
    requires
        !all_in_use(v, candidates),
    ensures
        exists|k: int| is_first_free(v, candidates, k),
    decreases candidates.len(),
{
    let free = choose|j: int| 0 <= j < candidates.len() && !v.has_account_number(candidates[j]);
    let shorter = candidates.take(free);
    if all_in_use(v, shorter) {
        assert forall|j: int| 0 <= j < free implies v.has_account_number(
            #[trigger] candidates[j],
        ) by {
            assert(shorter[j] == candidates[j]);
        }
        assert(is_first_free(v, candidates, free));
    } else {
        lemma_some_first_free(v, shorter);
        let k = choose|k: int| is_first_free(v, shorter, k);
        assert forall|j: int| 0 <= j < k implies v.has_account_number(
            #[trigger] candidates[j],
        ) by {
            assert(shorter[j] == candidates[j]);
        }
        assert(shorter[k] == candidates[k]);
        assert(is_first_free(v, candidates, k));
    }
}

/// A number that was given to an account is not given again: once an account
/// is opened under the first candidate of one request, a later request that
/// is handed the same first candidate finds it in use, and so takes a later
/// candidate or fails for want of a number.
pub proof fn lemma_taken_number_is_not_free(
    v: LedgerView,
    user_id: i32,
    number: Seq<char>,
    now: i64,
    candidates: Seq<Seq<char>>,
)
    requires
        v.wf(),
        account_rejection(v, user_id, number) is None,
        candidates.len() > 0,
        candidates[0] == number,
    ensures
        v.with_account(new_account(v, user_id, number, now)).wf(),
        !is_first_free(v.with_account(new_account(v, user_id, number, now)), candidates, 0),
        forall|k: int| #[trigger]
            is_first_free(v.with_account(new_account(v, user_id, number, now)), candidates, k)
                ==> candidates[k] != number,
{
    let account = new_account(v, user_id, number, now);
    let w = v.with_account(account);
    lemma_with_account_wf(v, account);
    assert(w.accounts[v.accounts.len() as int].account_number == number);
    assert(w.has_account_number(number));
}

/// The numbers that are drawn for one account.
fn draw_account_numbers() -> (candidates: Vec<String>)
    ensures
        are_drawn_numbers(texts(candidates@)),
{
    let mut candidates: Vec<String> = Vec::new();
    let mut attempt: u32 = 0;
    while attempt < NUMBER_ATTEMPTS
        invariant
            attempt <= NUMBER_ATTEMPTS,
            candidates@.len() == attempt,
            forall|j: int|
                0 <= j < candidates@.len() ==> {
                    &&& (#[trigger] candidates@[j])@.len() == ACCOUNT_NUMBER_LENGTH
                    &&& is_numeric_string(candidates@[j]@)
                },
        decreases NUMBER_ATTEMPTS - attempt,
    {
        let number = generate_numeric_string(ACCOUNT_NUMBER_LENGTH);
        candidates.push(number);
        attempt = attempt + 1;
    }
    assert forall|j: int| 0 <= j < texts(candidates@).len() implies {
        &&& (#[trigger] texts(candidates@)[j]).len() == ACCOUNT_NUMBER_LENGTH
        &&& is_numeric_string(texts(candidates@)[j])
    } by {
        assert(texts(candidates@)[j] == candidates@[j]@);
    }
    candidates
}

} // verus!
