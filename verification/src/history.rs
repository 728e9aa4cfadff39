//! What holds of a ledger over time: the ledger after a sequence of requests,
//! and the laws of that sequence.

use crate::ledger::{
    lemma_with_account_wf, lemma_with_transaction_wf, lemma_with_user_wf, total_of, LedgerView,
};
use crate::models::account::AccountView;
use crate::models::transaction::TransactionView;
use crate::services::account_service::{account_rejection, new_account};
use crate::services::credential_service::credential_of;
use crate::services::transaction_service::{new_transaction, transaction_rejection};
use crate::services::user_service::{new_user, user_rejection};
use vstd::prelude::*;
use vstd::seq_lib::lemma_fold_left_permutation;

verus! {

/// One call of a function that may change the ledger, with everything that
/// decides its outcome.
pub enum Request {
    /// A registration, see `register_user`.
    Register { username: Seq<char>, password: Seq<char>, salt: Seq<char>, now: i64 },
    /// The opening of an account, see `open_account`.
    Open { user_id: i32, account_number: Seq<char>, now: i64 },
    /// A movement on an account, see `apply_transaction`.
    Apply { account_number: Seq<char>, seller: Seq<char>, amount: i64, now: i64 },
}

/// Whether the ledger `v` carries the request out.
pub open spec fn accepted(v: LedgerView, request: Request) -> bool {
    match request {
        Request::Register { username, password, salt, now } => user_rejection(
            v,
            username,
            password,
        ) is None,
        Request::Open { user_id, account_number, now } => account_rejection(
            v,
            user_id,
            account_number,
        ) is None,
        Request::Apply { account_number, seller, amount, now } => transaction_rejection(
            v,
            account_number,
            seller,
            amount,
        ) is None,
    }
}

/// The ledger after one request: changed as the request says where it is
/// carried out, and as it was where it is turned down.
pub open spec fn step(v: LedgerView, request: Request) -> LedgerView {
    if !accepted(v, request) {
        v
    } else {
        match request {
            Request::Register { username, password, salt, now } => v.with_user(
                new_user(v, username, now),
                credential_of(salt, password),
            ),
            Request::Open { user_id, account_number, now } => v.with_account(
                new_account(v, user_id, account_number, now),
            ),
            Request::Apply { account_number, seller, amount, now } => v.with_transaction(
                v.account_index(account_number),
                new_transaction(v, account_number, seller, amount, now),
            ),
        }
    }
}

/// The ledger after a sequence of requests, served one after the other.
pub open spec fn replay(v: LedgerView, requests: Seq<Request>) -> LedgerView
    decreases requests.len(),
{
    if requests.len() == 0 {
        v
    } else {
        step(replay(v, requests.drop_last()), requests.last())
    }
}

/// Whether `later` holds every row of `earlier` where it was: rows are only
/// appended, and of an account nothing but the balance changes.
pub open spec fn extends(earlier: LedgerView, later: LedgerView) -> bool {
    &&& earlier.users.len() <= later.users.len()
    &&& later.users.take(earlier.users.len() as int) == earlier.users
    &&& earlier.credentials.len() <= later.credentials.len()
    &&& later.credentials.take(earlier.credentials.len() as int) == earlier.credentials
    &&& earlier.accounts.len() <= later.accounts.len()
    &&& forall|i: int|
        0 <= i < earlier.accounts.len() ==> (#[trigger] later.accounts[i]) == (AccountView {
            balance: later.accounts[i].balance,
            ..earlier.accounts[i]
        })
    &&& earlier.transactions.len() <= later.transactions.len()
    &&& later.transactions.take(earlier.transactions.len() as int) == earlier.transactions
}

/// The total of a log in two parts is the sum of the totals of the parts.
pub proof fn lemma_total_of_concat(
    first: Seq<TransactionView>,
    second: Seq<TransactionView>,
    number: Seq<char>,
)
    ensures
        total_of(first + second, number) == total_of(first, number) + total_of(second, number),
    decreases second.len(),
{
    if second.len() == 0 {
    } else {
        lemma_total_of_concat(first, second.drop_last(), number);
        assert((first + second).drop_last() =~= first + second.drop_last());
    }
}

/// Every request, carried out or turned down, leaves a well-formed ledger
/// well formed.
pub proof fn lemma_step_wf(v: LedgerView, request: Request)
    requires
        v.wf(),
    ensures
        step(v, request).wf(),
{
    if accepted(v, request) {
        match request {
            Request::Register { username, password, salt, now } => {
                lemma_with_user_wf(v, new_user(v, username, now), credential_of(salt, password));
            },
            Request::Open { user_id, account_number, now } => {
                lemma_with_account_wf(v, new_account(v, user_id, account_number, now));
            },
            Request::Apply { account_number, seller, amount, now } => {
                let index = v.account_index(account_number);
                v.lemma_account_index_found(account_number);
                lemma_with_transaction_wf(
                    v,
                    index,
                    new_transaction(v, account_number, seller, amount, now),
                );
            },
        }
    }
}

/// A request that is turned down changes nothing: no row is added to any
/// table, the log included, and no balance moves.
pub proof fn lemma_rejected_request_changes_nothing(v: LedgerView, request: Request)
    requires
        !accepted(v, request),
    ensures
        step(v, request) == v,
{
}

/// No request removes or rewrites a row: users, credentials and the log only
/// grow at their end, and an account keeps its identity, number, owner and
/// timestamps for ever.
pub proof fn lemma_step_extends(v: LedgerView, request: Request)
    requires
        v.wf(),
    ensures
        extends(v, step(v, request)),
{
    let w = step(v, request);
    assert(w.users.take(v.users.len() as int) =~= v.users);
    assert(w.credentials.take(v.credentials.len() as int) =~= v.credentials);
    assert(w.transactions.take(v.transactions.len() as int) =~= v.transactions);
    if accepted(v, request) {
        match request {
            Request::Apply { account_number, seller, amount, now } => {
                v.lemma_account_index_found(account_number);
            },
            _ => {},
        }
    }
}

/// [`extends`] is transitive.
pub proof fn lemma_extends_transitive(a: LedgerView, b: LedgerView, c: LedgerView)
    requires
        extends(a, b),
        extends(b, c),
    ensures
        extends(a, c),
{
    assert(c.users.take(a.users.len() as int) =~= c.users.take(b.users.len() as int).take(
        a.users.len() as int,
    ));
    assert(c.credentials.take(a.credentials.len() as int) =~= c.credentials.take(
        b.credentials.len() as int,
    ).take(a.credentials.len() as int));
    assert(c.transactions.take(a.transactions.len() as int) =~= c.transactions.take(
        b.transactions.len() as int,
    ).take(a.transactions.len() as int));
}

/// Any sequence of requests leaves a well-formed ledger well formed, and
/// only extends it.
pub proof fn lemma_replay_wf(v: LedgerView, requests: Seq<Request>)
    requires
        v.wf(),
    ensures
        replay(v, requests).wf(),
        extends(v, replay(v, requests)),
    decreases requests.len(),
{
    if requests.len() == 0 {
        assert(v.users.take(v.users.len() as int) =~= v.users);
        assert(v.credentials.take(v.credentials.len() as int) =~= v.credentials);
        assert(v.transactions.take(v.transactions.len() as int) =~= v.transactions);
    } else {
        let before = replay(v, requests.drop_last());
        lemma_replay_wf(v, requests.drop_last());
        lemma_step_wf(before, requests.last());
        lemma_step_extends(before, requests.last());
        lemma_extends_transitive(v, before, step(before, requests.last()));
    }
}

/// The balance law. After any sequence of requests, some carried out and some
/// turned down, the balance of every account is its balance before, less the
/// amounts of the transactions that were committed against it meanwhile:
/// the records that the log has gained.
pub proof fn lemma_balance_after_replay(v: LedgerView, requests: Seq<Request>, index: int)
    requires
        v.wf(),
        0 <= index < v.accounts.len(),
    ensures
        index < replay(v, requests).accounts.len(),
        replay(v, requests).accounts[index].account_number == v.accounts[index].account_number,
        v.transactions.len() <= replay(v, requests).transactions.len(),
        replay(v, requests).accounts[index].balance == v.accounts[index].balance - total_of(
            replay(v, requests).transactions.skip(v.transactions.len() as int),
            v.accounts[index].account_number,
        ),
{
    let w = replay(v, requests);
    lemma_replay_wf(v, requests);
    let committed = w.transactions.skip(v.transactions.len() as int);
    assert(w.transactions =~= w.transactions.take(v.transactions.len() as int) + committed);
    lemma_total_of_concat(v.transactions, committed, v.accounts[index].account_number);
}

/// Whatever was asked of a ledger that began empty, the balance of each of
/// its accounts is zero less all that the log holds for the account, and it
/// is not negative.
pub proof fn lemma_balance_is_total(requests: Seq<Request>, index: int)
    requires
        0 <= index < replay(LedgerView::empty(), requests).accounts.len(),
    ensures
        replay(LedgerView::empty(), requests).accounts[index].balance == 0 - total_of(
            replay(LedgerView::empty(), requests).transactions,
            replay(LedgerView::empty(), requests).accounts[index].account_number,
        ),
        replay(LedgerView::empty(), requests).accounts[index].balance >= 0,
{
    lemma_replay_wf(LedgerView::empty(), requests);
}

/// Whatever was asked of a ledger that began empty, it is well formed.
pub proof fn lemma_reachable_wf(requests: Seq<Request>)
    ensures
        replay(LedgerView::empty(), requests).wf(),
{
    lemma_replay_wf(LedgerView::empty(), requests);
}

/// Whatever was asked of a ledger that began empty, no two of its accounts
/// bear the same account number.
pub proof fn lemma_account_numbers_distinct(requests: Seq<Request>, i: int, j: int)
    requires
        0 <= i < replay(LedgerView::empty(), requests).accounts.len(),
        0 <= j < replay(LedgerView::empty(), requests).accounts.len(),
        i != j,
    ensures
        replay(LedgerView::empty(), requests).accounts[i].account_number != replay(
            LedgerView::empty(),
            requests,
        ).accounts[j].account_number,
{
    lemma_replay_wf(LedgerView::empty(), requests);
}

/// What a request asks to take from the account `number`: its amount where it
/// is a movement on that account, and nothing otherwise.
pub open spec fn amount_for(request: Request, number: Seq<char>) -> int {
    match request {
        Request::Apply { account_number, seller, amount, now } => if account_number == number {
            amount as int
        } else {
            0
        },
        _ => 0,
    }
}

/// The sum of what the requests ask to take from the account `number`.
pub open spec fn requested_total(requests: Seq<Request>, number: Seq<char>) -> int
    decreases requests.len(),
{
    if requests.len() == 0 {
        0
    } else {
        requested_total(requests.drop_last(), number) + amount_for(requests.last(), number)
    }
}

/// Whether each of the requests is carried out when they are served in this
/// order, beginning with the ledger `v`.
pub open spec fn all_accepted(v: LedgerView, requests: Seq<Request>) -> bool
    decreases requests.len(),
{
    requests.len() == 0 || (all_accepted(v, requests.drop_last()) && accepted(
        replay(v, requests.drop_last()),
        requests.last(),
    ))
}

/// The sum of what is asked of an account does not depend on the order of
/// the requests.
pub proof fn lemma_requested_total_any_order(
    first: Seq<Request>,
    second: Seq<Request>,
    number: Seq<char>,
)
    requires
        first.to_multiset() == second.to_multiset(),
    ensures
        requested_total(first, number) == requested_total(second, number),
{
    let f = |sum: int, request: Request| sum + amount_for(request, number);
    lemma_requested_total_is_fold(first, number);
    lemma_requested_total_is_fold(second, number);
    lemma_fold_left_permutation(first, second, f, 0int);
}

proof fn lemma_requested_total_is_fold(requests: Seq<Request>, number: Seq<char>)
    ensures
        requested_total(requests, number) == requests.fold_left(
            0int,
            |sum: int, request: Request| sum + amount_for(request, number),
        ),
    decreases requests.len(),
{
    if requests.len() > 0 {
        lemma_requested_total_is_fold(requests.drop_last(), number);
    }
}

/// Where every request is carried out, none is lost: the balance of each
/// account ends as its balance before, less all that was asked of it.
pub proof fn lemma_balance_when_all_accepted(v: LedgerView, requests: Seq<Request>, index: int)
    requires
        v.wf(),
        0 <= index < v.accounts.len(),
        all_accepted(v, requests),
    ensures
        index < replay(v, requests).accounts.len(),
        replay(v, requests).accounts[index].balance == v.accounts[index].balance
            - requested_total(requests, v.accounts[index].account_number),
    decreases requests.len(),
{
    if requests.len() > 0 {
        let before = replay(v, requests.drop_last());
        lemma_balance_when_all_accepted(v, requests.drop_last(), index);
        lemma_replay_wf(v, requests.drop_last());
        match requests.last() {
            Request::Apply { account_number, seller, amount, now } => {
                before.lemma_account_index_found(account_number);
            },
            _ => {},
        }
    }
}

/// The order in which requests are served does not show in the balances, as
/// long as each request is carried out in either order: whichever of them
/// came first, every account ends with the same balance.
pub proof fn lemma_order_of_commits_is_immaterial(
    v: LedgerView,
    first: Seq<Request>,
    second: Seq<Request>,
    index: int,
)
    requires
        v.wf(),
        0 <= index < v.accounts.len(),
        first.to_multiset() == second.to_multiset(),
        all_accepted(v, first),
        all_accepted(v, second),
    ensures
        replay(v, first).accounts[index].balance == replay(v, second).accounts[index].balance,
{
    lemma_balance_when_all_accepted(v, first, index);
    lemma_balance_when_all_accepted(v, second, index);
    lemma_requested_total_any_order(first, second, v.accounts[index].account_number);
}

/// The records that the requests add to the log when they are served in this
/// order, beginning with the ledger `v`: one for each movement that is carried
/// out, in the order of the requests, and none for a request that is turned
/// down.
pub open spec fn committed_records(v: LedgerView, requests: Seq<Request>) -> Seq<TransactionView>
    decreases requests.len(),
{
    if requests.len() == 0 {
        Seq::empty()
    } else {
        let before = replay(v, requests.drop_last());
        let earlier = committed_records(v, requests.drop_last());
        match requests.last() {
            Request::Apply { account_number, seller, amount, now } => if accepted(
                before,
                requests.last(),
            ) {
                earlier.push(new_transaction(before, account_number, seller, amount, now))
            } else {
                earlier
            },
            _ => earlier,
        }
    }
}

/// The log law. After any sequence of requests the log is the log before,
/// followed by one record for each movement that was carried out, in the
/// order in which they were served. A request that was turned down has no
/// record in it.
pub proof fn lemma_log_after_replay(v: LedgerView, requests: Seq<Request>)
    ensures
        replay(v, requests).transactions == v.transactions + committed_records(v, requests),
    decreases requests.len(),
{
    if requests.len() == 0 {
        assert(v.transactions + committed_records(v, requests) =~= v.transactions);
    } else {
        lemma_log_after_replay(v, requests.drop_last());
        assert(replay(v, requests).transactions =~= v.transactions + committed_records(
            v,
            requests,
        ));
    }
}

/// The sum of what the requests take from the account `number` when they are
/// served in this order, beginning with the ledger `v`: the amounts of the
/// movements on that account that are carried out.
pub open spec fn carried_out_total(v: LedgerView, requests: Seq<Request>, number: Seq<char>) -> int
    decreases requests.len(),
{
    if requests.len() == 0 {
        0
    } else {
        carried_out_total(v, requests.drop_last(), number) + if accepted(
            replay(v, requests.drop_last()),
            requests.last(),
        ) {
            amount_for(requests.last(), number)
        } else {
            0
        }
    }
}

/// After any sequence of requests, the balance of every account is its
/// balance before, less the amounts of the movements on it that were carried
/// out. A movement that was turned down takes nothing.
pub proof fn lemma_balance_after_requests(v: LedgerView, requests: Seq<Request>, index: int)
    requires
        v.wf(),
        0 <= index < v.accounts.len(),
    ensures
        index < replay(v, requests).accounts.len(),
        replay(v, requests).accounts[index].balance == v.accounts[index].balance
            - carried_out_total(v, requests, v.accounts[index].account_number),
    decreases requests.len(),
{
    if requests.len() > 0 {
        let before = replay(v, requests.drop_last());
        lemma_balance_after_requests(v, requests.drop_last(), index);
        lemma_replay_wf(v, requests.drop_last());
        if accepted(before, requests.last()) {
            match requests.last() {
                Request::Apply { account_number, seller, amount, now } => {
                    before.lemma_account_index_found(account_number);
                },
                _ => {},
            }
        }
    }
}

} // verus!
