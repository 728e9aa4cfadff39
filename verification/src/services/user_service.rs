use crate::enums::errors::{
    identities_exhausted, missing_fields, user_not_found, username_taken, Error, ErrorView,
};
use crate::history::{step, Request};
use crate::ledger::{Ledger, LedgerView};
use crate::models::user::{User, UserCreation, UserView};
use crate::services::clock::unix_time_now;
use crate::services::credential_service::{credential_of, seal_password};
use crate::services::generation_service::{generate_numeric_string, is_numeric_string};
use vstd::prelude::*;

verus! {

/// The number of digits of the salt that is drawn for a new user.
pub const SALT_LENGTH: usize = 16;

/// Why a registration is turned down, if it is. An empty field is found
/// first, before the ledger is looked at.
pub open spec fn user_rejection(v: LedgerView, username: Seq<char>, password: Seq<char>) -> Option<
    ErrorView,
> {
    if username.len() == 0 || password.len() == 0 {
        Some(missing_fields())
    } else if v.has_username(username) {
        Some(username_taken())
    } else if v.users.len() >= i32::MAX {
        Some(identities_exhausted())
    } else {
        None
    }
}

/// The user that a registration at the time `now` adds to `v`.
pub open spec fn new_user(v: LedgerView, username: Seq<char>, now: i64) -> UserView {
    UserView { id: Some((v.users.len() + 1) as i32), username, created_at: now, updated_at: now }
}

/// All users, in the order of registration.
pub fn get_users(ledger: &Ledger) -> (users: Vec<User>)
    ensures
        users@.len() == ledger@.users.len(),
        forall|k: int| 0 <= k < users@.len() ==> (#[trigger] users@[k])@ == ledger@.users[k],
{
    let mut users: Vec<User> = Vec::new();
    let mut i: usize = 0;
    while i < ledger.user_count()
        invariant
            i <= ledger@.users.len(),
            users@.len() == i,
            forall|k: int| 0 <= k < i ==> (#[trigger] users@[k])@ == ledger@.users[k],
        decreases ledger@.users.len() - i,
    {
        let user = ledger.user_at(i).clone();
        users.push(user);
        i = i + 1;
    }
    users
}

/// The user with the identity `id`.
pub fn get_user(ledger: &Ledger, id: i64) -> (found: Result<User, Error>)
    ensures
        ledger@.has_user(id as int) ==> (found matches Ok(user) && user@ == ledger@.users[id - 1]),
        !ledger@.has_user(id as int) ==> (found matches Err(e) && e@ == user_not_found()),
{
    if id < 1 || id as u64 > ledger.user_count() as u64 {
        return Err(Error::DataError("User not found".to_owned()));
    }
    let index: usize = (id - 1) as usize;
    Ok(ledger.user_at(index).clone())
}

/// Registers a user at the time `now`, storing the password under `salt`.
///
/// The request is turned down exactly when [`user_rejection`] names a reason;
/// the ledger is then left as it was. Otherwise the user is appended with the
/// next identity and the credential is stored beside it.
pub fn register_user(ledger: &mut Ledger, user: UserCreation, salt: String, now: i64) -> (created:
    Result<User, Error>)
    requires
        old(ledger).wf(),
    ensures
        final(ledger).wf(),
        final(ledger)@ == step(
            old(ledger)@,
            Request::Register {
                username: user.username@,
                password: user.password@,
                salt: salt@,
                now,
            },
        ),
        match user_rejection(old(ledger)@, user.username@, user.password@) {
            Some(reason) => {
                &&& created matches Err(e) && e@ == reason
                &&& final(ledger)@ == old(ledger)@
            },
            None => {
                &&& created matches Ok(u) && u@ == new_user(old(ledger)@, user.username@, now)
                &&& final(ledger)@ == old(ledger)@.with_user(
                    new_user(old(ledger)@, user.username@, now),
                    credential_of(salt@, user.password@),
                )
            },
        },
{
    if user.username.as_str().is_empty() || user.password.as_str().is_empty() {
        return Err(Error::InputError("Missing required fields".to_owned()));
    }
    if ledger.has_username(&user.username) {
        return Err(Error::DataError("Username already exists".to_owned()));
    }
    if ledger.user_count() >= i32::MAX as usize {
        return Err(Error::InternalError("No identifier left".to_owned()));
    }
    let id: i32 = (ledger.user_count() + 1) as i32;
    let credential = seal_password(salt, &user.password);
    let row = User { id: Some(id), username: user.username, created_at: now, updated_at: now };
    let created = row.clone();
    ledger.insert_user(row, credential);
    Ok(created)
}

/// Registers a user now, under a salt drawn at random.
///
/// Whether the request is turned down, and why, is as in [`register_user`].
/// Where it is not, the ledger is the one that [`register_user`] leaves for
/// the time that the user shows and for some salt of [`SALT_LENGTH`] digits.
pub fn create_user(ledger: &mut Ledger, user: UserCreation) -> (created: Result<User, Error>)
    requires
        old(ledger).wf(),
    ensures
        final(ledger).wf(),
        created matches Ok(u) ==> u@.created_at >= 0,
        exists|salt: Seq<char>, now: i64|
            final(ledger)@ == #[trigger] step(
                old(ledger)@,
                Request::Register { username: user.username@, password: user.password@, salt, now },
            ),
        match user_rejection(old(ledger)@, user.username@, user.password@) {
            Some(reason) => {
                &&& created matches Err(e) && e@ == reason
                &&& final(ledger)@ == old(ledger)@
            },
            None => {
                &&& created matches Ok(u) && u@ == new_user(
                    old(ledger)@,
                    user.username@,
                    u@.created_at,
                ) && exists|salt: Seq<char>|
                    {
                        &&& salt.len() == SALT_LENGTH
                        &&& is_numeric_string(salt)
                        &&& final(ledger)@ == #[trigger] old(ledger)@.with_user(
                            u@,
                            credential_of(salt, user.password@),
                        )
                    }
            },
        },
{
    let salt = generate_numeric_string(SALT_LENGTH);
    let now = unix_time_now();
    let ghost salt_view = salt@;
    let created = register_user(ledger, user, salt, now);
    proof {
        if created is Ok {
            let u = created->Ok_0;
            assert(final(ledger)@ == old(ledger)@.with_user(
                u@,
                credential_of(salt_view, user.password@),
            ));
        }
    }
    created
}

} // verus!
