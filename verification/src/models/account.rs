use vstd::prelude::*;

verus! {

/// An account with its balance.
#[derive(Debug, PartialEq, Eq)]
pub struct Account {
    /// Assigned when the account is opened.
    pub id: Option<i32>,
    /// Unique among all accounts, and never changed.
    pub account_number: String,
    /// The identity of the user who owns the account.
    pub user_id: i32,
    /// In minor units. A debit lowers it, a credit raises it.
    pub balance: i64,
    /// Seconds since the Unix epoch, UTC.
    pub created_at: i64,
    /// Seconds since the Unix epoch, UTC.
    pub updated_at: i64,
}

/// The mathematical value of an [`Account`].
pub struct AccountView {
    pub id: Option<i32>,
    pub account_number: Seq<char>,
    pub user_id: i32,
    pub balance: i64,
    pub created_at: i64,
    pub updated_at: i64,
}

impl AccountView {
    /// What a listing shows of the account.
    pub open spec fn general(self) -> AccountGeneralView {
        AccountGeneralView {
            account_number: self.account_number,
            user_id: self.user_id,
            created_at: self.created_at,
        }
    }
}

impl View for Account {
    type V = AccountView;

    open spec fn view(&self) -> AccountView {
        AccountView {
            id: self.id,
            account_number: self.account_number@,
            user_id: self.user_id,
            balance: self.balance,
            created_at: self.created_at,
            updated_at: self.updated_at,
        }
    }
}

impl Clone for Account {
    fn clone(&self) -> (copy: Self)
        ensures
            copy@ == self@,
    {
        Account {
            id: self.id,
            account_number: self.account_number.clone(),
            user_id: self.user_id,
            balance: self.balance,
            created_at: self.created_at,
            updated_at: self.updated_at,
        }
    }
}

impl Account {
    /// The summary of the account: the balance is left out.
    pub fn general(&self) -> (summary: AccountGeneral)
        ensures
            summary@ == self@.general(),
    {
        AccountGeneral {
            account_number: self.account_number.clone(),
            user_id: self.user_id,
            created_at: self.created_at,
        }
    }
}

/// What a listing shows of an account. The balance is not part of it.
#[derive(Debug, PartialEq, Eq)]
pub struct AccountGeneral {
    pub account_number: String,
    pub user_id: i32,
    /// Seconds since the Unix epoch, UTC.
    pub created_at: i64,
}

/// The mathematical value of an [`AccountGeneral`].
pub struct AccountGeneralView {
    pub account_number: Seq<char>,
    pub user_id: i32,
    pub created_at: i64,
}

impl View for AccountGeneral {
    type V = AccountGeneralView;

    open spec fn view(&self) -> AccountGeneralView {
        AccountGeneralView {
            account_number: self.account_number@,
            user_id: self.user_id,
            created_at: self.created_at,
        }
    }
}

impl Clone for AccountGeneral {
    fn clone(&self) -> (copy: Self)
        ensures
            copy@ == self@,
    {
        AccountGeneral {
            account_number: self.account_number.clone(),
            user_id: self.user_id,
            created_at: self.created_at,
        }
    }
}

/// A request to open an account for a user.
#[derive(Debug, Clone, Copy, PartialEq, Eq)]
pub struct AccountCreation {
    pub user_id: i32,
}

} // verus!
