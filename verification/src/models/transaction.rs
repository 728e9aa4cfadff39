use vstd::prelude::*;

verus! {

/// A committed movement on an account. Once written it never changes.
#[derive(Debug, PartialEq, Eq)]
pub struct Transaction {
    /// Assigned at commit; later commits get larger identities.
    pub id: Option<i32>,
    pub account_number: String,
    /// The counterparty of the movement.
    pub seller: String,
    /// In minor units. Positive: a debit, taken from the balance. Negative: a
    /// credit, added to it.
    pub amount: i64,
    /// Seconds since the Unix epoch, UTC.
    pub created_at: i64,
    /// Seconds since the Unix epoch, UTC.
    pub updated_at: i64,
}

/// The mathematical value of a [`Transaction`].
pub struct TransactionView {
    pub id: Option<i32>,
    pub account_number: Seq<char>,
    pub seller: Seq<char>,
    pub amount: i64,
    pub created_at: i64,
    pub updated_at: i64,
}

impl TransactionView {
    /// The record without its timestamps.
    pub open spec fn general(self) -> TransactionGeneralView {
        TransactionGeneralView {
            id: self.id,
            account_number: self.account_number,
            seller: self.seller,
            amount: self.amount,
        }
    }
}

impl View for Transaction {
    type V = TransactionView;

    open spec fn view(&self) -> TransactionView {
        TransactionView {
            id: self.id,
            account_number: self.account_number@,
            seller: self.seller@,
            amount: self.amount,
            created_at: self.created_at,
            updated_at: self.updated_at,
        }
    }
}

impl Clone for Transaction {
    fn clone(&self) -> (copy: Self)
        ensures
            copy@ == self@,
    {
        Transaction {
            id: self.id,
            account_number: self.account_number.clone(),
            seller: self.seller.clone(),
            amount: self.amount,
            created_at: self.created_at,
            updated_at: self.updated_at,
        }
    }
}

impl Transaction {
    /// The record as a listing shows it: without its timestamps.
    pub fn general(&self) -> (summary: TransactionGeneral)
        ensures
            summary@ == self@.general(),
    {
        TransactionGeneral {
            id: self.id,
            account_number: self.account_number.clone(),
            seller: self.seller.clone(),
            amount: self.amount,
        }
    }
}

/// A committed movement without its timestamps.
#[derive(Debug, PartialEq, Eq)]
pub struct TransactionGeneral {
    pub id: Option<i32>,
    pub account_number: String,
    pub seller: String,
    pub amount: i64,
}

/// The mathematical value of a [`TransactionGeneral`].
pub struct TransactionGeneralView {
    pub id: Option<i32>,
    pub account_number: Seq<char>,
    pub seller: Seq<char>,
    pub amount: i64,
}

impl View for TransactionGeneral {
    type V = TransactionGeneralView;

    open spec fn view(&self) -> TransactionGeneralView {
        TransactionGeneralView {
            id: self.id,
            account_number: self.account_number@,
            seller: self.seller@,
            amount: self.amount,
        }
    }
}

impl Clone for TransactionGeneral {
    fn clone(&self) -> (copy: Self)
        ensures
            copy@ == self@,
    {
        TransactionGeneral {
            id: self.id,
            account_number: self.account_number.clone(),
            seller: self.seller.clone(),
            amount: self.amount,
        }
    }
}

/// A request to move money on an account.
#[derive(Debug, PartialEq, Eq)]
pub struct TransactionCreation {
    pub account_number: String,
    /// The counterparty of the movement.
    pub seller: String,
    /// In minor units. Positive: a debit. Negative: a credit.
    pub amount: i64,
}

impl Clone for TransactionCreation {
    fn clone(&self) -> (copy: Self)
        ensures
            copy.account_number@ == self.account_number@,
            copy.seller@ == self.seller@,
            copy.amount == self.amount,
    {
        TransactionCreation {
            account_number: self.account_number.clone(),
            seller: self.seller.clone(),
            amount: self.amount,
        }
    }
}

} // verus!
