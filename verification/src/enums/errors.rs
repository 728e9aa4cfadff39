use vstd::prelude::*;

verus! {

/// Why an operation was turned down.
///
/// `InputError`: a required field is missing or empty; nothing was looked up.
/// `DataError`: the request contradicts what is stored (a name that is taken,
/// a record that does not exist, a debit beyond the balance).
/// `InternalError`: the ledger cannot serve the request now (an identifier
/// space is used up, no free account number was found, a balance would leave
/// the range of its type).
#[derive(Debug, PartialEq, Eq)]
pub enum Error {
    InputError(String),
    DataError(String),
    InternalError(String),
}

/// The mathematical value of an [`Error`]: its class and its message.
pub enum ErrorView {
    InputError(Seq<char>),
    DataError(Seq<char>),
    InternalError(Seq<char>),
}

impl View for Error {
    type V = ErrorView;

    open spec fn view(&self) -> ErrorView {
        match *self {
            Error::InputError(m) => ErrorView::InputError(m@),
            Error::DataError(m) => ErrorView::DataError(m@),
            Error::InternalError(m) => ErrorView::InternalError(m@),
        }
    }
}

impl ErrorView {
    /// The text that the error carries.
    pub open spec fn message(self) -> Seq<char> {
        match self {
            ErrorView::InputError(m) => m,
            ErrorView::DataError(m) => m,
            ErrorView::InternalError(m) => m,
        }
    }
}

/// A required field was empty.
pub open spec fn missing_fields() -> ErrorView {
    ErrorView::InputError("Missing required fields"@)
}

/// The user name is already registered.
pub open spec fn username_taken() -> ErrorView {
    ErrorView::DataError("Username already exists"@)
}

/// No user has the given identity.
pub open spec fn user_not_found() -> ErrorView {
    ErrorView::DataError("User not found"@)
}

/// No account has the given identity or number.
pub open spec fn account_not_found() -> ErrorView {
    ErrorView::DataError("Account not found"@)
}

/// The account number is already in use.
pub open spec fn account_number_taken() -> ErrorView {
    ErrorView::DataError("Account number already exists"@)
}

/// A debit is larger than the balance it is drawn from.
pub open spec fn insufficient_funds() -> ErrorView {
    ErrorView::DataError("Insufficient funds"@)
}

/// A table has handed out its last identity.
pub open spec fn identities_exhausted() -> ErrorView {
    ErrorView::InternalError("No identifier left"@)
}

/// The new balance does not fit the balance type.
pub open spec fn balance_out_of_range() -> ErrorView {
    ErrorView::InternalError("Balance out of range"@)
}

/// Every attempt at a fresh account number met one that is in use.
pub open spec fn numbers_exhausted() -> ErrorView {
    ErrorView::InternalError("No free account number found"@)
}

impl Error {
    /// The message of the error, as it is shown to a caller.
    pub fn to_string(&self) -> (text: String)
        ensures
            text@ == self@.message(),
    {
        match self {
            Error::InputError(m) => m.clone(),
            Error::DataError(m) => m.clone(),
            Error::InternalError(m) => m.clone(),
        }
    }
}

} // verus!
