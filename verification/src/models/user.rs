use vstd::prelude::*;

verus! {

/// A registered user, as it is shown to callers. The credential is not part
/// of it.
#[derive(Debug, PartialEq, Eq)]
pub struct User {
    /// Assigned when the user is registered.
    pub id: Option<i32>,
    pub username: String,
    /// Seconds since the Unix epoch, UTC.
    pub created_at: i64,
    /// Seconds since the Unix epoch, UTC.
    pub updated_at: i64,
}

/// The mathematical value of a [`User`].
pub struct UserView {
    pub id: Option<i32>,
    pub username: Seq<char>,
    pub created_at: i64,
    pub updated_at: i64,
}

impl View for User {
    type V = UserView;

    open spec fn view(&self) -> UserView {
        UserView {
            id: self.id,
            username: self.username@,
            created_at: self.created_at,
            updated_at: self.updated_at,
        }
    }
}

impl Clone for User {
    fn clone(&self) -> (copy: Self)
        ensures
            copy@ == self@,
    {
        User {
            id: self.id,
            username: self.username.clone(),
            created_at: self.created_at,
            updated_at: self.updated_at,
        }
    }
}

/// A request to register a user.
#[derive(Debug, PartialEq, Eq)]
pub struct UserCreation {
    pub username: String,
    pub password: String,
}

impl Clone for UserCreation {
    fn clone(&self) -> (copy: Self)
        ensures
            copy.username@ == self.username@,
            copy.password@ == self.password@,
    {
        UserCreation { username: self.username.clone(), password: self.password.clone() }
    }
}

} // verus!
