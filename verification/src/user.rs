//! Users and the two requests that speak of them.

use vstd::prelude::*;

verus! {

/// One row of the `users` table: a display name, and the email by which the
/// row is found again.
#[derive(Clone, Debug, PartialEq, Eq)]
pub struct User {
    pub name: String,
    pub email: String,
}

/// The mathematical value of a [`User`].
pub struct UserView {
    pub name: Seq<char>,
    pub email: Seq<char>,
}

impl View for User {
    type V = UserView;

    open spec fn view(&self) -> UserView {
        UserView { name: self.name@, email: self.email@ }
    }
}

/// The body of a registration request.
#[derive(Clone, Debug, PartialEq, Eq)]
pub struct RegisterRequest {
    pub name: String,
    pub email: String,
}

impl View for RegisterRequest {
    type V = UserView;

    /// A registration request is the user it asks to store.
    open spec fn view(&self) -> UserView {
        UserView { name: self.name@, email: self.email@ }
    }
}

/// The body of a login request.
#[derive(Clone, Debug, PartialEq, Eq)]
pub struct LoginRequest {
    pub email: String,
}

impl View for LoginRequest {
    type V = Seq<char>;

    /// A login request is the email it asks for.
    open spec fn view(&self) -> Seq<char> {
        self.email@
    }
}

impl User {
    /// A user with the given name and email.
    pub fn new(name: String, email: String) -> (user: User)
        ensures
            user@ == (UserView { name: name@, email: email@ }),
    {
        User { name, email }
    }
}

impl RegisterRequest {
    /// A request to register `name` under `email`.
    pub fn new(name: String, email: String) -> (request: RegisterRequest)
        ensures
            request@ == (UserView { name: name@, email: email@ }),
    {
        RegisterRequest { name, email }
    }

    /// The row that a successful registration stores.
    pub fn to_user(&self) -> (user: User)
        ensures
            user@ == self@,
    {
        User { name: self.name.clone(), email: self.email.clone() }
    }
}

impl LoginRequest {
    /// A request to log in as `email`.
    pub fn new(email: String) -> (request: LoginRequest)
        ensures
            request@ == email@,
    {
        LoginRequest { email }
    }
}

} // verus!
