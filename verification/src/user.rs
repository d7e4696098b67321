use vstd::prelude::*;
use crate::email::Email;
use crate::password::Password;

verus! {

/// The mathematical content of a stored account: the email key, the secret,
/// and whether a second authentication factor is required.
pub ghost struct UserView {
    pub email: Seq<char>,
    pub password: Seq<char>,
    pub requires_2fa: bool,
}

/// A stored identity: a validated email, a validated password, and the
/// second-factor requirement flag. Immutable once stored; a store rejects
/// re-registration instead of merging.
#[derive(Debug, Clone, PartialEq, Eq)]
pub struct User {
    pub email: Email,
    pub password: Password,
    pub requires_2fa: bool,
}

impl View for User {
    type V = UserView;

    open spec fn view(&self) -> UserView {
        UserView {
            email: self.email@,
            password: self.password@,
            requires_2fa: self.requires_2fa,
        }
    }
}

impl User {
    pub fn new(email: Email, password: Password, requires_2fa: bool) -> (u: User)
        ensures
            u@ == (UserView { email: email@, password: password@, requires_2fa }),
    {
        User { email, password, requires_2fa }
    }
}

} // verus!
