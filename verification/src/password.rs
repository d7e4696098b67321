use vstd::prelude::*;
use vstd::utf8::encode_utf8;

verus! {

/// A password is accepted when it is at least eight code units long — the
/// raw UTF-8 byte length of the input as given, with no normalization. No
/// upper bound and no character-class requirement is imposed. The cast
/// mirrors `str::len`: a string held in memory never exceeds `usize` bytes.
pub open spec fn valid_password(s: Seq<char>) -> bool {
    encode_utf8(s).len() as usize >= 8
}

/// A validated password. The wrapped string is at least eight bytes long;
/// values exist only through [`Password::parse`] and are never mutated.
/// Stored and compared as plaintext: a deliberate simplification of this
/// reference design, to be replaced by a one-way hash comparison in any real
/// deployment.
#[derive(Debug, Clone, Eq)]
pub struct Password(String);

impl View for Password {
    type V = Seq<char>;

    closed spec fn view(&self) -> Seq<char> {
        self.0@
    }
}

#[derive(Debug, Clone, Copy, PartialEq, Eq, Structural)]
pub enum PasswordError {
    InvalidPassword,
}

impl Password {
    /// Accepts exactly the strings satisfying [`valid_password`] and wraps
    /// them unchanged; everything else is rejected as `InvalidPassword`.
    pub fn parse(password: String) -> (r: Result<Self, PasswordError>)
        ensures
            match r {
                Ok(p) => valid_password(password@) && p@ == password@,
                Err(err) => !valid_password(password@) && err == PasswordError::InvalidPassword,
            },
    {
        if password.as_str().len() >= 8 {
            Ok(Password(password))
        } else {
            Err(PasswordError::InvalidPassword)
        }
    }

    /// Borrows the wrapped string unchanged.
    pub fn as_str(&self) -> (r: &str)
        ensures
            r@ == self@,
    {
        self.0.as_str()
    }
}

impl PartialEq for Password {
    fn eq(&self, other: &Password) -> (r: bool) {
        self.0 == other.0
    }
}

impl vstd::std_specs::cmp::PartialEqSpecImpl for Password {
    open spec fn obeys_eq_spec() -> bool {
        true
    }

    open spec fn eq_spec(&self, other: &Password) -> bool {
        self@ == other@
    }
}

} // verus!
