use vstd::prelude::*;
use vstd::string::StrSliceExecFns;

verus! {

/// An email string is accepted when it is non-empty and contains an `@`.
/// Deliberately permissive: no domain check, no rejection of repeated `@`,
/// and no normalization — two strings differing only in case are distinct.
pub open spec fn valid_email(s: Seq<char>) -> bool {
    s.len() > 0 && s.contains('@')
}

/// A validated email address. The wrapped string is non-empty and contains
/// `@`; values exist only through [`Email::parse`] and are never mutated.
#[derive(Debug, Clone, Eq, Hash)]
pub struct Email(String);

impl View for Email {
    type V = Seq<char>;

    closed spec fn view(&self) -> Seq<char> {
        self.0@
    }
}

#[derive(Debug, Clone, Copy, PartialEq, Eq, Structural)]
pub enum EmailError {
    InvalidEmail,
}

impl Email {
    /// Accepts exactly the strings satisfying [`valid_email`] and wraps them
    /// unchanged; everything else is rejected as `InvalidEmail`.
    pub fn parse(email: String) -> (r: Result<Self, EmailError>)
        ensures
            match r {
                Ok(e) => valid_email(email@) && e@ == email@,
                Err(err) => !valid_email(email@) && err == EmailError::InvalidEmail,
            },
    {
        if !email.as_str().is_empty() && contains_at(email.as_str()) {
            Ok(Email(email))
        } else {
            Err(EmailError::InvalidEmail)
        }
    }

    /// Borrows the wrapped string unchanged.
    pub fn as_str(&self) -> (r: &str)
        ensures
            r@ == self@,
    {
        self.0.as_str()
    }
}

impl PartialEq for Email {
    fn eq(&self, other: &Email) -> (r: bool) {
        self.0 == other.0
    }
}

impl vstd::std_specs::cmp::PartialEqSpecImpl for Email {
    open spec fn obeys_eq_spec() -> bool {
        true
    }

    open spec fn eq_spec(&self, other: &Email) -> bool {
        self@ == other@
    }
}

fn contains_at(s: &str) -> (b: bool)
    ensures
        b == s@.contains('@'),
{
    let len = s.unicode_len();
    let mut i: usize = 0;
    while i < len
        invariant
            len == s@.len(),
            i <= len,
            forall|j: int| 0 <= j < i ==> s@[j] != '@',
        decreases len - i,
    {
        if s.get_char(i) == '@' {
            assert(s@.contains('@')) by {
                assert(s@[i as int] == '@');
            }
            return true;
        }
        i += 1;
    }
    false
}

} // verus!
