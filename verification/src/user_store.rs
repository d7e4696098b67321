use vstd::prelude::*;
use crate::email::Email;
use crate::password::Password;
use crate::user::{User, UserView};

verus! {

/// The stable set of outcomes a storage backend can report, independent of
/// any backend's internal errors. `UnexpectedError` is reserved for
/// backend-internal faults (a future networked backend's I/O failure, say);
/// the reference in-memory backend never produces it, but the contract
/// allows a backend to.
#[derive(Debug, Clone, Copy, PartialEq, Eq, Structural)]
pub enum UserStoreError {
    UserAlreadyExists,
    UserNotFound,
    InvalidCredentials,
    UnexpectedError,
}

/// What a fault-free `add_user` does to a store holding `m`: rejected as a
/// duplicate when the email is already a key, otherwise inserted. The pair is
/// the store content after the call and the reported outcome.
pub open spec fn add_spec(m: Map<Seq<char>, UserView>, u: UserView) -> (Map<
    Seq<char>,
    UserView,
>, Result<(), UserStoreError>) {
    if m.contains_key(u.email) {
        (m, Err(UserStoreError::UserAlreadyExists))
    } else {
        (m.insert(u.email, u), Ok(()))
    }
}

/// What a fault-free `get_user` returns from a store holding `m`.
pub open spec fn get_spec(m: Map<Seq<char>, UserView>, email: Seq<char>) -> Result<
    UserView,
    UserStoreError,
> {
    if m.contains_key(email) {
        Ok(m[email])
    } else {
        Err(UserStoreError::UserNotFound)
    }
}

/// What a fault-free `validate_user` reports from a store holding `m`: the
/// distinction between an unknown account and a mismatched secret is part of
/// the contract and is preserved here.
pub open spec fn validate_spec(
    m: Map<Seq<char>, UserView>,
    email: Seq<char>,
    password: Seq<char>,
) -> Result<(), UserStoreError> {
    if !m.contains_key(email) {
        Err(UserStoreError::UserNotFound)
    } else if m[email].password == password {
        Ok(())
    } else {
        Err(UserStoreError::InvalidCredentials)
    }
}

/// The capability contract every storage backend implements: a mapping from
/// email to account with unique keys, observed through `accounts()`. Each
/// method either behaves as the fault-free transition says or — for a backend
/// with internal failure modes — reports `UnexpectedError`, in which case the
/// store content is left exactly as it was (no partial mutation on failure).
pub trait UserStore {
    /// The store content: at most one account per distinct email string.
    spec fn accounts(&self) -> Map<Seq<char>, UserView>;

    /// Whether this backend is free of internal failure modes. A fault-free
    /// backend never reports `UnexpectedError`, so its outcomes are exactly
    /// the fault-free transitions. The in-memory reference backend claims
    /// it; a networked or on-disk backend would not.
    spec fn fault_free(&self) -> bool;

    /// Rejects a duplicate email and leaves the content unchanged; otherwise
    /// inserts. Existence check and insertion are one atomic step: the whole
    /// method runs under exclusive access to the store.
    fn add_user(&mut self, user: User) -> (r: Result<(), UserStoreError>)
        ensures
            ({
                let m0 = old(self).accounts();
                let m1 = final(self).accounts();
                match r {
                    Ok(_) => !m0.contains_key(user@.email) && m1 == m0.insert(user@.email, user@),
                    Err(UserStoreError::UserAlreadyExists) => m0.contains_key(user@.email) && m1
                        == m0,
                    Err(UserStoreError::UnexpectedError) => m1 == m0,
                    Err(_) => false,
                }
            }),
            final(self).fault_free() == old(self).fault_free(),
            old(self).fault_free() ==> !(r matches Err(UserStoreError::UnexpectedError)),
    ;

    /// Looks an account up by email; absence is reported as `UserNotFound`.
    /// The caller gets a read-only view: the store is the sole mutator.
    fn get_user<'a>(&'a self, email: &Email) -> (r: Result<&'a User, UserStoreError>)
        ensures
            match r {
                Ok(u) => self.accounts().contains_key(email@) && u@ == self.accounts()[email@],
                Err(UserStoreError::UserNotFound) => !self.accounts().contains_key(email@),
                Err(UserStoreError::UnexpectedError) => true,
                Err(_) => false,
            },
            self.fault_free() ==> !(r matches Err(UserStoreError::UnexpectedError)),
    ;

    /// Checks a presented credential pair: unknown email is `UserNotFound`,
    /// known email with a mismatched password is `InvalidCredentials`.
    fn validate_user(&self, email: &Email, password: &Password) -> (r: Result<
        (),
        UserStoreError,
    >)
        ensures
            match r {
                Ok(_) => self.accounts().contains_key(email@) && self.accounts()[email@].password
                    == password@,
                Err(UserStoreError::UserNotFound) => !self.accounts().contains_key(email@),
                Err(UserStoreError::InvalidCredentials) => self.accounts().contains_key(email@)
                    && self.accounts()[email@].password != password@,
                Err(UserStoreError::UnexpectedError) => true,
                Err(_) => false,
            },
            self.fault_free() ==> !(r matches Err(UserStoreError::UnexpectedError)),
    ;
}

/// The store content after a run of add attempts, performed in order.
pub open spec fn add_all(m: Map<Seq<char>, UserView>, us: Seq<UserView>) -> Map<
    Seq<char>,
    UserView,
>
    decreases us.len(),
{
    if us.len() == 0 {
        m
    } else {
        add_all(add_spec(m, us[0]).0, us.drop_first())
    }
}

/// How many of a run of add attempts, performed in order, succeed.
pub open spec fn successful_adds(m: Map<Seq<char>, UserView>, us: Seq<UserView>) -> nat
    decreases us.len(),
{
    if us.len() == 0 {
        0nat
    } else {
        (if add_spec(m, us[0]).1 is Ok {
            1nat
        } else {
            0nat
        }) + successful_adds(add_spec(m, us[0]).0, us.drop_first())
    }
}

/// Adding an account under a fresh email succeeds; adding another account
/// under the same email is then rejected as `UserAlreadyExists`, and the
/// rejection leaves the store content exactly as after the first add.
pub proof fn lemma_duplicate_add_rejected(
    m: Map<Seq<char>, UserView>,
    u1: UserView,
    u2: UserView,
)
    requires
        !m.contains_key(u1.email),
        u2.email == u1.email,
    ensures
        add_spec(m, u1).1 == Ok::<(), UserStoreError>(()),
        add_spec(add_spec(m, u1).0, u2).1 == Err::<(), UserStoreError>(
            UserStoreError::UserAlreadyExists,
        ),
        add_spec(add_spec(m, u1).0, u2).0 == add_spec(m, u1).0,
{
}

/// After an account is added under a fresh email, looking that email up
/// returns exactly the added account: same password, same second-factor
/// flag.
pub proof fn lemma_get_after_add(m: Map<Seq<char>, UserView>, u: UserView)
    requires
        !m.contains_key(u.email),
    ensures
        get_spec(add_spec(m, u).0, u.email) == Ok::<UserView, UserStoreError>(u),
{
}

/// Looking up an email the store does not hold fails with `UserNotFound`.
pub proof fn lemma_get_unknown_email(m: Map<Seq<char>, UserView>, email: Seq<char>)
    requires
        !m.contains_key(email),
    ensures
        get_spec(m, email) == Err::<UserView, UserStoreError>(UserStoreError::UserNotFound),
{
}

/// After an account is added under a fresh email, validation with the stored
/// password succeeds; with any other password it fails as
/// `InvalidCredentials`; and with an email the store does not hold it fails
/// as `UserNotFound`, whatever password is presented.
pub proof fn lemma_validate_after_add(
    m: Map<Seq<char>, UserView>,
    u: UserView,
    other_password: Seq<char>,
    unknown_email: Seq<char>,
    probe_password: Seq<char>,
)
    requires
        !m.contains_key(u.email),
        other_password != u.password,
        unknown_email != u.email,
        !m.contains_key(unknown_email),
    ensures
        validate_spec(add_spec(m, u).0, u.email, u.password) == Ok::<(), UserStoreError>(()),
        validate_spec(add_spec(m, u).0, u.email, other_password) == Err::<(), UserStoreError>(
            UserStoreError::InvalidCredentials,
        ),
        validate_spec(add_spec(m, u).0, unknown_email, probe_password) == Err::<
            (),
            UserStoreError,
        >(UserStoreError::UserNotFound),
{
}

/// With an email already taken, every attempt of a run of adds that all
/// carry that email fails, and the store content never changes.
pub proof fn lemma_adds_of_taken_email_all_fail(
    m: Map<Seq<char>, UserView>,
    us: Seq<UserView>,
    k: Seq<char>,
)
    requires
        m.contains_key(k),
        forall|i: int| 0 <= i < us.len() ==> us[i].email == k,
    ensures
        successful_adds(m, us) == 0,
        add_all(m, us) == m,
    decreases us.len(),
{
    if us.len() > 0 {
        assert(forall|i: int|
            0 <= i < us.drop_first().len() ==> us.drop_first()[i] == us[i + 1]);
        lemma_adds_of_taken_email_all_fail(m, us.drop_first(), k);
    }
}

/// A run of add attempts that all carry one email, serialized in any order
/// from a store not yet holding it, has exactly one success — the attempt
/// served first — and every later attempt fails with `UserAlreadyExists`
/// against an unchanged store. Afterwards the store holds exactly the first
/// attempt's account under that email.
pub proof fn lemma_concurrent_adds_single_success(
    m: Map<Seq<char>, UserView>,
    us: Seq<UserView>,
    k: Seq<char>,
)
    requires
        !m.contains_key(k),
        us.len() > 0,
        forall|i: int| 0 <= i < us.len() ==> us[i].email == k,
    ensures
        successful_adds(m, us) == 1,
        add_spec(m, us[0]).1 == Ok::<(), UserStoreError>(()),
        add_all(m, us) == m.insert(k, us[0]),
        forall|i: int|
            1 <= i < us.len() ==> add_spec(add_all(m, us.take(i)), us[i]).1 == Err::<
                (),
                UserStoreError,
            >(UserStoreError::UserAlreadyExists),
    decreases us.len(),
{
    let m1 = add_spec(m, us[0]).0;
    assert(forall|i: int| 0 <= i < us.drop_first().len() ==> us.drop_first()[i] == us[i + 1]);
    lemma_adds_of_taken_email_all_fail(m1, us.drop_first(), k);
    assert forall|i: int| 1 <= i < us.len() implies add_spec(add_all(m, us.take(i)), us[i]).1
        == Err::<(), UserStoreError>(UserStoreError::UserAlreadyExists) by {
        let prefix = us.take(i);
        assert(prefix.len() == i);
        assert(forall|j: int| 0 <= j < prefix.len() ==> prefix[j] == us[j]);
        lemma_concurrent_adds_single_success(m, prefix, k);
        assert(add_all(m, prefix).contains_key(k));
    }
}

} // verus!
