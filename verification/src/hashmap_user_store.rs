use vstd::prelude::*;
use crate::email::Email;
use crate::password::Password;
use crate::user::{User, UserView};
use crate::user_store::{add_spec, get_spec, validate_spec, UserStore, UserStoreError};

verus! {

/// The keyed mapping a sequence of stored users denotes: each user under its
/// email, a later entry shadowing an earlier one with the same key (the store
/// never lets that arise).
pub open spec fn map_of(users: Seq<User>) -> Map<Seq<char>, UserView>
    decreases users.len(),
{
    if users.len() == 0 {
        Map::empty()
    } else {
        map_of(users.drop_last()).insert(users.last()@.email, users.last()@)
    }
}

/// The reference in-memory backend: a mapping from email to account with
/// unique keys, held as a flat sequence of entries. No secondary index, no
/// eviction, no persistence — state lives exactly as long as the instance.
pub struct HashmapUserStore {
    users: Vec<User>,
}

impl View for HashmapUserStore {
    type V = Map<Seq<char>, UserView>;

    closed spec fn view(&self) -> Map<Seq<char>, UserView> {
        map_of(self.users@)
    }
}

impl HashmapUserStore {
    /// At most one stored account per distinct email string.
    #[verifier::type_invariant]
    spec fn distinct_emails(self) -> bool {
        forall|i: int, j: int|
            0 <= i < j < self.users@.len() ==> self.users@[i]@.email != self.users@[j]@.email
    }

    /// Looks the email up and rejects a duplicate registration; otherwise
    /// inserts the account and succeeds. The check and the insertion are one
    /// step from the caller's point of view: the method holds `&mut self`
    /// throughout, so no concurrent duplicate can slip in between them.
    pub fn add_user(&mut self, user: User) -> (r: Result<(), UserStoreError>)
        ensures
            final(self)@ == add_spec(old(self)@, user@).0,
            r == add_spec(old(self)@, user@).1,
    {
        let result = self.get_user(&user.email);
        match result {
            Ok(_) => Err(UserStoreError::UserAlreadyExists),
            Err(e) => {
                if e == UserStoreError::UserNotFound {
                    let ghost old_users = self.users@;
                    let ghost uv = user@;
                    proof {
                        use_type_invariant(&*self);
                        assert forall|j: int|
                            0 <= j < old_users.len() implies #[trigger] old_users[j]@.email
                            != uv.email by {
                            if old_users[j]@.email == uv.email {
                                lemma_map_of_covers(old_users, uv.email, j);
                            }
                        }
                    }
                    let mut users: Vec<User> = Vec::new();
                    std::mem::swap(&mut users, &mut self.users);
                    users.push(user);
                    proof {
                        assert(users@.drop_last() =~= old_users);
                        assert(users@.last()@ == uv);
                    }
                    self.users = users;
                    Ok(())
                } else {
                    Err(e)
                }
            },
        }
    }

    /// A direct lookup; absence is reported as `UserNotFound`, and the caller
    /// only ever gets a read-only reference to the stored account.
    pub fn get_user(&self, email: &Email) -> (r: Result<&User, UserStoreError>)
        ensures
            match r {
                Ok(u) => get_spec(self@, email@) == Ok::<UserView, UserStoreError>(u@),
                Err(e) => get_spec(self@, email@) == Err::<UserView, UserStoreError>(e),
            },
    {
        proof {
            use_type_invariant(&*self);
        }
        let n = self.users.len();
        let mut i: usize = 0;
        while i < n
            invariant
                n == self.users@.len(),
                i <= n,
                forall|j: int| 0 <= j < i ==> self.users@[j]@.email != email@,
            decreases n - i,
        {
            if self.users[i].email == *email {
                proof {
                    use_type_invariant(&*self);
                    lemma_map_of_finds(self.users@, email@, i as int);
                }
                return Ok(&self.users[i]);
            }
            i += 1;
        }
        proof {
            lemma_map_of_misses_all(self.users@, email@);
        }
        Err(UserStoreError::UserNotFound)
    }

    /// Looks the account up by email and compares the stored password with
    /// the presented one for structural equality. Unknown email and wrong
    /// password stay distinct outcomes here; collapsing them is the outward
    /// boundary's job.
    pub fn validate_user(&self, email: &Email, password: &Password) -> (r: Result<
        (),
        UserStoreError,
    >)
        ensures
            r == validate_spec(self@, email@, password@),
    {
        match self.get_user(email) {
            Ok(user) => {
                if user.password == *password {
                    Ok(())
                } else {
                    Err(UserStoreError::InvalidCredentials)
                }
            },
            Err(_) => Err(UserStoreError::UserNotFound),
        }
    }
}

impl Default for HashmapUserStore {
    /// A store holding no accounts.
    fn default() -> (r: Self)
        ensures
            r@ == Map::<Seq<char>, UserView>::empty(),
    {
        HashmapUserStore { users: Vec::new() }
    }
}

impl UserStore for HashmapUserStore {
    open spec fn accounts(&self) -> Map<Seq<char>, UserView> {
        self@
    }

    /// Pure in-process computation: no failure mode besides the contracted
    /// outcomes, so this backend never reports `UnexpectedError`.
    open spec fn fault_free(&self) -> bool {
        true
    }

    fn add_user(&mut self, user: User) -> (r: Result<(), UserStoreError>) {
        HashmapUserStore::add_user(self, user)
    }

    fn get_user<'a>(&'a self, email: &Email) -> (r: Result<&'a User, UserStoreError>) {
        HashmapUserStore::get_user(self, email)
    }

    fn validate_user(&self, email: &Email, password: &Password) -> (r: Result<
        (),
        UserStoreError,
    >) {
        HashmapUserStore::validate_user(self, email, password)
    }
}

/// An entry's email is a key of the denoted mapping, and where no earlier
/// entry shares it, the mapping holds exactly that entry under it.
proof fn lemma_map_of_finds(users: Seq<User>, email: Seq<char>, i: int)
    requires
        0 <= i < users.len(),
        users[i]@.email == email,
        forall|p: int, q: int| 0 <= p < q < users.len() ==> users[p]@.email != users[q]@.email,
    ensures
        map_of(users).contains_key(email),
        map_of(users)[email] == users[i]@,
    decreases users.len(),
{
    if i == users.len() - 1 {
    } else {
        assert(users.drop_last()[i] == users[i]);
        lemma_map_of_finds(users.drop_last(), email, i);
        assert(users.last()@.email != email);
    }
}

/// An entry's email is always a key of the denoted mapping.
proof fn lemma_map_of_covers(users: Seq<User>, email: Seq<char>, j: int)
    requires
        0 <= j < users.len(),
        users[j]@.email == email,
    ensures
        map_of(users).contains_key(email),
    decreases users.len(),
{
    if j == users.len() - 1 {
    } else {
        assert(users.drop_last()[j] == users[j]);
        lemma_map_of_covers(users.drop_last(), email, j);
    }
}

/// An email no entry carries is no key of the denoted mapping.
proof fn lemma_map_of_misses_all(users: Seq<User>, email: Seq<char>)
    requires
        forall|j: int| 0 <= j < users.len() ==> users[j]@.email != email,
    ensures
        !map_of(users).contains_key(email),
    decreases users.len(),
{
    if users.len() > 0 {
        assert(forall|j: int|
            0 <= j < users.drop_last().len() ==> users.drop_last()[j] == users[j]);
        lemma_map_of_misses_all(users.drop_last(), email);
    }
}

} // verus!
