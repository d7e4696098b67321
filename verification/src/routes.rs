use vstd::prelude::*;
use crate::email::{valid_email, Email};
use crate::password::{valid_password, Password};
use crate::user::{User, UserView};
use crate::user_store::{UserStore, UserStoreError};

verus! {

/// A signup request as the transport layer hands it over: raw credential
/// material plus the second-factor flag.
#[derive(Debug, Clone)]
pub struct SignupRequest {
    pub email: String,
    pub password: String,
    pub requires_2fa: bool,
}

#[derive(Debug, Clone)]
pub struct SignupResponse {
    pub message: String,
}

/// A login request as the transport layer hands it over.
#[derive(Debug, Clone)]
pub struct LoginRequest {
    pub email: String,
    pub password: String,
}

#[derive(Debug, Clone)]
pub struct LoginResponse {
    pub message: String,
}

/// The outward vocabulary of the request layer. Parse failures of either
/// credential collapse into `InvalidCredentials`; an unknown account and a
/// wrong password during login collapse into `IncorrectCredentials`, so a
/// caller cannot probe which accounts exist.
#[derive(Debug, Clone, Copy, PartialEq, Eq, Structural)]
pub enum AuthAPIError {
    UserAlreadyExists,
    InvalidCredentials,
    IncorrectCredentials,
    UnexpectedError,
}

/// The account a successful signup stores.
pub open spec fn signup_view(email: Seq<char>, password: Seq<char>, requires_2fa: bool) -> UserView {
    UserView { email, password, requires_2fa }
}

/// Registers a new account: parses the raw credentials, rejecting either
/// failure as `InvalidCredentials`, and asks the store to add the account.
/// A duplicate email is a conflict; `UnexpectedError` surfaces a
/// backend-internal fault and never comes from a fault-free backend, so on a
/// fault-free store valid fresh input is owed success and a taken email the
/// conflict. On every failure the store content is exactly what it was.
pub fn signup<S: UserStore>(store: &mut S, request: SignupRequest) -> (r: Result<
    SignupResponse,
    AuthAPIError,
>)
    ensures
        ({
            let em = request.email@;
            let pw = request.password@;
            let m0 = old(store).accounts();
            let m1 = final(store).accounts();
            match r {
                Ok(resp) => valid_email(em) && valid_password(pw) && !m0.contains_key(em)
                    && resp.message@ == "User created successfully!"@ && m1 == m0.insert(
                    em,
                    signup_view(em, pw, request.requires_2fa),
                ),
                Err(AuthAPIError::InvalidCredentials) => !(valid_email(em) && valid_password(pw))
                    && m1 == m0,
                Err(AuthAPIError::UserAlreadyExists) => valid_email(em) && valid_password(pw)
                    && m0.contains_key(em) && m1 == m0,
                Err(AuthAPIError::UnexpectedError) => valid_email(em) && valid_password(pw) && m1
                    == m0,
                Err(_) => false,
            }
        }),
        final(store).fault_free() == old(store).fault_free(),
        old(store).fault_free() ==> !(r matches Err(AuthAPIError::UnexpectedError)),
{
    let SignupRequest { email, password, requires_2fa } = request;

    let email = match Email::parse(email) {
        Ok(e) => e,
        Err(_) => {
            return Err(AuthAPIError::InvalidCredentials);
        },
    };

    let password = match Password::parse(password) {
        Ok(p) => p,
        Err(_) => {
            return Err(AuthAPIError::InvalidCredentials);
        },
    };

    let user = User { email, password, requires_2fa };

    let result = store.add_user(user);

    match result {
        Ok(_) => {},
        Err(e) => {
            match e {
                UserStoreError::UserAlreadyExists => {
                    return Err(AuthAPIError::UserAlreadyExists);
                },
                UserStoreError::UnexpectedError => {
                    return Err(AuthAPIError::UnexpectedError);
                },
                _ => {},
            }
        },
    }

    Ok(SignupResponse { message: "User created successfully!".to_owned() })
}

/// Decides a login attempt: parse failures are `InvalidCredentials`; a
/// credential pair the store rejects is answered `IncorrectCredentials`,
/// whether the email was unknown or the password wrong, so a caller cannot
/// probe which accounts exist. Success is returned exactly for the stored
/// credential pair, and a backend-internal fault surfaces as
/// `UnexpectedError` — never as success, and never from a fault-free backend.
pub fn login<S: UserStore>(store: &S, request: LoginRequest) -> (r: Result<(), AuthAPIError>)
    ensures
        ({
            let em = request.email@;
            let pw = request.password@;
            let m = store.accounts();
            let ok_input = valid_email(em) && valid_password(pw);
            &&& ((r matches Err(AuthAPIError::InvalidCredentials)) <==> !ok_input)
            &&& r is Ok ==> m.contains_key(em) && m[em].password == pw
            &&& (r matches Err(AuthAPIError::IncorrectCredentials)) ==> ok_input && (
            !m.contains_key(em) || m[em].password != pw)
            &&& ok_input && !m.contains_key(em) ==> (r matches Err(
                AuthAPIError::IncorrectCredentials,
            ) || r matches Err(AuthAPIError::UnexpectedError))
            &&& ok_input && m.contains_key(em) && m[em].password == pw ==> (r is Ok || r matches
                Err(AuthAPIError::UnexpectedError))
            &&& ok_input && m.contains_key(em) && m[em].password != pw ==> (r matches Err(
                AuthAPIError::IncorrectCredentials,
            ) || r matches Err(AuthAPIError::UnexpectedError))
            &&& !(r matches Err(AuthAPIError::UserAlreadyExists))
            &&& store.fault_free() ==> !(r matches Err(AuthAPIError::UnexpectedError))
        }),
{
    let LoginRequest { email, password } = request;

    let email = match Email::parse(email) {
        Ok(e) => e,
        Err(_) => {
            return Err(AuthAPIError::InvalidCredentials);
        },
    };

    let password = match Password::parse(password) {
        Ok(p) => p,
        Err(_) => {
            return Err(AuthAPIError::InvalidCredentials);
        },
    };

    match store.validate_user(&email, &password) {
        Ok(()) => {},
        Err(e) => {
            return match e {
                UserStoreError::InvalidCredentials => Err(AuthAPIError::IncorrectCredentials),
                UserStoreError::UserNotFound => Err(AuthAPIError::IncorrectCredentials),
                _ => Err(AuthAPIError::UnexpectedError),
            };
        },
    }

    match store.get_user(&email) {
        Ok(_) => Ok(()),
        Err(e) => {
            match e {
                UserStoreError::UserNotFound => Err(AuthAPIError::IncorrectCredentials),
                _ => Err(AuthAPIError::UnexpectedError),
            }
        },
    }
}

} // verus!
