use auth_service::hashmap_user_store::HashmapUserStore;
use auth_service::routes::{login, signup, AuthAPIError, LoginRequest, SignupRequest};

fn signup_request(email: &str, password: &str, requires_2fa: bool) -> SignupRequest {
    SignupRequest {
        email: email.to_string(),
        password: password.to_string(),
        requires_2fa,
    }
}

fn login_request(email: &str, password: &str) -> LoginRequest {
    LoginRequest {
        email: email.to_string(),
        password: password.to_string(),
    }
}

#[test]
fn signup_creates_account() {
    let mut store = HashmapUserStore::default();

    let result = signup(&mut store, signup_request("test@email.com", "password123", true));

    assert_eq!(result.unwrap().message, "User created successfully!");
}

#[test]
fn signup_rejects_malformed_email() {
    let mut store = HashmapUserStore::default();

    let result = signup(&mut store, signup_request("testemail.com", "password123", true));

    assert_eq!(result.unwrap_err(), AuthAPIError::InvalidCredentials);
}

#[test]
fn signup_rejects_short_password() {
    let mut store = HashmapUserStore::default();

    let result = signup(&mut store, signup_request("test@email.com", "pass", false));

    assert_eq!(result.unwrap_err(), AuthAPIError::InvalidCredentials);
}

#[test]
fn signup_conflict_on_duplicate_email() {
    let mut store = HashmapUserStore::default();

    let first = signup(&mut store, signup_request("teste@mail.com", "password123", true));
    assert!(first.is_ok());

    let second = signup(&mut store, signup_request("teste@mail.com", "password123", true));
    assert_eq!(second.unwrap_err(), AuthAPIError::UserAlreadyExists);
}

#[test]
fn login_succeeds_with_stored_credentials() {
    let mut store = HashmapUserStore::default();
    signup(&mut store, signup_request("user@example.com", "password123", false)).unwrap();

    let result = login(&store, login_request("user@example.com", "password123"));

    assert_eq!(result, Ok(()));
}

#[test]
fn login_wrong_password_is_incorrect_credentials() {
    let mut store = HashmapUserStore::default();
    signup(&mut store, signup_request("user@example.com", "password123", false)).unwrap();

    let result = login(&store, login_request("user@example.com", "password456"));

    assert_eq!(result, Err(AuthAPIError::IncorrectCredentials));
}

#[test]
fn login_unknown_email_is_incorrect_credentials() {
    let store = HashmapUserStore::default();

    let result = login(&store, login_request("user@example.com", "password123"));

    assert_eq!(result, Err(AuthAPIError::IncorrectCredentials));
}

#[test]
fn login_malformed_input_is_invalid_credentials() {
    let mut store = HashmapUserStore::default();
    signup(&mut store, signup_request("user@example.com", "password123", false)).unwrap();

    let result = login(&store, login_request("userexample.com", "password123"));
    assert_eq!(result, Err(AuthAPIError::InvalidCredentials));

    let result = login(&store, login_request("user@example.com", "short"));
    assert_eq!(result, Err(AuthAPIError::InvalidCredentials));
}
