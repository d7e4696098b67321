use auth_service::email::Email;
use auth_service::hashmap_user_store::HashmapUserStore;
use auth_service::password::Password;
use auth_service::user::User;
use auth_service::user_store::UserStoreError;

#[test]
fn test_add_user() {
    let mut store = HashmapUserStore::default();

    let Ok(email) = Email::parse("test@example.com".to_string()) else {
        panic!("Invalid email");
    };
    let Ok(password) = Password::parse("secretpass".to_string()) else {
        panic!("Invalid password");
    };

    let user = User::new(email.clone(), password.clone(), false);

    let result = store.add_user(user);
    assert_eq!(Ok(()), result);

    let duplicate = User::new(email, password, false);
    let result = store.add_user(duplicate);
    assert_eq!(Err(UserStoreError::UserAlreadyExists), result);
}

#[test]
fn test_get_user() {
    let mut store = HashmapUserStore::default();

    let Ok(email) = Email::parse("test@example.com".to_string()) else {
        panic!("Invalid email");
    };
    let Ok(password) = Password::parse("secretpass".to_string()) else {
        panic!("Invalid password");
    };

    let user = User::new(email.clone(), password.clone(), true);

    let result = store.add_user(user);
    assert_eq!(Ok(()), result);

    let result = store.get_user(&email);
    assert!(result.is_ok());
    let fetched = result.unwrap();
    assert_eq!(email, fetched.email);
    assert_eq!(password, fetched.password);
    assert!(fetched.requires_2fa);

    let Ok(email) = Email::parse("missing@example.com".to_string()) else {
        panic!("Invalid email");
    };

    let result = store.get_user(&email);
    assert_eq!(Err(UserStoreError::UserNotFound), result);
}

#[test]
fn test_validate_user() {
    let mut store = HashmapUserStore::default();
    let Ok(email) = Email::parse("test@example.com".to_string()) else {
        panic!("Invalid email");
    };
    let Ok(password) = Password::parse("secretpass".to_string()) else {
        panic!("Invalid password");
    };

    let user = User::new(email.clone(), password.clone(), false);
    let result = store.add_user(user);
    assert_eq!(Ok(()), result);

    let Ok(email2) = Email::parse("missing@example.com".to_string()) else {
        panic!("Invalid email");
    };
    let Ok(password2) = Password::parse("wrongpass".to_string()) else {
        panic!("Invalid password");
    };

    let result = store.validate_user(&email, &password);
    assert_eq!(Ok(()), result);

    let result = store.validate_user(&email, &password2);
    assert_eq!(Err(UserStoreError::InvalidCredentials), result);

    let result = store.validate_user(&email2, &password);
    assert_eq!(Err(UserStoreError::UserNotFound), result);
}

#[test]
fn scenario_duplicate_add_leaves_first_account() {
    let mut store = HashmapUserStore::default();
    let email = Email::parse("a@b.com".to_string()).unwrap();
    let first = User::new(
        email.clone(),
        Password::parse("longpass1".to_string()).unwrap(),
        false,
    );
    let second = User::new(
        email.clone(),
        Password::parse("other999".to_string()).unwrap(),
        true,
    );

    assert_eq!(Ok(()), store.add_user(first));
    assert_eq!(Err(UserStoreError::UserAlreadyExists), store.add_user(second));

    let stored = store.get_user(&email).unwrap();
    assert_eq!(stored.password.as_str(), "longpass1");
    assert!(!stored.requires_2fa);
}

#[test]
fn scenario_validate_three_outcomes() {
    let mut store = HashmapUserStore::default();
    let email = Email::parse("a@b.com".to_string()).unwrap();
    let password = Password::parse("longpass1".to_string()).unwrap();
    let user = User::new(email.clone(), password.clone(), false);
    assert_eq!(Ok(()), store.add_user(user));

    assert_eq!(Ok(()), store.validate_user(&email, &password));

    let wrong = Password::parse("wrongpw1".to_string()).unwrap();
    assert_eq!(
        Err(UserStoreError::InvalidCredentials),
        store.validate_user(&email, &wrong)
    );

    let unknown = Email::parse("x@y.com".to_string()).unwrap();
    assert_eq!(
        Err(UserStoreError::UserNotFound),
        store.validate_user(&unknown, &password)
    );
}

#[test]
fn repeated_adds_of_one_email_have_single_success() {
    let mut store = HashmapUserStore::default();
    let email = Email::parse("race@example.com".to_string()).unwrap();
    let passwords = ["password1", "password2", "password3", "password4", "password5"];

    let mut successes: usize = 0;
    let mut conflicts: usize = 0;
    for text in passwords {
        let user = User::new(
            email.clone(),
            Password::parse(text.to_string()).unwrap(),
            false,
        );
        match store.add_user(user) {
            Ok(()) => successes += 1,
            Err(UserStoreError::UserAlreadyExists) => conflicts += 1,
            Err(other) => panic!("unexpected outcome: {:?}", other),
        }
    }

    assert_eq!(successes, 1);
    assert_eq!(conflicts, passwords.len() - 1);
    let stored = store.get_user(&email).unwrap();
    assert_eq!(stored.password.as_str(), "password1");
}
