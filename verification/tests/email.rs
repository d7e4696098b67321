use auth_service::email::{Email, EmailError};

#[test]
fn parse_valid_email_succeeds() {
    let email = "user@example.com".to_string();

    let result = Email::parse(email.clone());

    assert!(result.is_ok());
    assert_eq!(result.unwrap().as_str(), email);
}

#[test]
fn parse_missing_at_symbol_fails() {
    let email = "userexample.com".to_string();

    let result = Email::parse(email);

    assert_eq!(result, Err(EmailError::InvalidEmail));
}

#[test]
fn email_parse_empty_string_fails() {
    let email = "".to_string();

    let result = Email::parse(email);

    assert!(matches!(result, Err(EmailError::InvalidEmail)));
}

#[test]
fn parsed_email_exposes_inner_str() {
    let email = Email::parse("user@example.com".to_string()).unwrap();

    assert_eq!(email.as_str(), "user@example.com");
}

#[test]
fn parse_accepts_permissive_shapes() {
    assert!(Email::parse("@".to_string()).is_ok());
    assert!(Email::parse("a@@b@".to_string()).is_ok());
    assert!(Email::parse(".user@".to_string()).is_ok());
}
