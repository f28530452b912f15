use auth_service::{Email, LoginAttemptId, Password, TwoFACode, User};

#[test]
fn email_empty_string_is_rejected() {
    let email = "".to_string();
    assert!(Email::parse(email).is_err());
}

#[test]
fn email_missing_at_symbol_is_rejected() {
    let email = "test.com".to_string();
    assert!(Email::parse(email).is_err());
}

#[test]
fn email_missing_subject_is_rejected() {
    let email = "@test.com".to_string();
    assert!(Email::parse(email).is_err());
}

#[test]
fn email_well_formed_is_accepted() {
    let email = Email::parse("test@example.com".to_string()).unwrap();
    assert_eq!(email.as_str(), "test@example.com");
}

#[test]
fn email_error_carries_the_address() {
    let err = Email::parse("teste#gmail.com".to_string()).unwrap_err();
    assert_eq!(err, "teste#gmail.com is not a valid email.");
}

#[test]
fn email_domain_with_empty_label_is_rejected() {
    assert!(Email::parse("a@b..com".to_string()).is_err());
    assert!(Email::parse("a@.com".to_string()).is_err());
    assert!(Email::parse("a@com.".to_string()).is_err());
    assert!(Email::parse("a@b com".to_string()).is_err());
}

#[test]
fn email_second_at_falls_into_the_domain_and_is_rejected() {
    assert!(Email::parse("a@b@c.com".to_string()).is_err());
}

#[test]
fn password_empty_string_is_rejected() {
    let password = "".to_string();
    assert!(Password::parse(password).is_err());
}

#[test]
fn string_less_than_8_characters_is_rejected() {
    let password = "1234567".to_string();
    assert!(Password::parse(password).is_err());
}

#[test]
fn password_of_8_characters_is_accepted() {
    let password = Password::parse("12345678".to_string()).unwrap();
    assert_eq!(password.as_str(), "12345678");
}

#[test]
fn user_keeps_its_fields() {
    let user = User::new(
        Email::parse("test@example.com".to_string()).unwrap(),
        Password::parse("password".to_string()).unwrap(),
        true,
    );
    assert_eq!(user.email.as_str(), "test@example.com");
    assert_eq!(user.password.as_str(), "password");
    assert!(user.requires_2fa);
}

#[test]
fn login_attempt_id_minted_is_uuid_shaped() {
    let id = LoginAttemptId::mint();
    let text = id.as_str().to_string();
    assert_eq!(text.len(), 36);
    assert!(LoginAttemptId::parse(text).is_ok());
}

#[test]
fn login_attempt_id_rejects_other_shapes() {
    assert!(LoginAttemptId::parse("45645645664".to_string()).is_err());
    assert!(LoginAttemptId::parse("".to_string()).is_err());
    assert!(LoginAttemptId::parse("zzzzzzzz-zzzz-zzzz-zzzz-zzzzzzzzzzzz".to_string()).is_err());
}

#[test]
fn two_fa_code_minted_is_six_digits() {
    let code = TwoFACode::mint();
    let text = code.as_str().to_string();
    assert_eq!(text.len(), 6);
    assert!(TwoFACode::parse(text).is_ok());
}

#[test]
fn two_fa_code_rejects_other_shapes() {
    assert!(TwoFACode::parse("123456".to_string()).is_ok());
    assert!(TwoFACode::parse("12345".to_string()).is_err());
    assert!(TwoFACode::parse("1234567".to_string()).is_err());
    assert!(TwoFACode::parse("12345a".to_string()).is_err());
}
