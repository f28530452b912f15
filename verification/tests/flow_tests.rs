use auth_service::{
    AppState, AuthAPIError, Email, HashmapTwoFACodeStore, HashmapUserStore,
    HashsetBannedTokenStore, LoginRequest, LoginResponse, SignupRequest, TokenService,
    TwoFACodeStore, Verify2FARequest, VerifyTokenRequest, login, logout, signup, verify_2fa,
    verify_token,
};

const NOW: u64 = 1_000_000;

fn new_state() -> AppState<HashmapUserStore, HashsetBannedTokenStore, HashmapTwoFACodeStore> {
    AppState::new(
        HashmapUserStore::default(),
        HashsetBannedTokenStore::default(),
        HashmapTwoFACodeStore::default(),
        TokenService::new(b"test-signing-key".to_vec()),
    )
}

fn signup_request(email: &str, password: &str, requires_2fa: bool) -> SignupRequest {
    SignupRequest {
        email: email.to_string(),
        password: password.to_string(),
        requires_2fa,
    }
}

fn login_request(email: &str, password: &str) -> LoginRequest {
    LoginRequest {
        email: email.to_string(),
        password: password.to_string(),
    }
}

#[test]
fn signup_login_verify_logout_round_trip() {
    let mut state = new_state();

    let resp = signup(&mut state, signup_request("a@b.com", "password1", false)).unwrap();
    assert_eq!(resp.message, "User created successfully!");

    let token = match login(&mut state, login_request("a@b.com", "password1"), NOW).unwrap() {
        LoginResponse::RegularAuth { token } => token,
        LoginResponse::TwoFactorAuth(_) => panic!("no second factor was enabled"),
    };

    let claims = verify_token(
        &state,
        VerifyTokenRequest {
            token: token.clone(),
        },
        NOW,
    )
    .unwrap();
    assert_eq!(claims.subject.as_str(), "a@b.com");
    assert_eq!(claims.issued_at, NOW);
    assert_eq!(claims.expires_at, NOW + 600);

    logout(&mut state, Some(token.as_str()), NOW).unwrap();

    let again = verify_token(&state, VerifyTokenRequest { token }, NOW);
    assert_eq!(again.unwrap_err(), AuthAPIError::InvalidToken);
}

#[test]
fn signup_with_malformed_credentials_is_rejected() {
    let mut state = new_state();
    let r = signup(&mut state, signup_request("@test.com", "password123", false));
    assert_eq!(r.unwrap_err(), AuthAPIError::InvalidCredentials);
    let r = signup(&mut state, signup_request("test@test.com", "1234", false));
    assert_eq!(r.unwrap_err(), AuthAPIError::InvalidCredentials);
}

#[test]
fn duplicate_signup_fails_regardless_of_password() {
    let mut state = new_state();
    signup(&mut state, signup_request("a@b.com", "password1", false)).unwrap();
    let r = signup(&mut state, signup_request("a@b.com", "otherpassword", true));
    assert_eq!(r.unwrap_err(), AuthAPIError::UserAlreadyExists);
}

#[test]
fn login_with_wrong_password_is_incorrect_credentials() {
    let mut state = new_state();
    signup(&mut state, signup_request("a@b.com", "password123", false)).unwrap();
    let r = login(&mut state, login_request("a@b.com", "wrong password"), NOW);
    assert_eq!(r.unwrap_err(), AuthAPIError::IncorrectCredentials);
}

#[test]
fn login_with_unknown_email_is_incorrect_credentials() {
    let mut state = new_state();
    let r = login(&mut state, login_request("a@b.com", "password123"), NOW);
    assert_eq!(r.unwrap_err(), AuthAPIError::IncorrectCredentials);
}

#[test]
fn login_with_malformed_input_is_invalid_credentials() {
    let mut state = new_state();
    let r = login(&mut state, login_request("teste#gmail.com", "password123"), NOW);
    assert_eq!(r.unwrap_err(), AuthAPIError::InvalidCredentials);
    let r = login(&mut state, login_request("test@test.com", "1234"), NOW);
    assert_eq!(r.unwrap_err(), AuthAPIError::InvalidCredentials);
}

#[test]
fn login_with_2fa_returns_attempt_id_and_no_token() {
    let mut state = new_state();
    signup(&mut state, signup_request("a@b.com", "password123", true)).unwrap();
    match login(&mut state, login_request("a@b.com", "password123"), NOW).unwrap() {
        LoginResponse::RegularAuth { .. } => panic!("a second factor was required"),
        LoginResponse::TwoFactorAuth(resp) => {
            assert_eq!(resp.message, "2FA required");
            let email = Email::parse("a@b.com".to_string()).unwrap();
            let (stored_id, _) = state.two_fa_code_store.get_code(&email).unwrap();
            assert_eq!(resp.login_attempt_id, stored_id.as_str());
        }
    }
}

#[test]
fn verify_2fa_succeeds_exactly_once() {
    let mut state = new_state();
    signup(&mut state, signup_request("a@b.com", "password123", true)).unwrap();
    let attempt_id = match login(&mut state, login_request("a@b.com", "password123"), NOW).unwrap()
    {
        LoginResponse::TwoFactorAuth(resp) => resp.login_attempt_id,
        LoginResponse::RegularAuth { .. } => panic!("a second factor was required"),
    };
    let email = Email::parse("a@b.com".to_string()).unwrap();
    let (_, code) = state.two_fa_code_store.get_code(&email).unwrap();

    let request = Verify2FARequest {
        email: "a@b.com".to_string(),
        login_attempt_id: attempt_id.clone(),
        two_fa_code: code.as_str().to_string(),
    };
    let token = verify_2fa(&mut state, request, NOW).unwrap();
    let claims = verify_token(&state, VerifyTokenRequest { token }, NOW).unwrap();
    assert_eq!(claims.subject.as_str(), "a@b.com");

    let replay = Verify2FARequest {
        email: "a@b.com".to_string(),
        login_attempt_id: attempt_id,
        two_fa_code: code.as_str().to_string(),
    };
    let r = verify_2fa(&mut state, replay, NOW);
    assert_eq!(r.unwrap_err(), AuthAPIError::IncorrectCredentials);
}

#[test]
fn verify_2fa_with_wrong_code_is_incorrect_credentials() {
    let mut state = new_state();
    signup(&mut state, signup_request("a@b.com", "password123", true)).unwrap();
    let attempt_id = match login(&mut state, login_request("a@b.com", "password123"), NOW).unwrap()
    {
        LoginResponse::TwoFactorAuth(resp) => resp.login_attempt_id,
        LoginResponse::RegularAuth { .. } => panic!("a second factor was required"),
    };
    let email = Email::parse("a@b.com".to_string()).unwrap();
    let (_, code) = state.two_fa_code_store.get_code(&email).unwrap();
    let wrong = if code.as_str() == "123456" {
        "123457"
    } else {
        "123456"
    };
    let request = Verify2FARequest {
        email: "a@b.com".to_string(),
        login_attempt_id: attempt_id,
        two_fa_code: wrong.to_string(),
    };
    let r = verify_2fa(&mut state, request, NOW);
    assert_eq!(r.unwrap_err(), AuthAPIError::IncorrectCredentials);
}

#[test]
fn verify_2fa_with_malformed_input_is_invalid_credentials() {
    let mut state = new_state();
    let r = verify_2fa(
        &mut state,
        Verify2FARequest {
            email: "teste#gmail.com".to_string(),
            login_attempt_id: "45645645664".to_string(),
            two_fa_code: "123456".to_string(),
        },
        NOW,
    );
    assert_eq!(r.unwrap_err(), AuthAPIError::InvalidCredentials);
    let r = verify_2fa(
        &mut state,
        Verify2FARequest {
            email: "user@example.com".to_string(),
            login_attempt_id: "456456456".to_string(),
            two_fa_code: "12345".to_string(),
        },
        NOW,
    );
    assert_eq!(r.unwrap_err(), AuthAPIError::InvalidCredentials);
}

#[test]
fn second_login_supersedes_pending_challenge() {
    let mut state = new_state();
    signup(&mut state, signup_request("a@b.com", "password123", true)).unwrap();
    let first_attempt = match login(&mut state, login_request("a@b.com", "password123"), NOW)
        .unwrap()
    {
        LoginResponse::TwoFactorAuth(resp) => resp.login_attempt_id,
        LoginResponse::RegularAuth { .. } => panic!("a second factor was required"),
    };
    let email = Email::parse("a@b.com".to_string()).unwrap();
    let (_, first_code) = state.two_fa_code_store.get_code(&email).unwrap();

    login(&mut state, login_request("a@b.com", "password123"), NOW).unwrap();

    let request = Verify2FARequest {
        email: "a@b.com".to_string(),
        login_attempt_id: first_attempt,
        two_fa_code: first_code.as_str().to_string(),
    };
    let r = verify_2fa(&mut state, request, NOW);
    assert_eq!(r.unwrap_err(), AuthAPIError::IncorrectCredentials);
}

#[test]
fn logout_twice_fails_the_second_time() {
    let mut state = new_state();
    signup(&mut state, signup_request("a@b.com", "password123", false)).unwrap();
    let token = match login(&mut state, login_request("a@b.com", "password123"), NOW).unwrap() {
        LoginResponse::RegularAuth { token } => token,
        LoginResponse::TwoFactorAuth(_) => panic!("no second factor was enabled"),
    };
    assert!(logout(&mut state, Some(token.as_str()), NOW).is_ok());
    let r = logout(&mut state, Some(token.as_str()), NOW);
    assert_eq!(r.unwrap_err(), AuthAPIError::InvalidToken);
}

#[test]
fn logout_without_token_is_missing_token() {
    let mut state = new_state();
    let r = logout(&mut state, None, NOW);
    assert_eq!(r.unwrap_err(), AuthAPIError::MissingToken);
}

#[test]
fn logout_with_garbage_token_is_invalid_token() {
    let mut state = new_state();
    let r = logout(&mut state, Some("invalid"), NOW);
    assert_eq!(r.unwrap_err(), AuthAPIError::InvalidToken);
}

#[test]
fn verify_token_rejects_garbage() {
    let state = new_state();
    let r = verify_token(
        &state,
        VerifyTokenRequest {
            token: "invalid-token".to_string(),
        },
        NOW,
    );
    assert_eq!(r.unwrap_err(), AuthAPIError::InvalidToken);
}

#[test]
fn verify_token_rejects_an_expired_token() {
    let mut state = new_state();
    signup(&mut state, signup_request("a@b.com", "password123", false)).unwrap();
    let token = match login(&mut state, login_request("a@b.com", "password123"), NOW).unwrap() {
        LoginResponse::RegularAuth { token } => token,
        LoginResponse::TwoFactorAuth(_) => panic!("no second factor was enabled"),
    };
    let r = verify_token(
        &state,
        VerifyTokenRequest {
            token: token.clone(),
        },
        NOW + 600,
    );
    assert!(r.is_ok());
    let r = verify_token(&state, VerifyTokenRequest { token }, NOW + 601);
    assert_eq!(r.unwrap_err(), AuthAPIError::InvalidToken);
}

#[test]
fn verify_token_rejects_a_tampered_subject() {
    let mut state = new_state();
    signup(&mut state, signup_request("a@b.com", "password123", false)).unwrap();
    let token = match login(&mut state, login_request("a@b.com", "password123"), NOW).unwrap() {
        LoginResponse::RegularAuth { token } => token,
        LoginResponse::TwoFactorAuth(_) => panic!("no second factor was enabled"),
    };
    assert!(token.ends_with(".a@b.com"));
    let mut tampered = token[..token.len() - 1].to_string();
    tampered.push('x');
    let r = verify_token(&state, VerifyTokenRequest { token: tampered }, NOW);
    assert_eq!(r.unwrap_err(), AuthAPIError::InvalidToken);
}

#[test]
fn verify_token_rejects_a_respelled_timestamp() {
    let mut state = new_state();
    signup(&mut state, signup_request("a@b.com", "password123", false)).unwrap();
    let token = match login(&mut state, login_request("a@b.com", "password123"), NOW).unwrap() {
        LoginResponse::RegularAuth { token } => token,
        LoginResponse::TwoFactorAuth(_) => panic!("no second factor was enabled"),
    };
    let respelled = format!("0{}", token);
    let r = verify_token(
        &state,
        VerifyTokenRequest { token: respelled },
        NOW,
    );
    assert_eq!(r.unwrap_err(), AuthAPIError::InvalidToken);
}
