//! The authentication flow controller: signup, login (with or without a
//! second factor), second-factor verification, logout and token
//! verification, composed from the stores and the token service. Each
//! operation's outcome is pinned to a spec-level model of the same decision.
use vstd::prelude::*;
use vstd::string::*;

use crate::data_stores::{
    BannedTokenStore, ChallengeView, LoginAttemptId, TwoFACode, TwoFACodeStore, UserStore,
    is_code_chars, is_uuid_chars,
};
use crate::email::{Email, valid_email};
use crate::errors::{AuthAPIError, UserStoreError};
use crate::password::{Password, valid_password};
use crate::token::{Claims, TOKEN_TTL_SECONDS, TokenService, token_chars, token_claims, token_valid};
use crate::crypto::hmac_tag_of;
use crate::user::{StoredUserView, User};

verus! {

/// The shared state the flow controller works on: the three stores and the
/// token service.
pub struct AppState<U: UserStore, B: BannedTokenStore, T: TwoFACodeStore> {
    pub user_store: U,
    pub banned_token_store: B,
    pub two_fa_code_store: T,
    pub token_service: TokenService,
}

impl<U: UserStore, B: BannedTokenStore, T: TwoFACodeStore> AppState<U, B, T> {
    /// Bundles the collaborators into one state value.
    pub fn new(user_store: U, banned_token_store: B, two_fa_code_store: T, token_service: TokenService) -> (r: AppState<U, B, T>)
        ensures
            r.user_store == user_store,
            r.banned_token_store == banned_token_store,
            r.two_fa_code_store == two_fa_code_store,
            r.token_service == token_service,
    {
        AppState { user_store, banned_token_store, two_fa_code_store, token_service }
    }
}

/// A signup request: raw credentials, and whether to require a second
/// factor at login.
pub struct SignupRequest {
    pub email: String,
    pub password: String,
    pub requires_2fa: bool,
}

/// The confirmation a successful signup returns.
#[derive(Debug, PartialEq)]
pub struct SignupResponse {
    pub message: String,
}

/// A login request: raw credentials.
pub struct LoginRequest {
    pub email: String,
    pub password: String,
}

/// The response to a login that now awaits a second factor: no session
/// token yet, only the attempt identifier to hand back with the code.
#[derive(Debug, PartialEq)]
pub struct TwoFactorAuthResponse {
    pub message: String,
    pub login_attempt_id: String,
}

/// What a successful login returns: a session token outright, or a pending
/// second-factor challenge — a distinct kind, since no token is issued yet.
#[derive(Debug)]
pub enum LoginResponse {
    RegularAuth { token: String },
    TwoFactorAuth(TwoFactorAuthResponse),
}

/// A second-factor verification request: the email, the attempt identifier
/// the login returned, and the one-time code.
pub struct Verify2FARequest {
    pub email: String,
    pub login_attempt_id: String,
    pub two_fa_code: String,
}

/// A token verification request.
pub struct VerifyTokenRequest {
    pub token: String,
}

/// What signup decides from the stored users and the raw inputs: malformed
/// credentials are rejected first, then a taken email.
pub open spec fn signup_outcome(
    users: Map<Seq<char>, StoredUserView>,
    email: Seq<char>,
    password: Seq<char>,
) -> Result<(), AuthAPIError> {
    if !(valid_email(email) && valid_password(password)) {
        Err(AuthAPIError::InvalidCredentials)
    } else if users.contains_key(email) {
        Err(AuthAPIError::UserAlreadyExists)
    } else {
        Ok(())
    }
}

/// What login rejects: malformed credentials as `InvalidCredentials`; an
/// unknown email, and a password that does not hash to the stored record's
/// tag under its salt, indistinguishably, as `IncorrectCredentials`.
pub open spec fn login_error(
    users: Map<Seq<char>, StoredUserView>,
    email: Seq<char>,
    password: Seq<char>,
) -> Option<AuthAPIError> {
    if !(valid_email(email) && valid_password(password)) {
        Some(AuthAPIError::InvalidCredentials)
    } else if !users.contains_key(email) || users[email].password_tag != hmac_tag_of(
        users[email].salt,
        password,
    ) {
        Some(AuthAPIError::IncorrectCredentials)
    } else {
        None
    }
}

/// What second-factor verification decides: malformed inputs are rejected
/// as `InvalidCredentials`; a missing challenge, a wrong attempt identifier
/// and a wrong code all fail, indistinguishably, as `IncorrectCredentials`.
pub open spec fn verify_2fa_outcome(
    codes: Map<Seq<char>, ChallengeView>,
    email: Seq<char>,
    id: Seq<char>,
    code: Seq<char>,
) -> Result<(), AuthAPIError> {
    if !(valid_email(email) && is_uuid_chars(id) && is_code_chars(code)) {
        Err(AuthAPIError::InvalidCredentials)
    } else if !codes.contains_key(email) || codes[email] != (ChallengeView { id, code }) {
        Err(AuthAPIError::IncorrectCredentials)
    } else {
        Ok(())
    }
}

/// What logout decides: no token presented is `MissingToken`; a token that
/// does not validate — mis-signed, expired or already revoked — is
/// `InvalidToken`.
pub open spec fn logout_outcome(
    secret: Seq<u8>,
    banned: Set<Seq<char>>,
    token: Option<Seq<char>>,
    now: u64,
) -> Result<(), AuthAPIError> {
    match token {
        None => Err(AuthAPIError::MissingToken),
        Some(t) => if token_valid(secret, t, now, banned) {
            Ok(())
        } else {
            Err(AuthAPIError::InvalidToken)
        },
    }
}

/// Registers a new user: parses both credentials, rejects a taken email,
/// and otherwise records the user. A store failure surfaces as
/// `UnexpectedError` with nothing recorded.
pub fn signup<U: UserStore, B: BannedTokenStore, T: TwoFACodeStore>(
    state: &mut AppState<U, B, T>,
    request: SignupRequest,
) -> (r: Result<SignupResponse, AuthAPIError>)
    ensures
        final(state).banned_token_store == old(state).banned_token_store,
        final(state).two_fa_code_store == old(state).two_fa_code_store,
        final(state).token_service == old(state).token_service,
        ({
            let users0 = old(state).user_store.users();
            let o = signup_outcome(users0, request.email@, request.password@);
            match r {
                Ok(resp) => o is Ok && (exists|salt: Seq<u8>|
                    final(state).user_store.users() == users0.insert(
                        request.email@,
                        StoredUserView {
                            email: request.email@,
                            salt,
                            password_tag: hmac_tag_of(salt, request.password@),
                            requires_2fa: request.requires_2fa,
                        },
                    )) && resp.message@ == "User created successfully!"@,
                Err(e) => final(state).user_store.users() == users0 && (o == Err::<
                    (),
                    AuthAPIError,
                >(e) || (e == AuthAPIError::UnexpectedError && o is Ok)),
            }
        }),
{
    let email = match Email::parse(request.email) {
        Ok(e) => e,
        Err(_) => {
            return Err(AuthAPIError::InvalidCredentials);
        },
    };
    let password = match Password::parse(request.password) {
        Ok(p) => p,
        Err(_) => {
            return Err(AuthAPIError::InvalidCredentials);
        },
    };
    let user = User::new(email, password, request.requires_2fa);
    match state.user_store.add_user(user) {
        Ok(_) => Ok(
            SignupResponse { message: String::from_str("User created successfully!") },
        ),
        Err(UserStoreError::UserAlreadyExists) => Err(AuthAPIError::UserAlreadyExists),
        Err(_) => Err(AuthAPIError::UnexpectedError),
    }
}

/// Authenticates a user. With the second factor disabled, issues a session
/// token at once; with it enabled, mints and stores a fresh challenge and
/// returns its attempt identifier instead — superseding any challenge still
/// pending for that email.
pub fn login<U: UserStore, B: BannedTokenStore, T: TwoFACodeStore>(
    state: &mut AppState<U, B, T>,
    request: LoginRequest,
    now: u64,
) -> (r: Result<LoginResponse, AuthAPIError>)
    requires
        now + TOKEN_TTL_SECONDS <= u64::MAX,
    ensures
        final(state).user_store == old(state).user_store,
        final(state).banned_token_store == old(state).banned_token_store,
        final(state).token_service == old(state).token_service,
        ({
            let users0 = old(state).user_store.users();
            let codes0 = old(state).two_fa_code_store.codes();
            let secret = old(state).token_service@;
            let err = login_error(users0, request.email@, request.password@);
            match r {
                Err(e) => final(state).two_fa_code_store.codes() == codes0 && (err == Some(e) || (e
                    == AuthAPIError::UnexpectedError && err is None
                    && users0[request.email@].requires_2fa)),
                Ok(resp) => err is None && match resp {
                    LoginResponse::RegularAuth { token } => !users0[request.email@].requires_2fa
                        && token@ == token_chars(
                        secret,
                        request.email@,
                        now,
                        (now + TOKEN_TTL_SECONDS) as u64,
                    ) && final(state).two_fa_code_store.codes() == codes0,
                    LoginResponse::TwoFactorAuth(tfa) => users0[request.email@].requires_2fa
                        && is_uuid_chars(tfa.login_attempt_id@) && tfa.message@ == "2FA required"@
                        && (exists|code: Seq<char>|
                        #[trigger] is_code_chars(code) && final(state).two_fa_code_store.codes()
                            == codes0.insert(
                            request.email@,
                            ChallengeView { id: tfa.login_attempt_id@, code },
                        )),
                },
            }
        }),
{
    let email = match Email::parse(request.email) {
        Ok(e) => e,
        Err(_) => {
            return Err(AuthAPIError::InvalidCredentials);
        },
    };
    let password = match Password::parse(request.password) {
        Ok(p) => p,
        Err(_) => {
            return Err(AuthAPIError::InvalidCredentials);
        },
    };
    if let Err(_) = state.user_store.validate_user(&email, &password) {
        return Err(AuthAPIError::IncorrectCredentials);
    }
    let user = match state.user_store.get_user(&email) {
        Ok(u) => u,
        Err(_) => {
            return Err(AuthAPIError::IncorrectCredentials);
        },
    };
    if user.requires_2fa {
        let id = LoginAttemptId::mint();
        let code = TwoFACode::mint();
        let id_text = String::from_str(id.as_str());
        let ghost code_view = code@;
        match state.two_fa_code_store.add_code(email, id, code) {
            Ok(_) => {
                proof {
                    assert(is_code_chars(code_view) && state.two_fa_code_store.codes() == old(
                        state,
                    ).two_fa_code_store.codes().insert(
                        request.email@,
                        ChallengeView { id: id_text@, code: code_view },
                    ));
                }
                Ok(
                    LoginResponse::TwoFactorAuth(
                        TwoFactorAuthResponse {
                            message: String::from_str("2FA required"),
                            login_attempt_id: id_text,
                        },
                    ),
                )
            },
            Err(_) => Err(AuthAPIError::UnexpectedError),
        }
    } else {
        let token = state.token_service.issue(&email, now);
        Ok(LoginResponse::RegularAuth { token })
    }
}

/// Verifies a pending second-factor challenge: both the attempt identifier
/// and the code must match exactly. On a match the challenge is consumed —
/// a replay with the same values then fails — and a session token is
/// issued.
pub fn verify_2fa<U: UserStore, B: BannedTokenStore, T: TwoFACodeStore>(
    state: &mut AppState<U, B, T>,
    request: Verify2FARequest,
    now: u64,
) -> (r: Result<String, AuthAPIError>)
    requires
        now + TOKEN_TTL_SECONDS <= u64::MAX,
    ensures
        final(state).user_store == old(state).user_store,
        final(state).banned_token_store == old(state).banned_token_store,
        final(state).token_service == old(state).token_service,
        ({
            let codes0 = old(state).two_fa_code_store.codes();
            let secret = old(state).token_service@;
            let o = verify_2fa_outcome(
                codes0,
                request.email@,
                request.login_attempt_id@,
                request.two_fa_code@,
            );
            match r {
                Ok(token) => o is Ok && token@ == token_chars(
                    secret,
                    request.email@,
                    now,
                    (now + TOKEN_TTL_SECONDS) as u64,
                ) && final(state).two_fa_code_store.codes() == codes0.remove(request.email@),
                Err(e) => final(state).two_fa_code_store.codes() == codes0 && (o == Err::<
                    (),
                    AuthAPIError,
                >(e) || (e == AuthAPIError::IncorrectCredentials && o is Ok)),
            }
        }),
{
    let email = match Email::parse(request.email) {
        Ok(e) => e,
        Err(_) => {
            return Err(AuthAPIError::InvalidCredentials);
        },
    };
    let id = match LoginAttemptId::parse(request.login_attempt_id) {
        Ok(v) => v,
        Err(_) => {
            return Err(AuthAPIError::InvalidCredentials);
        },
    };
    let code = match TwoFACode::parse(request.two_fa_code) {
        Ok(v) => v,
        Err(_) => {
            return Err(AuthAPIError::InvalidCredentials);
        },
    };
    let stored = match state.two_fa_code_store.get_code(&email) {
        Ok(c) => c,
        Err(_) => {
            return Err(AuthAPIError::IncorrectCredentials);
        },
    };
    if !(stored.0 == id) || !(stored.1 == code) {
        return Err(AuthAPIError::IncorrectCredentials);
    }
    match state.two_fa_code_store.remove_code(&email) {
        Ok(_) => {},
        Err(_) => {
            return Err(AuthAPIError::IncorrectCredentials);
        },
    }
    let token = state.token_service.issue(&email, now);
    Ok(token)
}

/// Revokes a presented session token: it must be present and still valid,
/// and is then recorded in the banned token store, after which validation
/// rejects it for good.
pub fn logout<U: UserStore, B: BannedTokenStore, T: TwoFACodeStore>(
    state: &mut AppState<U, B, T>,
    token: Option<&str>,
    now: u64,
) -> (r: Result<(), AuthAPIError>)
    ensures
        final(state).user_store == old(state).user_store,
        final(state).two_fa_code_store == old(state).two_fa_code_store,
        final(state).token_service == old(state).token_service,
        ({
            let banned0 = old(state).banned_token_store.tokens();
            let secret = old(state).token_service@;
            let o = logout_outcome(
                secret,
                banned0,
                match token {
                    Some(t) => Some(t@),
                    None => None,
                },
                now,
            );
            match r {
                Ok(_) => o is Ok && (token matches Some(t)
                    && final(state).banned_token_store.tokens() == banned0.insert(t@)),
                Err(e) => final(state).banned_token_store.tokens() == banned0 && (o == Err::<
                    (),
                    AuthAPIError,
                >(e) || (e == AuthAPIError::UnexpectedError && o is Ok)),
            }
        }),
{
    let t = match token {
        Some(t) => t,
        None => {
            return Err(AuthAPIError::MissingToken);
        },
    };
    match state.token_service.validate(t, now, &state.banned_token_store) {
        Ok(_) => {},
        Err(_) => {
            return Err(AuthAPIError::InvalidToken);
        },
    }
    match state.banned_token_store.add_token(String::from_str(t)) {
        Ok(_) => Ok(()),
        Err(_) => Err(AuthAPIError::UnexpectedError),
    }
}

/// Checks a presented session token against signature, expiry and the
/// banned token store, and returns its claims when all three pass.
pub fn verify_token<U: UserStore, B: BannedTokenStore, T: TwoFACodeStore>(
    state: &AppState<U, B, T>,
    request: VerifyTokenRequest,
    now: u64,
) -> (r: Result<Claims, AuthAPIError>)
    ensures
        ({
            let secret = state.token_service@;
            let banned = state.banned_token_store.tokens();
            match r {
                Ok(c) => token_valid(secret, request.token@, now, banned) && token_claims(
                    secret,
                    request.token@,
                ) == Some(c@),
                Err(e) => e == AuthAPIError::InvalidToken && !token_valid(
                    secret,
                    request.token@,
                    now,
                    banned,
                ),
            }
        }),
{
    match state.token_service.validate(request.token.as_str(), now, &state.banned_token_store) {
        Ok(c) => Ok(c),
        Err(_) => Err(AuthAPIError::InvalidToken),
    }
}

} // verus!
