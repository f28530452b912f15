//! The flow-level guarantees, proved over the same spec models the flow
//! functions' contracts are stated in: duplicate signups, the token
//! round trip, one-shot second-factor challenges, superseded challenges,
//! and the permanence of revocation.
use vstd::prelude::*;

use crate::data_stores::{ChallengeView, is_code_chars, is_uuid_chars};
use crate::email::valid_email;
use crate::errors::AuthAPIError;
use crate::flow::{login_error, logout_outcome, signup_outcome, verify_2fa_outcome};
use crate::password::valid_password;
use crate::token::{
    ClaimsView, TOKEN_TTL_SECONDS, lemma_token_round_trip, token_chars, token_claims, token_valid,
};
use crate::crypto::hmac_tag_of;
use crate::user::StoredUserView;

verus! {

/// Signing up twice with the same email fails the second time with
/// `UserAlreadyExists`, whatever well-formed password and second-factor
/// setting the second attempt carries and whatever salt the store drew for
/// the first record.
pub proof fn lemma_duplicate_signup_fails(
    users: Map<Seq<char>, StoredUserView>,
    email: Seq<char>,
    salt: Seq<u8>,
    password1: Seq<char>,
    requires_2fa: bool,
    password2: Seq<char>,
)
    requires
        signup_outcome(users, email, password1) is Ok,
        valid_password(password2),
    ensures
        signup_outcome(
            users.insert(
                email,
                StoredUserView {
                    email,
                    salt,
                    password_tag: hmac_tag_of(salt, password1),
                    requires_2fa,
                },
            ),
            email,
            password2,
        ) == Err::<(), AuthAPIError>(AuthAPIError::UserAlreadyExists),
{
}

/// After a signup, a login with the same email and password passes the
/// credential check, whatever salt the store drew: the stored tag is the
/// hash of exactly that password under that salt.
pub proof fn lemma_correct_password_accepted(
    users: Map<Seq<char>, StoredUserView>,
    email: Seq<char>,
    salt: Seq<u8>,
    password: Seq<char>,
    requires_2fa: bool,
)
    requires
        valid_email(email),
        valid_password(password),
    ensures
        login_error(
            users.insert(
                email,
                StoredUserView {
                    email,
                    salt,
                    password_tag: hmac_tag_of(salt, password),
                    requires_2fa,
                },
            ),
            email,
            password,
        ) is None,
{
}

/// A login with correct credentials and the second factor disabled returns
/// the token for its claims, and token verification accepts that token at
/// any time up to its expiry, as long as it has not been revoked.
pub proof fn lemma_login_token_accepted(
    secret: Seq<u8>,
    users: Map<Seq<char>, StoredUserView>,
    email: Seq<char>,
    password: Seq<char>,
    now: u64,
    later: u64,
    banned: Set<Seq<char>>,
)
    requires
        login_error(users, email, password) is None,
        now + TOKEN_TTL_SECONDS <= u64::MAX,
        later <= now + TOKEN_TTL_SECONDS,
        !banned.contains(token_chars(secret, email, now, (now + TOKEN_TTL_SECONDS) as u64)),
    ensures
        token_valid(
            secret,
            token_chars(secret, email, now, (now + TOKEN_TTL_SECONDS) as u64),
            later,
            banned,
        ),
        token_claims(secret, token_chars(secret, email, now, (now + TOKEN_TTL_SECONDS) as u64))
            == Some(
            ClaimsView {
                subject: email,
                issued_at: now,
                expires_at: (now + TOKEN_TTL_SECONDS) as u64,
            },
        ),
{
    lemma_token_round_trip(secret, email, now, (now + TOKEN_TTL_SECONDS) as u64);
}

/// A login with a well-formed email and password fails with
/// `IncorrectCredentials` when nobody registered the email, or when the
/// password does not hash to the stored tag — which is what a wrong
/// password does, short of a hash collision.
pub proof fn lemma_login_wrong_password(
    users: Map<Seq<char>, StoredUserView>,
    email: Seq<char>,
    password: Seq<char>,
)
    requires
        valid_email(email),
        valid_password(password),
        !users.contains_key(email) || users[email].password_tag != hmac_tag_of(
            users[email].salt,
            password,
        ),
    ensures
        login_error(users, email, password) == Some(AuthAPIError::IncorrectCredentials),
{
}

/// A freshly stored second-factor challenge verifies with its own attempt
/// identifier and code, and exactly once: consuming it removes it, and the
/// same values then fail with `IncorrectCredentials` — a replay is
/// rejected.
pub proof fn lemma_two_factor_verifies_once(
    codes: Map<Seq<char>, ChallengeView>,
    email: Seq<char>,
    id: Seq<char>,
    code: Seq<char>,
)
    requires
        valid_email(email),
        is_uuid_chars(id),
        is_code_chars(code),
    ensures
        verify_2fa_outcome(codes.insert(email, ChallengeView { id, code }), email, id, code)
            is Ok,
        verify_2fa_outcome(
            codes.insert(email, ChallengeView { id, code }).remove(email),
            email,
            id,
            code,
        ) == Err::<(), AuthAPIError>(AuthAPIError::IncorrectCredentials),
{
}

/// A second login for the same email supersedes the pending challenge:
/// unless the new challenge happens to repeat both values, verifying with
/// the first challenge's identifier and code now fails with
/// `IncorrectCredentials`, just as a wrong code does.
pub proof fn lemma_second_login_supersedes(
    codes: Map<Seq<char>, ChallengeView>,
    email: Seq<char>,
    id1: Seq<char>,
    code1: Seq<char>,
    id2: Seq<char>,
    code2: Seq<char>,
)
    requires
        valid_email(email),
        is_uuid_chars(id1),
        is_code_chars(code1),
        id1 != id2 || code1 != code2,
    ensures
        verify_2fa_outcome(
            codes.insert(email, ChallengeView { id: id1, code: code1 }).insert(
                email,
                ChallengeView { id: id2, code: code2 },
            ),
            email,
            id1,
            code1,
        ) == Err::<(), AuthAPIError>(AuthAPIError::IncorrectCredentials),
{
}

/// Logging out with a valid token succeeds, and only once: with the token
/// recorded as banned, a second logout fails with `InvalidToken`, and token
/// verification rejects the token for good — whatever its signature and
/// expiry say.
pub proof fn lemma_logout_revokes_for_good(
    secret: Seq<u8>,
    banned: Set<Seq<char>>,
    t: Seq<char>,
    now: u64,
    later: u64,
)
    requires
        token_valid(secret, t, now, banned),
    ensures
        logout_outcome(secret, banned, Some(t), now) is Ok,
        !token_valid(secret, t, later, banned.insert(t)),
        logout_outcome(secret, banned.insert(t), Some(t), later) == Err::<(), AuthAPIError>(
            AuthAPIError::InvalidToken,
        ),
{
}

} // verus!
