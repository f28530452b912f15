//! Error kinds: one flat taxonomy at the flow boundary, and one small enum
//! per store. Store-level errors never cross the flow boundary unmapped.
use vstd::prelude::*;

verus! {

/// The kinds an authentication flow call can fail with. Malformed input is
/// `InvalidCredentials`; a well-formed but wrong secret or challenge is
/// `IncorrectCredentials`; expired, mis-signed and revoked tokens collapse
/// into the single kind `InvalidToken`; a failing store surfaces as
/// `UnexpectedError`.
#[derive(Clone, Copy, Debug, PartialEq, Eq)]
pub enum AuthAPIError {
    UserAlreadyExists,
    InvalidCredentials,
    IncorrectCredentials,
    MissingToken,
    InvalidToken,
    UnexpectedError,
}

/// What a user store call can fail with.
#[derive(Clone, Copy, Debug, PartialEq, Eq)]
pub enum UserStoreError {
    UserAlreadyExists,
    UserNotFound,
    InvalidCredentials,
    UnexpectedError,
}

/// What a banned token store call can fail with.
#[derive(Clone, Copy, Debug, PartialEq, Eq)]
pub enum BannedTokenStoreError {
    UnexpectedError,
}

/// What a two-factor code store call can fail with.
#[derive(Clone, Copy, Debug, PartialEq, Eq)]
pub enum TwoFACodeStoreError {
    CodeNotFound,
    UnexpectedError,
}

} // verus!
