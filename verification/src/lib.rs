//! A credential-authentication library: validated credential value objects,
//! user / banned-token / two-factor-code stores, an HMAC-signed session-token
//! service, and the authentication flow built from them.

mod crypto;
mod data_stores;
mod decimal;
mod email;
mod errors;
mod flow;
mod hashmap_two_fa_code_store;
mod hashmap_user_store;
mod hashset_banned_token_store;
mod hexstr;
mod laws;
mod password;
mod password_hash;
mod scan;
mod token;
mod user;

pub use crypto::hmac_tag_of;
pub use data_stores::{
    BannedTokenStore, ChallengeView, LoginAttemptId, TwoFACode, TwoFACodeStore, UserStore,
    is_code_chars, is_uuid_chars,
};
pub use decimal::{all_dec_digits, dec_digit_val, dec_str_of, dec_val, digit_char, is_dec_digit};
pub use decimal::{
    lemma_dec_canonical, lemma_dec_str_of, lemma_dec_val_take_le, lemma_parse_u64_round_trip,
    parse_u64_dec, spec_parse_u64, u64_to_dec,
};
pub use email::{Email, is_host_char, valid_email, valid_host, validate_email};
pub use email::{lemma_email_accepts_well_formed, lemma_email_rejects_without_at};
pub use errors::{AuthAPIError, BannedTokenStoreError, TwoFACodeStoreError, UserStoreError};
pub use flow::{
    AppState, LoginRequest, LoginResponse, SignupRequest, SignupResponse, TwoFactorAuthResponse,
    Verify2FARequest, VerifyTokenRequest, login, login_error, logout, logout_outcome, signup,
    signup_outcome, verify_2fa, verify_2fa_outcome, verify_token,
};
pub use hashmap_two_fa_code_store::HashmapTwoFACodeStore;
pub use hashmap_user_store::HashmapUserStore;
pub use hashset_banned_token_store::HashsetBannedTokenStore;
pub use hexstr::{
    bytes_to_hex, hex_digit_char, hex_of, hex_of_byte, is_hex_digit, lemma_hex_digit_char,
    lemma_hex_of,
};
pub use laws::{
    lemma_duplicate_signup_fails, lemma_login_token_accepted, lemma_login_wrong_password,
    lemma_logout_revokes_for_good, lemma_second_login_supersedes, lemma_two_factor_verifies_once,
};
pub use password::{MIN_PASSWORD_CHARS, Password, valid_password};
pub use password_hash::{PasswordHash, PasswordHashView};
pub use scan::{find_char_from, first_index_of, lemma_first_index_of, lemma_first_index_of_unique};
pub use token::{
    Claims, ClaimsView, TOKEN_TTL_SECONDS, TokenService, lemma_token_claims_determine_token,
    lemma_token_round_trip, mac_input_chars,
    split_token, token_chars, token_claims, token_valid,
};
pub use user::{StoredUser, StoredUserView, User, UserView};
