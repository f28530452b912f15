//! The session-token service: issuing signed, time-limited bearer tokens
//! and validating presented tokens against signature, expiry and the
//! revocation set.
//!
//! A token is the text `iat.exp.tag.subject`: the issue and expiry times in
//! canonical decimal, the HMAC-SHA-256 tag of `iat.exp.subject` in lowercase
//! hexadecimal, and the subject email. The first three fields never contain
//! `'.'`, so splitting at the first three dots is unambiguous whatever dots
//! the email holds; canonical decimals and lowercase hexadecimal make the
//! token string a function of its claims, so revoking a token by its exact
//! text revokes the only accepted spelling of those claims.
use vstd::prelude::*;
use vstd::string::*;

use crate::crypto::{hmac_sha256_tag, hmac_tag_of};
use crate::data_stores::BannedTokenStore;
use crate::decimal::{
    dec_str_of, is_dec_digit, lemma_dec_str_of, parse_u64_dec, spec_parse_u64, u64_to_dec,
};
use crate::email::{Email, valid_email};
use crate::errors::AuthAPIError;
use crate::hexstr::{bytes_to_hex, hex_of, lemma_hex_of};
use crate::scan::{find_char_from, first_index_of, lemma_first_index_of, lemma_first_index_of_unique};

verus! {

/// How long an issued token stays valid, in seconds.
pub const TOKEN_TTL_SECONDS: u64 = 600;

/// The decoded, verified payload of a session token.
#[derive(Debug)]
pub struct Claims {
    pub subject: Email,
    pub issued_at: u64,
    pub expires_at: u64,
}

/// The mathematical content of a token's claims.
pub ghost struct ClaimsView {
    pub subject: Seq<char>,
    pub issued_at: u64,
    pub expires_at: u64,
}

impl View for Claims {
    type V = ClaimsView;

    open spec fn view(&self) -> ClaimsView {
        ClaimsView {
            subject: self.subject@,
            issued_at: self.issued_at,
            expires_at: self.expires_at,
        }
    }
}

/// The text whose tag binds a token's claims: `iat.exp.subject`.
pub open spec fn mac_input_chars(subject: Seq<char>, iat: u64, exp: u64) -> Seq<char> {
    dec_str_of(iat as nat) + seq!['.'] + dec_str_of(exp as nat) + seq!['.'] + subject
}

/// The token text for the given claims under the signing key `secret`.
pub open spec fn token_chars(secret: Seq<u8>, subject: Seq<char>, iat: u64, exp: u64) -> Seq<
    char,
> {
    dec_str_of(iat as nat) + seq!['.'] + dec_str_of(exp as nat) + seq!['.'] + hex_of(
        hmac_tag_of(secret, mac_input_chars(subject, iat, exp)),
    ) + seq!['.'] + subject
}

/// Splits `t` at its first three dots: the three fields before them and the
/// remainder, which may itself contain dots.
pub open spec fn split_token(t: Seq<char>) -> Option<(Seq<char>, Seq<char>, Seq<char>, Seq<char>)> {
    let i1 = first_index_of(t, '.');
    if i1 < 0 {
        None
    } else {
        let r1 = t.skip(i1 + 1);
        let i2 = first_index_of(r1, '.');
        if i2 < 0 {
            None
        } else {
            let r2 = r1.skip(i2 + 1);
            let i3 = first_index_of(r2, '.');
            if i3 < 0 {
                None
            } else {
                Some((t.take(i1), r1.take(i2), r2.take(i3), r2.skip(i3 + 1)))
            }
        }
    }
}

/// The claims a token text carries under `secret`, if it is well-formed and
/// its tag verifies: canonical timestamps, a valid subject address, and the
/// tag of exactly those claims.
pub open spec fn token_claims(secret: Seq<u8>, t: Seq<char>) -> Option<ClaimsView> {
    match split_token(t) {
        None => None,
        Some(parts) => match (spec_parse_u64(parts.0), spec_parse_u64(parts.1)) {
            (Some(iat), Some(exp)) => if valid_email(parts.3) && parts.2 == hex_of(
                hmac_tag_of(secret, mac_input_chars(parts.3, iat, exp)),
            ) {
                Some(ClaimsView { subject: parts.3, issued_at: iat, expires_at: exp })
            } else {
                None
            },
            _ => None,
        },
    }
}

/// Whether a presented token is accepted at time `now` against the
/// revocation set `banned`: its tag verifies, it has not expired, and it has
/// not been revoked. The three checks are order-independent; failing any one
/// of them yields the same `InvalidToken` kind.
pub open spec fn token_valid(secret: Seq<u8>, t: Seq<char>, now: u64, banned: Set<Seq<char>>) -> bool {
    match token_claims(secret, t) {
        Some(c) => now <= c.expires_at && !banned.contains(t),
        None => false,
    }
}

/// Issues and validates tokens under one process-wide signing key.
pub struct TokenService {
    secret: Vec<u8>,
}

impl View for TokenService {
    type V = Seq<u8>;

    closed spec fn view(&self) -> Seq<u8> {
        self.secret@
    }
}

impl TokenService {
    /// A token service signing with `secret`.
    pub fn new(secret: Vec<u8>) -> (r: TokenService)
        ensures
            r@ == secret@,
    {
        TokenService { secret }
    }

    /// Mints the token for `subject` at time `now`, expiring one TTL later.
    pub fn issue(&self, subject: &Email, now: u64) -> (t: String)
        requires
            now + TOKEN_TTL_SECONDS <= u64::MAX,
        ensures
            t@ == token_chars(self@, subject@, now, (now + TOKEN_TTL_SECONDS) as u64),
    {
        let exp = now + TOKEN_TTL_SECONDS;
        let mut input = u64_to_dec(now);
        input.append(".");
        input.append(u64_to_dec(exp).as_str());
        input.append(".");
        input.append(subject.as_str());
        proof {
            reveal_strlit(".");
            assert("."@ =~= seq!['.']);
            assert(input@ =~= mac_input_chars(subject@, now, exp));
        }
        let tag = hmac_sha256_tag(self.secret.as_slice(), input.as_str());
        let mut t = u64_to_dec(now);
        t.append(".");
        t.append(u64_to_dec(exp).as_str());
        t.append(".");
        t.append(bytes_to_hex(&tag).as_str());
        t.append(".");
        t.append(subject.as_str());
        proof {
            assert(t@ =~= token_chars(self@, subject@, now, exp));
        }
        t
    }

    /// Decides whether `token` is accepted at time `now`, and hands back its
    /// claims when it is. Signature, expiry and revocation are all checked;
    /// every failure collapses into the one `InvalidToken` kind.
    pub fn validate<B: BannedTokenStore>(&self, token: &str, now: u64, banned: &B) -> (r: Result<
        Claims,
        AuthAPIError,
    >)
        ensures
            match r {
                Ok(c) => token_valid(self@, token@, now, banned.tokens()) && token_claims(
                    self@,
                    token@,
                ) == Some(c@),
                Err(e) => e == AuthAPIError::InvalidToken && !token_valid(
                    self@,
                    token@,
                    now,
                    banned.tokens(),
                ),
            },
    {
        let n = token.unicode_len();
        let i1 = find_char_from(token, 0, n, '.');
        if i1 == n {
            proof {
                lemma_split_none(token@);
            }
            return Err(AuthAPIError::InvalidToken);
        }
        let i2 = find_char_from(token, i1 + 1, n, '.');
        if i2 == n {
            proof {
                lemma_skip_none(token@, i1 as int, i2 as int, n as int);
            }
            return Err(AuthAPIError::InvalidToken);
        }
        let i3 = find_char_from(token, i2 + 1, n, '.');
        if i3 == n {
            proof {
                lemma_skip_none2(token@, i1 as int, i2 as int, i3 as int, n as int);
            }
            return Err(AuthAPIError::InvalidToken);
        }
        proof {
            lemma_split_some(token@, i1 as int, i2 as int, i3 as int);
        }
        let iat_part = token.substring_char(0, i1);
        let exp_part = token.substring_char(i1 + 1, i2);
        let tag_part = token.substring_char(i2 + 1, i3);
        let subject_part = token.substring_char(i3 + 1, n);
        let iat = match parse_u64_dec(iat_part) {
            Some(v) => v,
            None => {
                return Err(AuthAPIError::InvalidToken);
            },
        };
        let exp = match parse_u64_dec(exp_part) {
            Some(v) => v,
            None => {
                return Err(AuthAPIError::InvalidToken);
            },
        };
        let subject = match Email::parse(String::from_str(subject_part)) {
            Ok(e) => e,
            Err(_) => {
                return Err(AuthAPIError::InvalidToken);
            },
        };
        let mut input = u64_to_dec(iat);
        input.append(".");
        input.append(u64_to_dec(exp).as_str());
        input.append(".");
        input.append(subject_part);
        proof {
            reveal_strlit(".");
            assert("."@ =~= seq!['.']);
            assert(input@ =~= mac_input_chars(subject@, iat, exp));
        }
        let tag = hmac_sha256_tag(self.secret.as_slice(), input.as_str());
        let expected = bytes_to_hex(&tag);
        if !(expected == String::from_str(tag_part)) {
            return Err(AuthAPIError::InvalidToken);
        }
        if now > exp {
            return Err(AuthAPIError::InvalidToken);
        }
        let revoked = match banned.contains_token(token) {
            Ok(b) => b,
            Err(_) => true,
        };
        if revoked {
            return Err(AuthAPIError::InvalidToken);
        }
        Ok(Claims { subject, issued_at: iat, expires_at: exp })
    }
}

/// A text without any dot does not split.
proof fn lemma_split_none(t: Seq<char>)
    requires
        forall|j: int| 0 <= j < t.len() ==> t[j] != '.',
    ensures
        split_token(t) is None,
{
    lemma_first_index_of(t, '.');
    if first_index_of(t, '.') >= 0 {
        assert(t[first_index_of(t, '.')] == '.');
    }
}

/// With only one dot, at `i1`, the text does not split.
proof fn lemma_skip_none(t: Seq<char>, i1: int, i2: int, n: int)
    requires
        n == t.len(),
        0 <= i1 < n,
        t[i1] == '.',
        forall|j: int| 0 <= j < i1 ==> t[j] != '.',
        i1 < i2 <= n,
        forall|j: int| i1 + 1 <= j < i2 ==> t[j] != '.',
        i2 == n,
    ensures
        split_token(t) is None,
{
    lemma_first_index_of_unique(t, '.', i1);
    let r1 = t.skip(i1 + 1);
    assert(forall|j: int| 0 <= j < r1.len() ==> r1[j] == t[i1 + 1 + j]);
    lemma_first_index_of(r1, '.');
    if first_index_of(r1, '.') >= 0 {
        assert(r1[first_index_of(r1, '.')] == '.');
    }
}

/// With only two dots, at `i1` and `i2`, the text does not split.
proof fn lemma_skip_none2(t: Seq<char>, i1: int, i2: int, i3: int, n: int)
    requires
        n == t.len(),
        0 <= i1 < i2 < n,
        t[i1] == '.',
        t[i2] == '.',
        forall|j: int| 0 <= j < i1 ==> t[j] != '.',
        forall|j: int| i1 + 1 <= j < i2 ==> t[j] != '.',
        i2 < i3 <= n,
        forall|j: int| i2 + 1 <= j < i3 ==> t[j] != '.',
        i3 == n,
    ensures
        split_token(t) is None,
{
    lemma_first_index_of_unique(t, '.', i1);
    let r1 = t.skip(i1 + 1);
    assert(forall|j: int| 0 <= j < r1.len() ==> r1[j] == t[i1 + 1 + j]);
    assert(r1[i2 - i1 - 1] == '.');
    lemma_first_index_of_unique(r1, '.', i2 - i1 - 1);
    let r2 = r1.skip(i2 - i1);
    assert(forall|j: int|
        0 <= j < r2.len() ==> r2[j] == r1[i2 - i1 + j] && r1[i2 - i1 + j] == t[i2 + 1 + j]);
    lemma_first_index_of(r2, '.');
    if first_index_of(r2, '.') >= 0 {
        assert(r2[first_index_of(r2, '.')] == '.');
    }
}

/// With dots at `i1 < i2 < i3`, none earlier in their stretches, the text
/// splits into the four expected pieces.
proof fn lemma_split_some(t: Seq<char>, i1: int, i2: int, i3: int)
    requires
        0 <= i1 < i2 < i3 < t.len(),
        t[i1] == '.',
        t[i2] == '.',
        t[i3] == '.',
        forall|j: int| 0 <= j < i1 ==> t[j] != '.',
        forall|j: int| i1 + 1 <= j < i2 ==> t[j] != '.',
        forall|j: int| i2 + 1 <= j < i3 ==> t[j] != '.',
    ensures
        split_token(t) == Some(
            (
                t.subrange(0, i1),
                t.subrange(i1 + 1, i2),
                t.subrange(i2 + 1, i3),
                t.subrange(i3 + 1, t.len() as int),
            ),
        ),
{
    lemma_first_index_of_unique(t, '.', i1);
    let r1 = t.skip(i1 + 1);
    assert(forall|j: int| 0 <= j < r1.len() ==> r1[j] == t[i1 + 1 + j]);
    assert(r1[i2 - i1 - 1] == '.');
    lemma_first_index_of_unique(r1, '.', i2 - i1 - 1);
    let r2 = r1.skip(i2 - i1);
    assert(forall|j: int|
        0 <= j < r2.len() ==> r2[j] == r1[i2 - i1 + j] && r1[i2 - i1 + j] == t[i2 + 1 + j]);
    assert(r2[i3 - i2 - 1] == '.');
    lemma_first_index_of_unique(r2, '.', i3 - i2 - 1);
    assert(t.take(i1) =~= t.subrange(0, i1));
    assert(r1.take(i2 - i1 - 1) =~= t.subrange(i1 + 1, i2));
    assert(r2.take(i3 - i2 - 1) =~= t.subrange(i2 + 1, i3));
    assert(r2.skip(i3 - i2) =~= t.subrange(i3 + 1, t.len() as int));
}

/// The token text for given claims parses back to exactly those claims:
/// issuing and then validating is the identity on claims.
pub proof fn lemma_token_round_trip(secret: Seq<u8>, subject: Seq<char>, iat: u64, exp: u64)
    requires
        valid_email(subject),
    ensures
        token_claims(secret, token_chars(secret, subject, iat, exp)) == Some(
            ClaimsView { subject, issued_at: iat, expires_at: exp },
        ),
{
    let a = dec_str_of(iat as nat);
    let b = dec_str_of(exp as nat);
    let h = hex_of(hmac_tag_of(secret, mac_input_chars(subject, iat, exp)));
    let t = token_chars(secret, subject, iat, exp);
    lemma_dec_str_of(iat as nat);
    lemma_dec_str_of(exp as nat);
    lemma_hex_of(hmac_tag_of(secret, mac_input_chars(subject, iat, exp)));
    let i1 = a.len() as int;
    let i2 = i1 + 1 + b.len();
    let i3 = i2 + 1 + h.len();
    assert(t.len() == i3 + 1 + subject.len());
    assert(t[i1] == '.' && t[i2] == '.' && t[i3] == '.');
    assert forall|j: int| 0 <= j < i1 implies t[j] != '.' by {
        assert(t[j] == a[j]);
        assert(is_dec_digit(a[j]));
    }
    assert forall|j: int| i1 + 1 <= j < i2 implies t[j] != '.' by {
        assert(t[j] == b[j - i1 - 1]);
        assert(is_dec_digit(b[j - i1 - 1]));
    }
    assert forall|j: int| i2 + 1 <= j < i3 implies t[j] != '.' by {
        assert(t[j] == h[j - i2 - 1]);
    }
    lemma_split_some(t, i1, i2, i3);
    assert(t.subrange(0, i1) =~= a);
    assert(t.subrange(i1 + 1, i2) =~= b);
    assert(t.subrange(i2 + 1, i3) =~= h);
    assert(t.subrange(i3 + 1, t.len() as int) =~= subject);
    crate::decimal::lemma_parse_u64_round_trip(iat);
    crate::decimal::lemma_parse_u64_round_trip(exp);
}

/// A token text that carries claims is the one `token_chars` writes for
/// them: the claims determine the text. With the round trip this makes the
/// token text a bijective spelling of its claims, so banning the presented
/// text revokes the only accepted spelling of those claims.
pub proof fn lemma_token_claims_determine_token(secret: Seq<u8>, t: Seq<char>, c: ClaimsView)
    requires
        token_claims(secret, t) == Some(c),
    ensures
        t == token_chars(secret, c.subject, c.issued_at, c.expires_at),
{
    let i1 = first_index_of(t, '.');
    lemma_first_index_of(t, '.');
    let r1 = t.skip(i1 + 1);
    let i2 = first_index_of(r1, '.');
    lemma_first_index_of(r1, '.');
    let r2 = r1.skip(i2 + 1);
    let i3 = first_index_of(r2, '.');
    lemma_first_index_of(r2, '.');
    let a = t.take(i1);
    let b = r1.take(i2);
    let h = r2.take(i3);
    let e = r2.skip(i3 + 1);
    assert(split_token(t) == Some((a, b, h, e)));
    crate::decimal::lemma_dec_canonical(a);
    crate::decimal::lemma_dec_canonical(b);
    assert(a == dec_str_of(c.issued_at as nat));
    assert(b == dec_str_of(c.expires_at as nat));
    assert(h == hex_of(hmac_tag_of(secret, mac_input_chars(e, c.issued_at, c.expires_at))));
    assert(forall|j: int| 0 <= j < r1.len() ==> r1[j] == t[i1 + 1 + j]);
    assert(forall|j: int| 0 <= j < r2.len() ==> r2[j] == r1[i2 + 1 + j]);
    assert(t =~= a + seq!['.'] + b + seq!['.'] + h + seq!['.'] + e);
}

} // verus!
