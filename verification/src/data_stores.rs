//! The storage interfaces the flow controller composes — user store, banned
//! token store and two-factor code store — and the two identifiers a
//! pending two-factor challenge consists of.
use vstd::prelude::*;
use vstd::string::*;

use crate::crypto::{hmac_tag_of, random_u64};
use crate::decimal::{check_dec_digit, digit_str, is_dec_digit, lemma_digit_char};
use crate::email::Email;
use crate::errors::{BannedTokenStoreError, TwoFACodeStoreError, UserStoreError};
use crate::hexstr::{
    check_hex_digit, hex_digit_char, hex_digit_str, is_hex_digit, lemma_hex_digit_char,
};
use crate::password::Password;
use crate::user::{StoredUser, StoredUserView, User};

verus! {

/// The shape of a login attempt identifier: the hyphenated hexadecimal text
/// of a UUID.
pub open spec fn is_uuid_chars(s: Seq<char>) -> bool {
    &&& s.len() == 36
    &&& forall|i: int|
        #![trigger s[i]]
        0 <= i < 36 ==> (if i == 8 || i == 13 || i == 18 || i == 23 {
            s[i] == '-'
        } else {
            is_hex_digit(s[i])
        })
}

/// The shape of a one-time code: exactly six decimal digits.
pub open spec fn is_code_chars(s: Seq<char>) -> bool {
    &&& s.len() == 6
    &&& forall|i: int| 0 <= i < 6 ==> is_dec_digit(#[trigger] s[i])
}

/// An opaque identifier minted per login attempt when a second factor is
/// required; it correlates the login call with the later verification call.
#[derive(Debug, Eq)]
pub struct LoginAttemptId(String);

/// A one-time six-digit code minted per login attempt.
#[derive(Debug, Eq)]
pub struct TwoFACode(String);

impl View for LoginAttemptId {
    type V = Seq<char>;

    closed spec fn view(&self) -> Seq<char> {
        self.0@
    }
}

impl View for TwoFACode {
    type V = Seq<char>;

    closed spec fn view(&self) -> Seq<char> {
        self.0@
    }
}

impl Clone for LoginAttemptId {
    fn clone(&self) -> (r: LoginAttemptId)
        ensures
            r@ == self@,
    {
        LoginAttemptId(self.0.clone())
    }
}

impl Clone for TwoFACode {
    fn clone(&self) -> (r: TwoFACode)
        ensures
            r@ == self@,
    {
        TwoFACode(self.0.clone())
    }
}

impl PartialEq for LoginAttemptId {
    fn eq(&self, other: &LoginAttemptId) -> (r: bool) {
        self.0 == other.0
    }
}

impl vstd::std_specs::cmp::PartialEqSpecImpl for LoginAttemptId {
    open spec fn obeys_eq_spec() -> bool {
        true
    }

    open spec fn eq_spec(&self, other: &LoginAttemptId) -> bool {
        self@ == other@
    }
}

impl PartialEq for TwoFACode {
    fn eq(&self, other: &TwoFACode) -> (r: bool) {
        self.0 == other.0
    }
}

impl vstd::std_specs::cmp::PartialEqSpecImpl for TwoFACode {
    open spec fn obeys_eq_spec() -> bool {
        true
    }

    open spec fn eq_spec(&self, other: &TwoFACode) -> bool {
        self@ == other@
    }
}

/// How many hyphens stand before the `k`-th hexadecimal digit of a
/// hyphenated UUID.
spec fn uuid_hyphens_before(k: int) -> int {
    if k <= 8 {
        0
    } else if k <= 12 {
        1
    } else if k <= 16 {
        2
    } else if k <= 20 {
        3
    } else {
        4
    }
}

impl LoginAttemptId {
    /// Validates the UUID shape and wraps the string; with `mint`, the only
    /// constructor.
    pub fn parse(id: String) -> (r: Result<LoginAttemptId, String>)
        ensures
            r is Ok <==> is_uuid_chars(id@),
            r matches Ok(v) ==> v@ == id@,
            r matches Err(m) ==> m@ == "Invalid login attempt id"@,
    {
        let n = id.as_str().unicode_len();
        if n != 36 {
            return Err(String::from_str("Invalid login attempt id"));
        }
        let mut i: usize = 0;
        while i < 36
            invariant
                i <= 36,
                id@.len() == 36,
                forall|j: int|
                    #![trigger id@[j]]
                    0 <= j < i ==> (if j == 8 || j == 13 || j == 18 || j == 23 {
                        id@[j] == '-'
                    } else {
                        is_hex_digit(id@[j])
                    }),
            decreases 36 - i,
        {
            let c = id.as_str().get_char(i);
            if i == 8 || i == 13 || i == 18 || i == 23 {
                if c != '-' {
                    return Err(String::from_str("Invalid login attempt id"));
                }
            } else {
                if !check_hex_digit(c) {
                    return Err(String::from_str("Invalid login attempt id"));
                }
            }
            i += 1;
        }
        Ok(LoginAttemptId(id))
    }

    /// Mints a fresh random identifier in UUID shape.
    pub fn mint() -> (r: LoginAttemptId)
        ensures
            is_uuid_chars(r@),
    {
        let mut hi = random_u64();
        let mut lo = random_u64();
        let mut out = String::new();
        let mut k: usize = 0;
        while k < 32
            invariant
                k <= 32,
                out@.len() == k + uuid_hyphens_before(k as int),
                forall|p: int|
                    #![trigger out@[p]]
                    0 <= p < out@.len() ==> (if p == 8 || p == 13 || p == 18 || p == 23 {
                        out@[p] == '-'
                    } else {
                        is_hex_digit(out@[p])
                    }),
            decreases 32 - k,
        {
            let ghost k0 = k as int;
            let ghost out0 = out@;
            if k == 8 || k == 12 || k == 16 || k == 20 {
                out.append("-");
                proof {
                    reveal_strlit("-");
                    assert(out@ =~= out0 + seq!['-']);
                    assert(out0.len() == 8 || out0.len() == 13 || out0.len() == 18 || out0.len()
                        == 23);
                    assert forall|p: int|
                        0 <= p < out@.len() implies (if p == 8 || p == 13 || p == 18 || p == 23 {
                        out@[p] == '-'
                    } else {
                        is_hex_digit(out@[p])
                    }) by {
                        if p < out0.len() {
                            assert(out@[p] == out0[p]);
                        } else {
                            assert(out@[p] == '-');
                        }
                    }
                }
            }
            let ghost out1 = out@;
            let nib: u64 = if k == 12 {
                4
            } else if k == 16 {
                8 + (hi % 4)
            } else if k < 16 {
                let d = hi % 16;
                hi = hi / 16;
                d
            } else {
                let d = lo % 16;
                lo = lo / 16;
                d
            };
            proof {
                lemma_hex_digit_char(nib as int);
            }
            out.append(hex_digit_str(nib as u8));
            proof {
                assert(out@ =~= out1 + seq![hex_digit_char(nib as int)]);
                assert(out1.len() == k0 + uuid_hyphens_before(k0 + 1));
                assert(out1.len() != 8 && out1.len() != 13 && out1.len() != 18 && out1.len()
                    != 23);
                assert forall|p: int|
                    0 <= p < out@.len() implies (if p == 8 || p == 13 || p == 18 || p == 23 {
                    out@[p] == '-'
                } else {
                    is_hex_digit(out@[p])
                }) by {
                    if p < out1.len() {
                        assert(out@[p] == out1[p]);
                    } else {
                        assert(out@[p] == hex_digit_char(nib as int));
                    }
                }
                assert(out@.len() == (k0 + 1) + uuid_hyphens_before(k0 + 1));
            }
            k += 1;
        }
        LoginAttemptId(out)
    }

    /// The identifier's text.
    pub fn as_str(&self) -> (r: &str)
        ensures
            r@ == self@,
    {
        self.0.as_str()
    }
}

impl TwoFACode {
    /// Validates the six-digit shape and wraps the string; with `mint`, the
    /// only constructor.
    pub fn parse(code: String) -> (r: Result<TwoFACode, String>)
        ensures
            r is Ok <==> is_code_chars(code@),
            r matches Ok(v) ==> v@ == code@,
            r matches Err(m) ==> m@ == "Invalid 2FA code"@,
    {
        let n = code.as_str().unicode_len();
        if n != 6 {
            return Err(String::from_str("Invalid 2FA code"));
        }
        let mut i: usize = 0;
        while i < 6
            invariant
                i <= 6,
                code@.len() == 6,
                forall|j: int| 0 <= j < i ==> is_dec_digit(#[trigger] code@[j]),
            decreases 6 - i,
        {
            if !check_dec_digit(code.as_str().get_char(i)) {
                return Err(String::from_str("Invalid 2FA code"));
            }
            i += 1;
        }
        Ok(TwoFACode(code))
    }

    /// Mints a fresh random six-digit code.
    pub fn mint() -> (r: TwoFACode)
        ensures
            is_code_chars(r@),
    {
        let n = random_u64() % 1000000;
        let mut out = String::new();
        proof {
            lemma_digit_char((n as int / 100000) % 10);
            lemma_digit_char((n as int / 10000) % 10);
            lemma_digit_char((n as int / 1000) % 10);
            lemma_digit_char((n as int / 100) % 10);
            lemma_digit_char((n as int / 10) % 10);
            lemma_digit_char(n as int % 10);
        }
        out.append(digit_str((n / 100000) % 10));
        out.append(digit_str((n / 10000) % 10));
        out.append(digit_str((n / 1000) % 10));
        out.append(digit_str((n / 100) % 10));
        out.append(digit_str((n / 10) % 10));
        out.append(digit_str(n % 10));
        TwoFACode(out)
    }

    /// The code's text.
    pub fn as_str(&self) -> (r: &str)
        ensures
            r@ == self@,
    {
        self.0.as_str()
    }
}

/// A pending two-factor challenge: the attempt identifier and the one-time
/// code, as mathematical values.
pub ghost struct ChallengeView {
    pub id: Seq<char>,
    pub code: Seq<char>,
}

/// A keyed record of registered users. `add_user` enforces that an email
/// identifies at most one user; the record holds no password, only its
/// salted one-way hash. A durable implementation may fail a write
/// transiently, and then leaves the record unchanged.
pub trait UserStore {
    /// The stored users, keyed by email.
    spec fn users(&self) -> Map<Seq<char>, StoredUserView>;

    /// Hashes the user's password under a fresh salt and inserts the record
    /// under its email; rejects an email that is already present.
    fn add_user(&mut self, user: User) -> (r: Result<(), UserStoreError>)
        ensures
            old(self).users().contains_key(user@.email) ==> r == Err::<(), UserStoreError>(
                UserStoreError::UserAlreadyExists,
            ) && final(self).users() == old(self).users(),
            !old(self).users().contains_key(user@.email) ==> (r == Ok::<(), UserStoreError>(())
                && (exists|salt: Seq<u8>|
                final(self).users() == old(self).users().insert(
                    user@.email,
                    StoredUserView {
                        email: user@.email,
                        salt,
                        password_tag: hmac_tag_of(salt, user@.password),
                        requires_2fa: user@.requires_2fa,
                    },
                ))) || (r == Err::<(), UserStoreError>(UserStoreError::UnexpectedError)
                && final(self).users() == old(self).users()),
    ;

    /// Looks a stored record up by email.
    fn get_user(&self, email: &Email) -> (r: Result<StoredUser, UserStoreError>)
        ensures
            match r {
                Ok(u) => self.users().contains_key(email@) && u@ == self.users()[email@],
                Err(e) => e == UserStoreError::UserNotFound && !self.users().contains_key(email@),
            },
    ;

    /// Checks a password against the stored record for `email`: it must
    /// hash, under the record's salt, to the record's tag.
    fn validate_user(&self, email: &Email, password: &Password) -> (r: Result<
        (),
        UserStoreError,
    >)
        ensures
            match r {
                Ok(_) => self.users().contains_key(email@) && self.users()[email@].password_tag
                    == hmac_tag_of(self.users()[email@].salt, password@),
                Err(e) => (e == UserStoreError::UserNotFound && !self.users().contains_key(email@))
                    || (e == UserStoreError::InvalidCredentials && self.users().contains_key(email@)
                    && self.users()[email@].password_tag != hmac_tag_of(
                    self.users()[email@].salt,
                    password@,
                )),
            },
    ;
}

/// A revocation set of token strings. Insertion is idempotent; a lookup is
/// consistent with every completed insertion. A durable implementation may
/// fail a write transiently, and then leaves the set unchanged.
pub trait BannedTokenStore {
    /// The revoked token strings.
    spec fn tokens(&self) -> Set<Seq<char>>;

    /// Records `token` as revoked.
    fn add_token(&mut self, token: String) -> (r: Result<(), BannedTokenStoreError>)
        ensures
            r is Ok ==> final(self).tokens() == old(self).tokens().insert(token@),
            r is Err ==> final(self).tokens() == old(self).tokens(),
    ;

    /// Whether `token` has been revoked.
    fn contains_token(&self, token: &str) -> (r: Result<bool, BannedTokenStoreError>)
        ensures
            r == Ok::<bool, BannedTokenStoreError>(self.tokens().contains(token@)),
    ;
}

/// The pending two-factor challenges, keyed by email: at most one per email,
/// a new one superseding the old. A durable implementation may fail a write
/// transiently, and then leaves the table unchanged.
pub trait TwoFACodeStore {
    /// The pending challenges, keyed by email.
    spec fn codes(&self) -> Map<Seq<char>, ChallengeView>;

    /// Stores the challenge for `email`, overwriting any pending one.
    fn add_code(&mut self, email: Email, id: LoginAttemptId, code: TwoFACode) -> (r: Result<
        (),
        TwoFACodeStoreError,
    >)
        ensures
            r is Ok ==> final(self).codes() == old(self).codes().insert(
                email@,
                ChallengeView { id: id@, code: code@ },
            ),
            r is Err ==> final(self).codes() == old(self).codes() && r == Err::<
                (),
                TwoFACodeStoreError,
            >(TwoFACodeStoreError::UnexpectedError),
    ;

    /// The pending challenge for `email`, if any.
    fn get_code(&self, email: &Email) -> (r: Result<
        (LoginAttemptId, TwoFACode),
        TwoFACodeStoreError,
    >)
        ensures
            match r {
                Ok(c) => self.codes().contains_key(email@) && self.codes()[email@]
                    == (ChallengeView { id: c.0@, code: c.1@ }),
                Err(e) => e == TwoFACodeStoreError::CodeNotFound && !self.codes().contains_key(
                    email@,
                ),
            },
    ;

    /// Drops the pending challenge for `email`; doing so twice is harmless.
    fn remove_code(&mut self, email: &Email) -> (r: Result<(), TwoFACodeStoreError>)
        ensures
            r is Ok ==> final(self).codes() == old(self).codes().remove(email@),
            r is Err ==> final(self).codes() == old(self).codes() && r == Err::<
                (),
                TwoFACodeStoreError,
            >(TwoFACodeStoreError::UnexpectedError),
    ;
}

} // verus!
