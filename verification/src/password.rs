//! The password value object: a raw string becomes a `Password` only through
//! `parse`, which enforces the minimum length.
use vstd::prelude::*;
use vstd::string::*;

verus! {

/// A password accepted by `Password::parse`: at least
/// [`MIN_PASSWORD_CHARS`] characters long.
#[derive(Debug)]
pub struct Password(String);

/// The smallest number of characters a valid password may have.
pub const MIN_PASSWORD_CHARS: usize = 8;

/// What it means for a raw string to be an acceptable password.
pub open spec fn valid_password(s: Seq<char>) -> bool {
    s.len() >= MIN_PASSWORD_CHARS
}

impl View for Password {
    type V = Seq<char>;

    closed spec fn view(&self) -> Seq<char> {
        self.0@
    }
}

impl Clone for Password {
    fn clone(&self) -> (r: Password)
        ensures
            r@ == self@,
    {
        Password(self.0.clone())
    }
}

impl PartialEq for Password {
    fn eq(&self, other: &Password) -> (r: bool) {
        self.0 == other.0
    }
}

impl vstd::std_specs::cmp::PartialEqSpecImpl for Password {
    open spec fn obeys_eq_spec() -> bool {
        true
    }

    open spec fn eq_spec(&self, other: &Password) -> bool {
        self@ == other@
    }
}

impl Password {
    /// Validates the raw string and wraps it; the only constructor.
    pub fn parse(password: String) -> (r: Result<Password, String>)
        ensures
            r is Ok <==> valid_password(password@),
            r matches Ok(p) ==> p@ == password@,
            r matches Err(m) ==> m@ == password@ + " is not a valid password."@,
    {
        if Self::validate_password(password.as_str()) {
            Ok(Password(password))
        } else {
            Err(password.concat(" is not a valid password."))
        }
    }

    /// The length check behind `parse`.
    pub fn validate_password(s: &str) -> (r: bool)
        ensures
            r == valid_password(s@),
    {
        s.unicode_len() >= MIN_PASSWORD_CHARS
    }

    /// The validated string.
    pub fn as_str(&self) -> (r: &str)
        ensures
            r@ == self@,
    {
        self.0.as_str()
    }
}

} // verus!
