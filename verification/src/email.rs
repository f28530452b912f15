//! The email value object: a raw string becomes an `Email` only through
//! `parse`, which enforces the address grammar (a non-empty local part, one
//! `'@'`, and a syntactically plausible host as the domain).
use vstd::prelude::*;
use vstd::string::*;

use crate::scan::{find_char_from, first_index_of, lemma_first_index_of, lemma_first_index_of_unique};

verus! {

/// An email address accepted by `Email::parse`. Used as the unique key for
/// users and for two-factor challenges.
#[derive(Debug, Hash, Eq)]
pub struct Email(String);

/// Whether `c` may appear in the domain of an address: a letter, a digit,
/// `'-'` or `'.'`.
pub open spec fn is_host_char(c: char) -> bool {
    let n = c as u32;
    ||| 'a' as u32 <= n <= 'z' as u32
    ||| 'A' as u32 <= n <= 'Z' as u32
    ||| '0' as u32 <= n <= '9' as u32
    ||| n == '-' as u32
    ||| n == '.' as u32
}

/// Whether `d` is a syntactically plausible host: non-empty, made only of
/// host characters, with no empty label (no leading, trailing or doubled
/// dot).
pub open spec fn valid_host(d: Seq<char>) -> bool {
    &&& d.len() > 0
    &&& forall|m: int| 0 <= m < d.len() ==> is_host_char(#[trigger] d[m])
    &&& d[0] != '.'
    &&& d[d.len() - 1] != '.'
    &&& forall|m: int| #![trigger d[m]] 0 <= m < d.len() - 1 ==> !(d[m] == '.' && d[m + 1] == '.')
}

/// What it means for a raw string to be a well-formed address: a non-empty
/// local part before the first `'@'`, and a plausible host after it. Any
/// later `'@'` falls into the domain and fails the host check, so a valid
/// address holds exactly one `'@'`.
pub open spec fn valid_email(s: Seq<char>) -> bool {
    let i = first_index_of(s, '@');
    &&& 0 < i
    &&& valid_host(s.skip(i + 1))
}

/// An empty string, or any string without `'@'`, is not a valid address, so
/// `Email::parse` rejects it.
pub proof fn lemma_email_rejects_without_at(s: Seq<char>)
    requires
        forall|j: int| 0 <= j < s.len() ==> s[j] != '@',
    ensures
        !valid_email(s),
{
    lemma_first_index_of(s, '@');
    if first_index_of(s, '@') != -1 {
        assert(s[first_index_of(s, '@')] == '@');
    }
}

/// Every string of the shape `local@domain` — a non-empty local part free of
/// `'@'`, then a plausible host — is a valid address, so `Email::parse`
/// accepts it.
pub proof fn lemma_email_accepts_well_formed(local: Seq<char>, host: Seq<char>)
    requires
        local.len() > 0,
        forall|j: int| 0 <= j < local.len() ==> local[j] != '@',
        valid_host(host),
    ensures
        valid_email(local + seq!['@'] + host),
{
    let s = local + seq!['@'] + host;
    assert(s[local.len() as int] == '@');
    lemma_first_index_of_unique(s, '@', local.len() as int);
    assert(s.skip(local.len() as int + 1) =~= host);
}

impl View for Email {
    type V = Seq<char>;

    closed spec fn view(&self) -> Seq<char> {
        self.0@
    }
}

impl Clone for Email {
    fn clone(&self) -> (r: Email)
        ensures
            r@ == self@,
    {
        Email(self.0.clone())
    }
}

impl PartialEq for Email {
    fn eq(&self, other: &Email) -> (r: bool) {
        self.0 == other.0
    }
}

impl vstd::std_specs::cmp::PartialEqSpecImpl for Email {
    open spec fn obeys_eq_spec() -> bool {
        true
    }

    open spec fn eq_spec(&self, other: &Email) -> bool {
        self@ == other@
    }
}

impl Email {
    /// Validates the raw string and wraps it; the only constructor.
    pub fn parse(email: String) -> (r: Result<Email, String>)
        ensures
            r is Ok <==> valid_email(email@),
            r matches Ok(e) ==> e@ == email@,
            r matches Err(m) ==> m@ == email@ + " is not a valid email."@,
    {
        if validate_email(email.as_str()) {
            Ok(Email(email))
        } else {
            Err(email.concat(" is not a valid email."))
        }
    }

    /// The validated string.
    pub fn as_str(&self) -> (r: &str)
        ensures
            r@ == self@,
    {
        self.0.as_str()
    }
}

/// Whether `c` may appear in a host name.
fn host_char(c: char) -> (r: bool)
    ensures
        r == is_host_char(c),
{
    let n = c as u32;
    ('a' as u32 <= n && n <= 'z' as u32) || ('A' as u32 <= n && n <= 'Z' as u32) || ('0' as u32
        <= n && n <= '9' as u32) || n == '-' as u32 || n == '.' as u32
}

/// Decides `valid_host` for the characters of `s` from `start` on.
fn check_host(s: &str, start: usize, n: usize) -> (r: bool)
    requires
        start <= n,
        n == s@.len(),
    ensures
        r == valid_host(s@.skip(start as int)),
{
    let ghost d = s@.skip(start as int);
    assert(forall|m: int| 0 <= m < d.len() ==> d[m] == s@[start + m]);
    if start >= n {
        return false;
    }
    if s.get_char(start) == '.' {
        return false;
    }
    if s.get_char(n - 1) == '.' {
        assert(d[d.len() - 1] == '.');
        return false;
    }
    let mut k = start;
    let mut prev_dot = false;
    while k < n
        invariant
            start <= k <= n,
            n == s@.len(),
            d == s@.skip(start as int),
            forall|m: int| 0 <= m < k - start ==> is_host_char(#[trigger] d[m]),
            forall|m: int| #![trigger d[m]] 0 <= m < k - start - 1 ==> !(d[m] == '.' && d[m + 1]
                == '.'),
            prev_dot == (k > start && d[k - start - 1] == '.'),
        decreases n - k,
    {
        let c = s.get_char(k);
        if !host_char(c) {
            assert(!is_host_char(d[k - start]));
            return false;
        }
        let dot = c == '.';
        if dot && prev_dot {
            assert(d[k - start - 1] == '.' && d[k - start] == '.');
            return false;
        }
        prev_dot = dot;
        k += 1;
    }
    true
}

/// Decides the address grammar for a raw string.
pub fn validate_email(s: &str) -> (r: bool)
    ensures
        r == valid_email(s@),
{
    let n = s.unicode_len();
    let i = find_char_from(s, 0, n, '@');
    if i == n {
        proof {
            lemma_first_index_of(s@, '@');
            if first_index_of(s@, '@') != -1 {
                assert(s@[first_index_of(s@, '@')] == '@');
            }
        }
        return false;
    }
    proof {
        lemma_first_index_of_unique(s@, '@', i as int);
    }
    if i == 0 {
        return false;
    }
    check_host(s, i + 1, n)
}

} // verus!
