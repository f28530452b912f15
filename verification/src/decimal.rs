//! Decimal text for `u64` values: rendering a number to its canonical digit
//! string, and parsing exactly that canonical form back. Session tokens
//! carry their timestamps in this form, so canonicity (no leading zeros)
//! keeps every token string uniquely determined by its claims.
use vstd::prelude::*;
use vstd::string::*;

verus! {

/// The character for the decimal digit `d`.
pub open spec fn digit_char(d: int) -> char
    recommends
        0 <= d < 10,
{
    if d == 0 {
        '0'
    } else if d == 1 {
        '1'
    } else if d == 2 {
        '2'
    } else if d == 3 {
        '3'
    } else if d == 4 {
        '4'
    } else if d == 5 {
        '5'
    } else if d == 6 {
        '6'
    } else if d == 7 {
        '7'
    } else if d == 8 {
        '8'
    } else {
        '9'
    }
}

/// Whether `c` is a decimal digit.
pub open spec fn is_dec_digit(c: char) -> bool {
    '0' as u32 <= c as u32 <= '9' as u32
}

/// The value of the digit `c`, and `0` for any other character.
pub open spec fn dec_digit_val(c: char) -> nat {
    if is_dec_digit(c) {
        (c as u32 - '0' as u32) as nat
    } else {
        0
    }
}

/// The canonical decimal rendering of `n`: no sign, no leading zeros.
pub open spec fn dec_str_of(n: nat) -> Seq<char>
    decreases n,
{
    if n < 10 {
        seq![digit_char(n as int)]
    } else {
        dec_str_of(n / 10).push(digit_char((n % 10) as int))
    }
}

/// Whether `s` is a non-empty run of decimal digits.
pub open spec fn all_dec_digits(s: Seq<char>) -> bool {
    s.len() > 0 && forall|i: int| 0 <= i < s.len() ==> is_dec_digit(#[trigger] s[i])
}

/// The number the digit run `s` denotes.
pub open spec fn dec_val(s: Seq<char>) -> nat
    decreases s.len(),
{
    if s.len() == 0 {
        0
    } else {
        dec_val(s.drop_last()) * 10 + dec_digit_val(s.last())
    }
}

/// What parsing a decimal string as a `u64` yields: the denoted value when
/// `s` is the canonical rendering of a representable number, nothing
/// otherwise.
pub open spec fn spec_parse_u64(s: Seq<char>) -> Option<u64> {
    if all_dec_digits(s) && (s.len() == 1 || s[0] != '0') && dec_val(s) <= u64::MAX {
        Some(dec_val(s) as u64)
    } else {
        None
    }
}

/// `digit_char(d)` is a digit character denoting `d`.
pub proof fn lemma_digit_char(d: int)
    requires
        0 <= d < 10,
    ensures
        is_dec_digit(digit_char(d)),
        dec_digit_val(digit_char(d)) == d,
{
}

/// `digit_char` and `dec_digit_val` invert each other on digits.
pub proof fn lemma_digit_char_val(c: char)
    requires
        is_dec_digit(c),
    ensures
        digit_char(dec_digit_val(c) as int) == c,
{
    let v = dec_digit_val(c) as int;
    assert(0 <= v < 10);
    assert(c as u32 == v + 48);
    if v == 0 {
        assert(digit_char(v) as u32 == 48);
    } else if v == 1 {
        assert(digit_char(v) as u32 == 49);
    } else if v == 2 {
        assert(digit_char(v) as u32 == 50);
    } else if v == 3 {
        assert(digit_char(v) as u32 == 51);
    } else if v == 4 {
        assert(digit_char(v) as u32 == 52);
    } else if v == 5 {
        assert(digit_char(v) as u32 == 53);
    } else if v == 6 {
        assert(digit_char(v) as u32 == 54);
    } else if v == 7 {
        assert(digit_char(v) as u32 == 55);
    } else if v == 8 {
        assert(digit_char(v) as u32 == 56);
    } else {
        assert(digit_char(v) as u32 == 57);
    }
    assert(digit_char(v) as u32 == c as u32);
    assert(digit_char(v) == c);
}

/// The shape of `dec_str_of(n)`: non-empty digits, no leading zero unless
/// `n` is zero, and reading it back gives `n`.
pub proof fn lemma_dec_str_of(n: nat)
    ensures
        all_dec_digits(dec_str_of(n)),
        dec_val(dec_str_of(n)) == n,
        n > 0 ==> dec_str_of(n)[0] != '0',
        n < 10 <==> dec_str_of(n).len() == 1,
    decreases n,
{
    if n < 10 {
        let s = dec_str_of(n);
        lemma_digit_char(n as int);
        assert(dec_val(Seq::<char>::empty()) == 0);
        assert(s.drop_last() =~= Seq::<char>::empty());
        assert(s.last() == digit_char(n as int));
        assert(dec_val(s) == dec_digit_val(digit_char(n as int)));
    } else {
        lemma_dec_str_of(n / 10);
        assert(n / 10 >= 1);
        let front = dec_str_of(n / 10);
        let s = dec_str_of(n);
        assert(s == front.push(digit_char((n % 10) as int)));
        assert(s.drop_last() =~= front);
        assert(s.last() == digit_char((n % 10) as int));
        assert(s[0] == front[0]);
        assert forall|i: int| 0 <= i < s.len() implies is_dec_digit(#[trigger] s[i]) by {
            if i < front.len() {
                assert(s[i] == front[i]);
            }
        }
        assert(dec_val(s) == (n / 10) * 10 + n % 10);
        assert((n / 10) * 10 + n % 10 == n) by {
            vstd::arithmetic::div_mod::lemma_fundamental_div_mod(n as int, 10);
        }
    }
}

/// Reading digits is monotone in the prefix: a longer digit run never
/// denotes a smaller number.
pub proof fn lemma_dec_val_take_le(s: Seq<char>, i: int)
    requires
        0 <= i <= s.len(),
    ensures
        dec_val(s.take(i)) <= dec_val(s),
    decreases s.len() - i,
{
    if i == s.len() {
        assert(s.take(i) =~= s);
    } else {
        lemma_dec_val_take_le(s, i + 1);
        let t = s.take(i + 1);
        assert(t.drop_last() =~= s.take(i));
        assert(dec_val(s.take(i)) <= dec_val(s.take(i)) * 10 + dec_digit_val(t.last()));
    }
}

/// Canonical digit strings denote distinct numbers: a non-empty digit run
/// without a leading zero is exactly `dec_str_of` of its value.
pub proof fn lemma_dec_canonical(s: Seq<char>)
    requires
        all_dec_digits(s),
        s.len() == 1 || s[0] != '0',
    ensures
        dec_str_of(dec_val(s)) == s,
    decreases s.len(),
{
    if s.len() == 1 {
        assert(dec_val(s) == dec_digit_val(s[0])) by {
            assert(dec_val(Seq::<char>::empty()) == 0);
            assert(s.drop_last() =~= Seq::<char>::empty());
            assert(s.last() == s[0]);
        }
        assert(dec_val(s) < 10);
        assert(dec_str_of(dec_val(s)) =~= s) by {
            lemma_digit_char_val(s[0]);
        }
    } else {
        let front = s.drop_last();
        assert(all_dec_digits(front)) by {
            assert(forall|i: int| 0 <= i < front.len() ==> front[i] == s[i]);
        }
        assert(front[0] == s[0]);
        lemma_dec_canonical(front);
        assert(dec_val(front) >= 1) by {
            lemma_dec_val_take_le(front, 1);
            assert(dec_val(Seq::<char>::empty()) == 0);
            assert(front.take(1).drop_last() =~= Seq::<char>::empty());
            assert(front.take(1).last() == front[0]);
            assert(dec_val(front.take(1)) == dec_digit_val(front[0]));
            assert(front[0] != '0');
            assert(is_dec_digit(front[0]));
            assert(dec_digit_val(front[0]) >= 1) by {
                lemma_digit_char_val(front[0]);
                if dec_digit_val(front[0]) == 0 {
                    assert(digit_char(0) == front[0]);
                    assert(digit_char(0) == '0');
                }
            }
        }
        let v = dec_val(s);
        let d = dec_digit_val(s.last());
        assert(v == dec_val(front) * 10 + d);
        assert(v >= 10);
        assert(v / 10 == dec_val(front) && v % 10 == d) by {
            vstd::arithmetic::div_mod::lemma_fundamental_div_mod_converse(
                v as int,
                10,
                dec_val(front) as int,
                d as int,
            );
        }
        assert(digit_char(d as int) == s.last()) by {
            lemma_digit_char_val(s.last());
        }
        assert(dec_str_of(v) == dec_str_of(dec_val(front)).push(digit_char((v % 10) as int)));
        assert(dec_str_of(v) =~= s) by {
            assert(front.push(s.last()) =~= s);
        }
    }
}

/// `spec_parse_u64` inverts `dec_str_of` and accepts nothing else.
pub proof fn lemma_parse_u64_round_trip(v: u64)
    ensures
        spec_parse_u64(dec_str_of(v as nat)) == Some(v),
{
    lemma_dec_str_of(v as nat);
    if v as nat >= 10 {
        assert(dec_str_of(v as nat)[0] != '0');
    }
}

/// Whether `c` is a decimal digit.
pub fn check_dec_digit(c: char) -> (r: bool)
    ensures
        r == is_dec_digit(c),
{
    let n = c as u32;
    48 <= n && n <= 57
}

/// The character for the decimal digit `d`, as text.
pub(crate) fn digit_str(d: u64) -> (r: &'static str)
    requires
        d < 10,
    ensures
        r@ == seq![digit_char(d as int)],
{
    proof {
        reveal_strlit("0");
        reveal_strlit("1");
        reveal_strlit("2");
        reveal_strlit("3");
        reveal_strlit("4");
        reveal_strlit("5");
        reveal_strlit("6");
        reveal_strlit("7");
        reveal_strlit("8");
        reveal_strlit("9");
        assert("0"@ =~= seq!['0']);
        assert("1"@ =~= seq!['1']);
        assert("2"@ =~= seq!['2']);
        assert("3"@ =~= seq!['3']);
        assert("4"@ =~= seq!['4']);
        assert("5"@ =~= seq!['5']);
        assert("6"@ =~= seq!['6']);
        assert("7"@ =~= seq!['7']);
        assert("8"@ =~= seq!['8']);
        assert("9"@ =~= seq!['9']);
    }
    match d {
        0 => "0",
        1 => "1",
        2 => "2",
        3 => "3",
        4 => "4",
        5 => "5",
        6 => "6",
        7 => "7",
        8 => "8",
        _ => "9",
    }
}

/// Renders `n` as its canonical decimal string.
pub fn u64_to_dec(n: u64) -> (r: String)
    ensures
        r@ == dec_str_of(n as nat),
    decreases n,
{
    if n < 10 {
        String::from_str(digit_str(n))
    } else {
        let mut s = u64_to_dec(n / 10);
        s.append(digit_str(n % 10));
        proof {
            assert(s@ =~= dec_str_of((n / 10) as nat).push(digit_char((n % 10) as int)));
        }
        s
    }
}

/// Parses the canonical decimal rendering of a `u64`; rejects anything that
/// `u64_to_dec` cannot have produced.
pub fn parse_u64_dec(s: &str) -> (r: Option<u64>)
    ensures
        r == spec_parse_u64(s@),
{
    let n = s.unicode_len();
    if n == 0 {
        return None;
    }
    if n > 1 && s.get_char(0) == '0' {
        return None;
    }
    let mut acc: u64 = 0;
    let mut i: usize = 0;
    while i < n
        invariant
            0 <= i <= n,
            n == s@.len(),
            forall|j: int| 0 <= j < i ==> is_dec_digit(#[trigger] s@[j]),
            acc == dec_val(s@.take(i as int)),
        decreases n - i,
    {
        let c = s.get_char(i);
        let cu = c as u32;
        if cu < 48 || cu > 57 {
            assert(!is_dec_digit(s@[i as int])) by {
                assert('0' as u32 == 48 && '9' as u32 == 57);
            }
            return None;
        }
        assert(is_dec_digit(s@[i as int])) by {
            assert('0' as u32 == 48 && '9' as u32 == 57);
        }
        let d = (cu - 48) as u64;
        proof {
            assert(s@.take(i + 1).drop_last() =~= s@.take(i as int));
            assert(s@.take(i + 1).last() == s@[i as int]);
            assert(dec_digit_val(s@[i as int]) == d);
        }
        let m = match acc.checked_mul(10) {
            Some(m) => m,
            None => {
                proof {
                    assert(dec_val(s@.take(i + 1)) > u64::MAX);
                    lemma_dec_val_take_le(s@, i + 1);
                }
                return None;
            },
        };
        let a2 = match m.checked_add(d) {
            Some(a) => a,
            None => {
                proof {
                    assert(dec_val(s@.take(i + 1)) > u64::MAX);
                    lemma_dec_val_take_le(s@, i + 1);
                }
                return None;
            },
        };
        acc = a2;
        i += 1;
    }
    proof {
        assert(s@.take(n as int) =~= s@);
    }
    Some(acc)
}

} // verus!
