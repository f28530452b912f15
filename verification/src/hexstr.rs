//! Lowercase hexadecimal text for byte strings: how a signature tag is
//! written into a session token, and the digit alphabet of attempt
//! identifiers.
use vstd::prelude::*;
use vstd::string::*;

verus! {

/// The lowercase character for the hexadecimal digit `d`.
pub open spec fn hex_digit_char(d: int) -> char
    recommends
        0 <= d < 16,
{
    if d == 0 {
        '0'
    } else if d == 1 {
        '1'
    } else if d == 2 {
        '2'
    } else if d == 3 {
        '3'
    } else if d == 4 {
        '4'
    } else if d == 5 {
        '5'
    } else if d == 6 {
        '6'
    } else if d == 7 {
        '7'
    } else if d == 8 {
        '8'
    } else if d == 9 {
        '9'
    } else if d == 10 {
        'a'
    } else if d == 11 {
        'b'
    } else if d == 12 {
        'c'
    } else if d == 13 {
        'd'
    } else if d == 14 {
        'e'
    } else {
        'f'
    }
}

/// Whether `c` is a hexadecimal digit, either case.
pub open spec fn is_hex_digit(c: char) -> bool {
    let n = c as u32;
    ||| '0' as u32 <= n <= '9' as u32
    ||| 'a' as u32 <= n <= 'f' as u32
    ||| 'A' as u32 <= n <= 'F' as u32
}

/// The two hexadecimal characters of the byte `b`.
pub open spec fn hex_of_byte(b: u8) -> Seq<char> {
    seq![hex_digit_char(b as int / 16), hex_digit_char(b as int % 16)]
}

/// The lowercase hexadecimal rendering of `bs`: two characters per byte.
pub open spec fn hex_of(bs: Seq<u8>) -> Seq<char>
    decreases bs.len(),
{
    if bs.len() == 0 {
        Seq::<char>::empty()
    } else {
        hex_of(bs.drop_last()) + hex_of_byte(bs.last())
    }
}

/// Every character of a hexadecimal digit rendering is a hexadecimal digit;
/// in particular none is `'.'`, so the rendering never collides with the
/// field separator of a token.
pub proof fn lemma_hex_digit_char(d: int)
    requires
        0 <= d < 16,
    ensures
        is_hex_digit(hex_digit_char(d)),
        hex_digit_char(d) != '.',
{
}

/// The shape of `hex_of(bs)`: twice as long as `bs`, hexadecimal digits
/// only.
pub proof fn lemma_hex_of(bs: Seq<u8>)
    ensures
        hex_of(bs).len() == 2 * bs.len(),
        forall|i: int| 0 <= i < hex_of(bs).len() ==> is_hex_digit(#[trigger] hex_of(bs)[i]),
        forall|i: int| 0 <= i < hex_of(bs).len() ==> #[trigger] hex_of(bs)[i] != '.',
    decreases bs.len(),
{
    if bs.len() == 0 {
    } else {
        lemma_hex_of(bs.drop_last());
        let front = hex_of(bs.drop_last());
        let s = hex_of(bs);
        let b = bs.last();
        lemma_hex_digit_char(b as int / 16);
        lemma_hex_digit_char(b as int % 16);
        assert forall|i: int| 0 <= i < s.len() implies is_hex_digit(#[trigger] s[i]) && s[i]
            != '.' by {
            if i < front.len() {
                assert(s[i] == front[i]);
            } else {
                assert(s[i] == hex_of_byte(b)[i - front.len()]);
            }
        }
    }
}

/// Whether `c` is a hexadecimal digit, either case.
pub fn check_hex_digit(c: char) -> (r: bool)
    ensures
        r == is_hex_digit(c),
{
    let n = c as u32;
    (48 <= n && n <= 57) || (97 <= n && n <= 102) || (65 <= n && n <= 70)
}

/// The lowercase character for the hexadecimal digit `d`, as text.
pub(crate) fn hex_digit_str(d: u8) -> (r: &'static str)
    requires
        d < 16,
    ensures
        r@ == seq![hex_digit_char(d as int)],
{
    proof {
        reveal_strlit("0");
        reveal_strlit("1");
        reveal_strlit("2");
        reveal_strlit("3");
        reveal_strlit("4");
        reveal_strlit("5");
        reveal_strlit("6");
        reveal_strlit("7");
        reveal_strlit("8");
        reveal_strlit("9");
        reveal_strlit("a");
        reveal_strlit("b");
        reveal_strlit("c");
        reveal_strlit("d");
        reveal_strlit("e");
        reveal_strlit("f");
        assert("0"@ =~= seq!['0']);
        assert("1"@ =~= seq!['1']);
        assert("2"@ =~= seq!['2']);
        assert("3"@ =~= seq!['3']);
        assert("4"@ =~= seq!['4']);
        assert("5"@ =~= seq!['5']);
        assert("6"@ =~= seq!['6']);
        assert("7"@ =~= seq!['7']);
        assert("8"@ =~= seq!['8']);
        assert("9"@ =~= seq!['9']);
        assert("a"@ =~= seq!['a']);
        assert("b"@ =~= seq!['b']);
        assert("c"@ =~= seq!['c']);
        assert("d"@ =~= seq!['d']);
        assert("e"@ =~= seq!['e']);
        assert("f"@ =~= seq!['f']);
    }
    match d {
        0 => "0",
        1 => "1",
        2 => "2",
        3 => "3",
        4 => "4",
        5 => "5",
        6 => "6",
        7 => "7",
        8 => "8",
        9 => "9",
        10 => "a",
        11 => "b",
        12 => "c",
        13 => "d",
        14 => "e",
        _ => "f",
    }
}

/// Renders `bs` as lowercase hexadecimal text.
pub fn bytes_to_hex(bs: &Vec<u8>) -> (r: String)
    ensures
        r@ == hex_of(bs@),
{
    let n = bs.len();
    let mut out = String::new();
    let mut i: usize = 0;
    while i < n
        invariant
            i <= n,
            n == bs@.len(),
            out@ == hex_of(bs@.take(i as int)),
        decreases n - i,
    {
        let b = bs[i];
        out.append(hex_digit_str(b / 16));
        out.append(hex_digit_str(b % 16));
        proof {
            assert(bs@.take(i + 1).drop_last() =~= bs@.take(i as int));
            assert(bs@.take(i + 1).last() == bs@[i as int]);
            assert(out@ =~= hex_of(bs@.take(i + 1)));
        }
        i += 1;
    }
    proof {
        assert(bs@.take(n as int) =~= bs@);
    }
    out
}

} // verus!
