//! Character-level helpers: views of strings as character sequences, and
//! decimal numbers as they appear in query parameters and map keys.

use vstd::prelude::*;

verus! {

/// Whether `c` is an ASCII decimal digit.
pub open spec fn is_digit(c: char) -> bool {
    '0' <= c && c <= '9'
}

/// The value of the decimal digit `c`.
pub open spec fn digit_value(c: char) -> int {
    (c as u32) as int - ('0' as u32) as int
}

/// The value of a string of decimal digits, most significant first.
pub open spec fn digits_value(s: Seq<char>) -> int
    decreases s.len(),
{
    if s.len() == 0 {
        0
    } else {
        digits_value(s.drop_last()) * 10 + digit_value(s.last())
    }
}

/// A canonical decimal numeral: at least one digit, all digits, and no
/// leading zero unless the numeral is `0` itself.
pub open spec fn is_decimal(s: Seq<char>) -> bool {
    &&& s.len() > 0
    &&& forall|i: int| 0 <= i < s.len() ==> is_digit(#[trigger] s[i])
    &&& (s[0] == '0' ==> s.len() == 1)
}

/// Whether two strings hold the same characters.
pub fn same_text(a: &str, b: &str) -> (r: bool)
    ensures
        r == (a@ == b@),
{
    chars_are(&chars_of(a), b)
}

/// The characters of `s`, one by one.
pub fn chars_of(s: &str) -> (r: Vec<char>)
    ensures
        r@ == s@,
{
    let n = s.unicode_len();
    let mut r: Vec<char> = Vec::new();
    let mut i: usize = 0;
    while i < n
        invariant
            n == s@.len(),
            i <= n,
            r@ == s@.subrange(0, i as int),
        decreases n - i,
    {
        r.push(s.get_char(i));
        i = i + 1;
    }
    assert(r@ =~= s@);
    r
}

/// Whether the characters in `v` spell out `s`.
pub fn chars_are(v: &Vec<char>, s: &str) -> (r: bool)
    ensures
        r == (v@ == s@),
{
    let n = s.unicode_len();
    if v.len() != n {
        return false;
    }
    let mut i: usize = 0;
    while i < n
        invariant
            n == s@.len(),
            n == v@.len(),
            i <= n,
            v@.subrange(0, i as int) =~= s@.subrange(0, i as int),
        decreases n - i,
    {
        if v[i] != s.get_char(i) {
            assert(v@[i as int] != s@[i as int]);
            return false;
        }
        i = i + 1;
    }
    assert(v@ =~= v@.subrange(0, n as int));
    assert(s@ =~= s@.subrange(0, n as int));
    true
}

/// The character of the decimal digit `d`.
pub open spec fn digit_char(d: int) -> char {
    if d == 0 {
        '0'
    } else if d == 1 {
        '1'
    } else if d == 2 {
        '2'
    } else if d == 3 {
        '3'
    } else if d == 4 {
        '4'
    } else if d == 5 {
        '5'
    } else if d == 6 {
        '6'
    } else if d == 7 {
        '7'
    } else if d == 8 {
        '8'
    } else {
        '9'
    }
}

/// The canonical decimal numeral of `n`.
pub open spec fn decimal(n: nat) -> Seq<char>
    decreases n,
{
    if n < 10 {
        seq![digit_char(n as int)]
    } else {
        decimal(n / 10).push(digit_char((n % 10) as int))
    }
}

/// The numeral of `n` is canonical and reads back as `n`.
pub proof fn lemma_decimal(n: nat)
    ensures
        is_decimal(decimal(n)),
        digits_value(decimal(n)) == n,
    decreases n,
{
    let s = decimal(n);
    if n < 10 {
        assert(s.drop_last() =~= Seq::<char>::empty());
        assert(digits_value(Seq::<char>::empty()) == 0);
    } else {
        let m = n / 10;
        lemma_decimal(m);
        assert(s.drop_last() =~= decimal(m));
        if decimal(m)[0] == '0' {
            assert(decimal(m).drop_last() =~= Seq::<char>::empty());
            assert(digits_value(Seq::<char>::empty()) == 0);
        }
        assert(s[0] == decimal(m)[0]);
    }
}

/// One decimal digit as text.
fn digit_text(d: u8) -> (r: &'static str)
    requires
        d < 10,
    ensures
        r@ == seq![digit_char(d as int)],
{
    match d {
        0 => {
            proof { reveal_strlit("0"); }
            assert("0"@ =~= seq!['0']);
            "0"
        },
        1 => {
            proof { reveal_strlit("1"); }
            assert("1"@ =~= seq!['1']);
            "1"
        },
        2 => {
            proof { reveal_strlit("2"); }
            assert("2"@ =~= seq!['2']);
            "2"
        },
        3 => {
            proof { reveal_strlit("3"); }
            assert("3"@ =~= seq!['3']);
            "3"
        },
        4 => {
            proof { reveal_strlit("4"); }
            assert("4"@ =~= seq!['4']);
            "4"
        },
        5 => {
            proof { reveal_strlit("5"); }
            assert("5"@ =~= seq!['5']);
            "5"
        },
        6 => {
            proof { reveal_strlit("6"); }
            assert("6"@ =~= seq!['6']);
            "6"
        },
        7 => {
            proof { reveal_strlit("7"); }
            assert("7"@ =~= seq!['7']);
            "7"
        },
        8 => {
            proof { reveal_strlit("8"); }
            assert("8"@ =~= seq!['8']);
            "8"
        },
        _ => {
            proof { reveal_strlit("9"); }
            assert("9"@ =~= seq!['9']);
            "9"
        },
    }
}

/// The canonical decimal numeral of `n`.
pub fn decimal_text(n: u8) -> (r: String)
    ensures
        r@ == decimal(n as nat),
        is_decimal(r@),
        digits_value(r@) == n,
{
    let r = if n >= 100 {
        let a = digit_text(n / 100);
        let b = digit_text(n / 10 % 10);
        let c = digit_text(n % 10);
        let mut r = String::from_str(a);
        r.append(b);
        r.append(c);
        proof {
            let n = n as nat;
            assert(decimal(n / 10 / 10) == a@);
            assert(decimal(n / 10) =~= a@ + b@);
            assert(decimal(n) =~= a@ + b@ + c@);
        }
        r
    } else if n >= 10 {
        let a = digit_text(n / 10);
        let b = digit_text(n % 10);
        let mut r = String::from_str(a);
        r.append(b);
        proof {
            let n = n as nat;
            assert(decimal(n / 10) == a@);
            assert(decimal(n) =~= a@ + b@);
        }
        r
    } else {
        String::from_str(digit_text(n))
    };
    proof {
        lemma_decimal(n as nat);
    }
    r
}

} // verus!
