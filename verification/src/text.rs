//! Building text: concatenation and the decimal form of integers.
use vstd::prelude::*;

verus! {

/// The digit character for `d` (`d < 10`).
pub open spec fn digit_char(d: nat) -> char {
    if d == 0 {
        '0'
    } else if d == 1 {
        '1'
    } else if d == 2 {
        '2'
    } else if d == 3 {
        '3'
    } else if d == 4 {
        '4'
    } else if d == 5 {
        '5'
    } else if d == 6 {
        '6'
    } else if d == 7 {
        '7'
    } else if d == 8 {
        '8'
    } else {
        '9'
    }
}

/// The value of a digit character, by its distance from '0' in the character
/// code; `None` for any character outside '0'..='9'.
pub open spec fn digit_value(c: char) -> Option<nat> {
    if '0' <= c && c <= '9' {
        Some((c as int - '0' as int) as nat)
    } else {
        None
    }
}

/// The decimal form of `n`: its digits, most significant first, with no leading zero.
pub open spec fn decimal(n: nat) -> Seq<char>
    decreases n,
{
    if n < 10 {
        seq![digit_char(n)]
    } else {
        decimal(n / 10).push(digit_char(n % 10))
    }
}

/// The decimal form of a signed integer: a minus sign before the digits of a negative one.
pub open spec fn signed_decimal(n: int) -> Seq<char> {
    if n < 0 {
        seq!['-'] + decimal((-n) as nat)
    } else {
        decimal(n as nat)
    }
}

/// The number that a string of digits spells; `None` if a character is not a digit
/// or the string is empty.
pub open spec fn digits_value(s: Seq<char>) -> Option<nat>
    decreases s.len(),
{
    if s.len() == 0 {
        None
    } else {
        match digit_value(s.last()) {
            None => None,
            Some(d) => if s.len() == 1 {
                Some(d)
            } else {
                match digits_value(s.drop_last()) {
                    None => None,
                    Some(v) => Some(v * 10 + d),
                }
            },
        }
    }
}

/// Reading the decimal form of a number gives the number back.
pub proof fn lemma_decimal_reads_back(n: nat)
    ensures
        digits_value(decimal(n)) == Some(n),
        decimal(n).len() >= 1,
    decreases n,
{
    if n >= 10 {
        lemma_decimal_reads_back(n / 10);
        let s = decimal(n);
        assert(s.drop_last() =~= decimal(n / 10));
        assert(s.last() == digit_char(n % 10));
    }
}

/// The decimal form of a number has no leading zero: it starts with '0' only
/// when it is "0" itself.
pub proof fn lemma_decimal_no_leading_zero(n: nat)
    ensures
        decimal(n).len() >= 1,
        decimal(n)[0] == '0' ==> n == 0 && decimal(n).len() == 1,
    decreases n,
{
    if n >= 10 {
        lemma_decimal_no_leading_zero(n / 10);
        assert(decimal(n)[0] == decimal(n / 10)[0]);
    }
}

/// The signed decimal form is canonical: a non-negative number is its digits,
/// which read back as the number and have no leading zero; a negative number is
/// '-' followed by the digits of its magnitude, likewise.
pub proof fn lemma_signed_decimal_canonical(n: int)
    ensures
        n >= 0 ==> digits_value(signed_decimal(n)) == Some(n as nat) && (signed_decimal(n)[0]
            != '0' || signed_decimal(n).len() == 1),
        n < 0 ==> signed_decimal(n).len() >= 2 && signed_decimal(n)[0] == '-' && digits_value(
            signed_decimal(n).drop_first(),
        ) == Some((-n) as nat) && signed_decimal(n)[1] != '0',
{
    if n >= 0 {
        lemma_decimal_reads_back(n as nat);
        lemma_decimal_no_leading_zero(n as nat);
    } else {
        let m = (-n) as nat;
        lemma_decimal_reads_back(m);
        lemma_decimal_no_leading_zero(m);
        assert(signed_decimal(n).drop_first() =~= decimal(m));
    }
}

/// The one-character text of the digit `d`.
fn digit_text(d: u64) -> (r: &'static str)
    requires
        d < 10,
    ensures
        r@ == seq![digit_char(d as nat)],
{
    proof {
        reveal_strlit("0");
        reveal_strlit("1");
        reveal_strlit("2");
        reveal_strlit("3");
        reveal_strlit("4");
        reveal_strlit("5");
        reveal_strlit("6");
        reveal_strlit("7");
        reveal_strlit("8");
        reveal_strlit("9");
    }
    if d == 0 {
        "0"
    } else if d == 1 {
        "1"
    } else if d == 2 {
        "2"
    } else if d == 3 {
        "3"
    } else if d == 4 {
        "4"
    } else if d == 5 {
        "5"
    } else if d == 6 {
        "6"
    } else if d == 7 {
        "7"
    } else if d == 8 {
        "8"
    } else {
        "9"
    }
}

/// The decimal form of an unsigned integer.
pub fn decimal_text(n: u64) -> (r: String)
    ensures
        r@ == decimal(n as nat),
    decreases n,
{
    if n < 10 {
        String::from_str(digit_text(n))
    } else {
        let mut r = decimal_text(n / 10);
        r.append(digit_text(n % 10));
        r
    }
}

/// The decimal form of a signed integer.
pub fn signed_decimal_text(n: i64) -> (r: String)
    ensures
        r@ == signed_decimal(n as int),
        n >= 0 ==> digits_value(r@) == Some(n as nat) && (r@[0] != '0' || r@.len() == 1),
        n < 0 ==> r@.len() >= 2 && r@[0] == '-' && digits_value(r@.drop_first()) == Some(
            (-n) as nat,
        ) && r@[1] != '0',
{
    proof {
        lemma_signed_decimal_canonical(n as int);
    }
    if n < 0 {
        let magnitude: u64 = if n == i64::MIN {
            9223372036854775808u64
        } else {
            (-n) as u64
        };
        proof {
            reveal_strlit("-");
        }
        let mut r = String::from_str("-");
        let digits = decimal_text(magnitude);
        r.append(digits.as_str());
        r
    } else {
        decimal_text(n as u64)
    }
}

/// The concatenation of two texts.
pub fn joined(a: &str, b: &str) -> (r: String)
    ensures
        r@ == a@ + b@,
{
    let mut r = String::from_str(a);
    r.append(b);
    r
}

} // verus!
