//! Decimal text of integers: writing it and reading it back.

use vstd::prelude::*;

verus! {

/// The character that stands for the digit `d`.
pub open spec fn digit_char(d: int) -> char {
    if d == 0 {
        '0'
    } else if d == 1 {
        '1'
    } else if d == 2 {
        '2'
    } else if d == 3 {
        '3'
    } else if d == 4 {
        '4'
    } else if d == 5 {
        '5'
    } else if d == 6 {
        '6'
    } else if d == 7 {
        '7'
    } else if d == 8 {
        '8'
    } else {
        '9'
    }
}

/// Whether `c` is one of the ten decimal digits.
pub open spec fn is_digit(c: char) -> bool {
    c == '0' || c == '1' || c == '2' || c == '3' || c == '4' || c == '5' || c == '6' || c == '7'
        || c == '8' || c == '9'
}

/// The number a digit character stands for (0 for any other character).
pub open spec fn digit_value(c: char) -> int {
    if c == '1' {
        1
    } else if c == '2' {
        2
    } else if c == '3' {
        3
    } else if c == '4' {
        4
    } else if c == '5' {
        5
    } else if c == '6' {
        6
    } else if c == '7' {
        7
    } else if c == '8' {
        8
    } else if c == '9' {
        9
    } else {
        0
    }
}

/// Decimal text of a natural number, without sign or leading zeros.
pub open spec fn natural_text(n: nat) -> Seq<char>
    decreases n,
{
    if n < 10 {
        seq![digit_char(n as int)]
    } else {
        natural_text(n / 10).push(digit_char((n % 10) as int))
    }
}

/// Decimal text of an integer: a minus sign for a negative number, then its magnitude.
pub open spec fn integer_text(n: int) -> Seq<char> {
    if n < 0 {
        seq!['-'] + natural_text((-n) as nat)
    } else {
        natural_text(n as nat)
    }
}

/// Whether every character of `t` is a decimal digit.
pub open spec fn all_digits(t: Seq<char>) -> bool {
    forall|i: int| 0 <= i < t.len() ==> is_digit(#[trigger] t[i])
}

/// The number that a run of digits denotes, most significant digit first.
pub open spec fn natural_value(t: Seq<char>) -> int
    decreases t.len(),
{
    if t.len() == 0 {
        0
    } else {
        natural_value(t.drop_last()) * 10 + digit_value(t.last())
    }
}

/// The digits of a signed numeral: the text without a leading `+` or `-`.
pub open spec fn numeral_digits(t: Seq<char>) -> Seq<char> {
    if t.len() > 0 && (t[0] == '-' || t[0] == '+') {
        t.skip(1)
    } else {
        t
    }
}

/// The 64-bit integer that `t` denotes: an optional sign, then one or more digits, the
/// value within the range of `i64`. Any other text denotes nothing.
pub open spec fn integer_of_text(t: Seq<char>) -> Option<int> {
    let digits = numeral_digits(t);
    let magnitude = natural_value(digits);
    let value = if t.len() > 0 && t[0] == '-' {
        -magnitude
    } else {
        magnitude
    };
    if digits.len() > 0 && all_digits(digits) && i64::MIN <= value <= i64::MAX {
        Some(value)
    } else {
        None
    }
}

/// The one-character literal for a digit.
fn digit_str(d: u64) -> (r: &'static str)
    requires
        d < 10,
    ensures
        r@ == seq![digit_char(d as int)],
{
    proof {
        reveal_strlit("0");
        reveal_strlit("1");
        reveal_strlit("2");
        reveal_strlit("3");
        reveal_strlit("4");
        reveal_strlit("5");
        reveal_strlit("6");
        reveal_strlit("7");
        reveal_strlit("8");
        reveal_strlit("9");
    }
    let r = if d == 0 {
        "0"
    } else if d == 1 {
        "1"
    } else if d == 2 {
        "2"
    } else if d == 3 {
        "3"
    } else if d == 4 {
        "4"
    } else if d == 5 {
        "5"
    } else if d == 6 {
        "6"
    } else if d == 7 {
        "7"
    } else if d == 8 {
        "8"
    } else {
        "9"
    };
    assert(r@ =~= seq![digit_char(d as int)]);
    r
}

/// Writes a natural number in decimal.
pub fn natural_to_string(n: u64) -> (r: String)
    ensures
        r@ == natural_text(n as nat),
    decreases n,
{
    if n < 10 {
        String::from_str(digit_str(n))
    } else {
        let mut s = natural_to_string(n / 10);
        s.append(digit_str(n % 10));
        assert(s@ =~= natural_text(n as nat));
        s
    }
}

/// Writes an integer in decimal, as `{}` formats it.
pub fn integer_to_string(n: i64) -> (r: String)
    ensures
        r@ == integer_text(n as int),
{
    if n < 0 {
        let magnitude: u64 = ((-(n + 1)) as u64) + 1;
        let digits = natural_to_string(magnitude);
        proof {
            reveal_strlit("-");
        }
        let r = String::from_str("-").concat(digits.as_str());
        assert(r@ =~= integer_text(n as int));
        r
    } else {
        natural_to_string(n as u64)
    }
}

/// The value of a digit character, or nothing for any other character.
fn digit_of(c: char) -> (r: Option<u8>)
    ensures
        r is Some == is_digit(c),
        r matches Some(d) ==> d as int == digit_value(c) && d < 10,
{
    if c == '0' {
        Some(0)
    } else if c == '1' {
        Some(1)
    } else if c == '2' {
        Some(2)
    } else if c == '3' {
        Some(3)
    } else if c == '4' {
        Some(4)
    } else if c == '5' {
        Some(5)
    } else if c == '6' {
        Some(6)
    } else if c == '7' {
        Some(7)
    } else if c == '8' {
        Some(8)
    } else if c == '9' {
        Some(9)
    } else {
        None
    }
}

/// One more than the largest magnitude an `i64` can have.
const MAGNITUDE_CAP: u128 = 9223372036854775809;

/// Reads a signed decimal numeral, as `str::parse::<i64>` does: an optional `+` or `-`, then
/// one or more digits; nothing else, and no value outside `i64`.
pub fn parse_integer(s: &str) -> (r: Option<i64>)
    ensures
        r is Some == integer_of_text(s@) is Some,
        r matches Some(v) ==> integer_of_text(s@) == Some(v as int),
{
    let n = s.unicode_len();
    if n == 0 {
        return None;
    }
    let first = s.get_char(0);
    let negative = first == '-';
    let start: usize = if first == '-' || first == '+' {
        1
    } else {
        0
    };
    let ghost digits = numeral_digits(s@);
    assert(digits =~= s@.skip(start as int));
    let mut acc: u128 = 0;
    let mut i: usize = start;
    assert(digits.take(0) =~= Seq::<char>::empty());
    while i < n
        invariant
            start <= i <= n,
            n == s@.len(),
            digits == s@.skip(start as int),
            digits == numeral_digits(s@),
            all_digits(digits.take(i - start)),
            acc <= MAGNITUDE_CAP,
            acc as int == vstd::math::min(natural_value(digits.take(i - start)), MAGNITUDE_CAP as int),
        decreases n - i,
    {
        let c = s.get_char(i);
        assert(digits[i - start] == c);
        match digit_of(c) {
            Some(d) => {
                proof {
                    let before = digits.take(i - start);
                    let after = digits.take(i - start + 1);
                    assert(after.drop_last() =~= before);
                    assert(after.last() == c);
                    assert forall|k: int| 0 <= k < after.len() implies is_digit(
                        #[trigger] after[k],
                    ) by {
                        if k < before.len() {
                            assert(after[k] == before[k]);
                        }
                    }
                }
                acc = acc * 10 + (d as u128);
                if acc > MAGNITUDE_CAP {
                    acc = MAGNITUDE_CAP;
                }
            },
            None => {
                assert(!is_digit(digits[i - start]));
                return None;
            },
        }
        i += 1;
    }
    assert(digits.take(n - start) =~= digits);
    if i == start {
        return None;
    }
    if negative {
        if acc > 9223372036854775808u128 {
            None
        } else if acc == 9223372036854775808u128 {
            Some(i64::MIN)
        } else {
            let m: i64 = acc as i64;
            Some(-m)
        }
    } else {
        if acc > 9223372036854775807u128 {
            None
        } else {
            Some(acc as i64)
        }
    }
}

/// The decimal text of a natural number is a non-empty run of digits that denotes it.
pub proof fn lemma_natural_text_denotes(n: nat)
    ensures
        natural_text(n).len() > 0,
        all_digits(natural_text(n)),
        natural_value(natural_text(n)) == n,
    decreases n,
{
    if n < 10 {
        let t = natural_text(n);
        assert(t.drop_last() =~= Seq::<char>::empty());
        assert(natural_value(t.drop_last()) == 0);
        assert(t.last() == digit_char(n as int));
    } else {
        lemma_natural_text_denotes(n / 10);
        let head = natural_text(n / 10);
        let t = natural_text(n);
        assert(t.drop_last() =~= head);
        assert(t.last() == digit_char((n % 10) as int));
        assert forall|k: int| 0 <= k < t.len() implies is_digit(#[trigger] t[k]) by {
            if k < head.len() {
                assert(t[k] == head[k]);
            }
        }
    }
}

/// Reading back what was written gives the same integer.
pub proof fn lemma_integer_text_round_trip(n: int)
    requires
        i64::MIN <= n <= i64::MAX,
    ensures
        integer_of_text(integer_text(n)) == Some(n),
{
    if n < 0 {
        let m = (-n) as nat;
        lemma_natural_text_denotes(m);
        let t = integer_text(n);
        assert(t[0] == '-');
        assert(numeral_digits(t) =~= natural_text(m));
    } else {
        let m = n as nat;
        lemma_natural_text_denotes(m);
        let t = integer_text(n);
        assert(is_digit(t[0]));
        assert(numeral_digits(t) =~= t);
    }
}

} // verus!
