use vstd::prelude::*;
use vstd::string::*;

verus! {

pub open spec fn digit_char(d: nat) -> char {
    if d == 0 { '0' }
    else if d == 1 { '1' }
    else if d == 2 { '2' }
    else if d == 3 { '3' }
    else if d == 4 { '4' }
    else if d == 5 { '5' }
    else if d == 6 { '6' }
    else if d == 7 { '7' }
    else if d == 8 { '8' }
    else { '9' }
}

/// Decimal digits of `n`, most significant first, without leading zeros.
pub open spec fn decimal(n: nat) -> Seq<char>
    decreases n,
{
    if n < 10 {
        seq![digit_char(n)]
    } else {
        decimal(n / 10).push(digit_char(n % 10))
    }
}

pub open spec fn is_digit(c: char) -> bool {
    '0' <= c <= '9'
}

/// At least one character, all of them decimal digits.
pub open spec fn all_digits(t: Seq<char>) -> bool {
    t.len() > 0 && forall|i: int| 0 <= i < t.len() ==> is_digit(#[trigger] t[i])
}

/// The number a string of decimal digits stands for.
pub open spec fn digits_value(t: Seq<char>) -> nat
    decreases t.len(),
{
    if t.len() == 0 {
        0
    } else {
        digits_value(t.drop_last()) * 10 + (t.last() as nat - '0' as nat) as nat
    }
}

/// Value of an optional `+` followed by digits.
pub open spec fn unsigned_numeral(t: Seq<char>) -> Option<int> {
    if t.len() > 0 && t[0] == '+' && all_digits(t.drop_first()) {
        Some(digits_value(t.drop_first()) as int)
    } else if all_digits(t) {
        Some(digits_value(t) as int)
    } else {
        None
    }
}

/// Value of an optional `+` or `-` followed by digits.
pub open spec fn signed_numeral(t: Seq<char>) -> Option<int> {
    if t.len() > 0 && t[0] == '-' && all_digits(t.drop_first()) {
        Some(-digits_value(t.drop_first()))
    } else {
        unsigned_numeral(t)
    }
}

/// What parsing `t` as a `u128` gives.
pub open spec fn u128_of(t: Seq<char>) -> Option<u128> {
    match unsigned_numeral(t) {
        Some(v) => if v <= u128::MAX { Some(v as u128) } else { None },
        None => None,
    }
}

/// What parsing `t` as an `i128` gives.
pub open spec fn i128_of(t: Seq<char>) -> Option<i128> {
    match signed_numeral(t) {
        Some(v) => if i128::MIN <= v <= i128::MAX { Some(v as i128) } else { None },
        None => None,
    }
}

/// What parsing `t` as a `usize` gives.
pub open spec fn usize_of(t: Seq<char>) -> Option<usize> {
    match unsigned_numeral(t) {
        Some(v) => if v <= usize::MAX { Some(v as usize) } else { None },
        None => None,
    }
}

/// Relies on `<usize as FromStr>::from_str`: it accepts an optional `+`
/// followed by one or more ASCII digits whose value fits, and nothing else.
#[verifier::external_body]
pub(crate) fn parse_usize(t: &str) -> (r: Option<usize>)
    ensures
        r == usize_of(t@),
{
    t.parse::<usize>().ok()
}

/// Relies on `<u128 as FromStr>::from_str`: it accepts an optional `+`
/// followed by one or more ASCII digits whose value fits, and nothing else.
#[verifier::external_body]
pub(crate) fn parse_u128(t: &str) -> (r: Option<u128>)
    ensures
        r == u128_of(t@),
{
    t.parse::<u128>().ok()
}

/// Relies on `<i128 as FromStr>::from_str`: it accepts an optional `+` or `-`
/// followed by one or more ASCII digits whose value fits, and nothing else.
#[verifier::external_body]
pub(crate) fn parse_i128(t: &str) -> (r: Option<i128>)
    ensures
        r == i128_of(t@),
{
    t.parse::<i128>().ok()
}

fn digit_text(d: usize) -> (r: &'static str)
    requires
        d < 10,
    ensures
        r@ == seq![digit_char(d as nat)],
{
    if d == 0 {
        proof { reveal_strlit("0"); }
        "0"
    } else if d == 1 {
        proof { reveal_strlit("1"); }
        "1"
    } else if d == 2 {
        proof { reveal_strlit("2"); }
        "2"
    } else if d == 3 {
        proof { reveal_strlit("3"); }
        "3"
    } else if d == 4 {
        proof { reveal_strlit("4"); }
        "4"
    } else if d == 5 {
        proof { reveal_strlit("5"); }
        "5"
    } else if d == 6 {
        proof { reveal_strlit("6"); }
        "6"
    } else if d == 7 {
        proof { reveal_strlit("7"); }
        "7"
    } else if d == 8 {
        proof { reveal_strlit("8"); }
        "8"
    } else {
        proof { reveal_strlit("9"); }
        "9"
    }
}

/// Writes `n` in decimal.
pub fn decimal_text(n: usize) -> (r: String)
    ensures
        r@ == decimal(n as nat),
{
    if n == 0 {
        return String::from_str(digit_text(0));
    }
    let mut s = String::new();
    let mut m: usize = n;
    while m > 0
        invariant
            m > 0 ==> decimal(n as nat) == decimal(m as nat) + s@,
            m == 0 ==> decimal(n as nat) == s@,
        decreases m,
    {
        let d: usize = m % 10;
        let head = String::from_str(digit_text(d));
        proof {
            if m >= 10 {
                assert(decimal(m as nat) == decimal((m / 10) as nat).push(digit_char(d as nat)));
                assert(decimal((m / 10) as nat).push(digit_char(d as nat)) + s@
                    =~= decimal((m / 10) as nat) + (seq![digit_char(d as nat)] + s@));
            } else {
                assert(decimal(m as nat) == seq![digit_char(d as nat)]);
            }
        }
        s = head.concat(s.as_str());
        m = m / 10;
    }
    s
}

} // verus!
