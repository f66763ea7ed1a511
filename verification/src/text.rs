//! Small text building blocks: turning character vectors into `String`s
//! and rendering integers and flags as decimal text.

use vstd::prelude::*;

verus! {

/// Relies on `String: FromIterator<char>` (via `Iterator::collect`):
/// builds the string holding exactly the given characters in order.
#[verifier::external_body]
pub fn chars_to_string(cs: &Vec<char>) -> (r: String)
    ensures
        r@ == cs@,
{
    cs.iter().collect()
}

/// The decimal digit character for a value below ten.
pub open spec fn digit_char(d: int) -> char {
    if d == 0 {
        '0'
    } else if d == 1 {
        '1'
    } else if d == 2 {
        '2'
    } else if d == 3 {
        '3'
    } else if d == 4 {
        '4'
    } else if d == 5 {
        '5'
    } else if d == 6 {
        '6'
    } else if d == 7 {
        '7'
    } else if d == 8 {
        '8'
    } else {
        '9'
    }
}

/// The decimal digit sequence of a nonnegative number, most significant
/// digit first, with no leading zero (a bare `0` for zero).
pub open spec fn spec_digits(n: nat) -> Seq<char>
    decreases n,
{
    if n < 10 {
        seq![digit_char(n as int)]
    } else {
        spec_digits(n / 10) + seq![digit_char((n % 10) as int)]
    }
}

/// The decimal rendering of an integer: a minus sign and the magnitude's
/// digits for negative values, the digits alone otherwise.
pub open spec fn spec_decimal(n: int) -> Seq<char> {
    if n < 0 {
        seq!['-'] + spec_digits((-n) as nat)
    } else {
        spec_digits(n as nat)
    }
}

fn digit_to_char(d: u64) -> (r: char)
    requires
        d < 10,
    ensures
        r == digit_char(d as int),
{
    match d {
        0 => '0',
        1 => '1',
        2 => '2',
        3 => '3',
        4 => '4',
        5 => '5',
        6 => '6',
        7 => '7',
        8 => '8',
        _ => '9',
    }
}

fn push_digits(n: u64, out: &mut Vec<char>)
    ensures
        final(out)@ == old(out)@ + spec_digits(n as nat),
    decreases n,
{
    if n < 10 {
        let c = digit_to_char(n);
        out.push(c);
        proof {
            assert(old(out)@ + spec_digits(n as nat) =~= old(out)@.push(digit_char(n as int)));
        }
    } else {
        push_digits(n / 10, out);
        let c = digit_to_char(n % 10);
        out.push(c);
        proof {
            assert(old(out)@ + spec_digits(n as nat) =~= (old(out)@ + spec_digits(
                (n / 10) as nat,
            )).push(digit_char((n % 10) as int)));
        }
    }
}

/// Renders an integer as decimal text.
pub fn i64_to_string(n: i64) -> (r: String)
    ensures
        r@ == spec_decimal(n as int),
{
    let mut cs: Vec<char> = Vec::new();
    if n < 0 {
        cs.push('-');
        let m: u64 = ((-(n + 1)) as u64) + 1;
        assert(m as int == -(n as int));
        push_digits(m, &mut cs);
        proof {
            assert(cs@ =~= spec_decimal(n as int));
        }
    } else {
        push_digits(n as u64, &mut cs);
        proof {
            assert(cs@ =~= spec_decimal(n as int));
        }
    }
    chars_to_string(&cs)
}

/// Renders a flag as `true` or `false`.
pub fn bool_to_string(b: bool) -> (r: String)
    ensures
        b ==> r@ == "true"@,
        !b ==> r@ == "false"@,
{
    if b {
        String::from_str("true")
    } else {
        String::from_str("false")
    }
}

/// Renders a single character as a one-character string.
pub fn char_to_string(c: char) -> (r: String)
    ensures
        r@ == seq![c],
{
    let mut cs: Vec<char> = Vec::new();
    cs.push(c);
    proof {
        assert(cs@ =~= seq![c]);
    }
    chars_to_string(&cs)
}

} // verus!
