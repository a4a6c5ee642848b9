//! Small text-building helpers shared by error messages and the settings
//! codec: appending a single character to a `String` and rendering an
//! unsigned number in decimal.

use vstd::prelude::*;

verus! {

/// Relies on std's `String::push`: appends exactly the one character.
#[verifier::external_body]
pub fn push_char(s: &mut String, c: char)
    ensures
        final(s)@ == old(s)@.push(c),
{
    s.push(c);
}

/// Relies on std's `PartialEq` for `str`: two string slices are equal
/// exactly when their character sequences are.
#[verifier::external_body]
pub fn str_eq(a: &str, b: &str) -> (r: bool)
    ensures
        r == (a@ == b@),
{
    a == b
}

/// The decimal digit character for `d`.
pub open spec fn digit_char(d: int) -> char {
    if d == 0 {
        '0'
    } else if d == 1 {
        '1'
    } else if d == 2 {
        '2'
    } else if d == 3 {
        '3'
    } else if d == 4 {
        '4'
    } else if d == 5 {
        '5'
    } else if d == 6 {
        '6'
    } else if d == 7 {
        '7'
    } else if d == 8 {
        '8'
    } else {
        '9'
    }
}

/// Decimal digits of a positive number, most significant first; empty for
/// zero and below.
pub open spec fn dec_digits(n: int) -> Seq<char>
    decreases n,
{
    if n <= 0 {
        Seq::empty()
    } else {
        dec_digits(n / 10).push(digit_char(n % 10))
    }
}

/// The decimal rendering of a nonnegative number.
pub open spec fn dec_str(n: int) -> Seq<char> {
    if n == 0 {
        seq!['0']
    } else {
        dec_digits(n)
    }
}

/// The decimal digit character for `d`, executably.
fn digit_to_char(d: u64) -> (c: char)
    requires
        d < 10,
    ensures
        c == digit_char(d as int),
{
    if d == 0 {
        '0'
    } else if d == 1 {
        '1'
    } else if d == 2 {
        '2'
    } else if d == 3 {
        '3'
    } else if d == 4 {
        '4'
    } else if d == 5 {
        '5'
    } else if d == 6 {
        '6'
    } else if d == 7 {
        '7'
    } else if d == 8 {
        '8'
    } else {
        '9'
    }
}

/// Renders `n` in decimal.
pub fn u64_to_string(n: u64) -> (s: String)
    ensures
        s@ == dec_str(n as int),
{
    let mut digits: Vec<char> = Vec::new();
    let mut m: u64 = n;
    while m > 0
        invariant
            dec_digits(n as int) =~= dec_digits(m as int) + digits@.reverse(),
        decreases m,
    {
        let d = m % 10;
        let c = digit_to_char(d);
        proof {
            assert(digits@.push(c).reverse() =~= seq![c] + digits@.reverse());
            assert(dec_digits(m as int / 10) + (seq![c] + digits@.reverse()) =~= (dec_digits(
                m as int / 10,
            ) + seq![c]) + digits@.reverse());
            assert(dec_digits(m as int / 10).push(c) =~= dec_digits(m as int / 10) + seq![c]);
        }
        digits.push(c);
        m = m / 10;
    }
    let mut s = String::new();
    if digits.len() == 0 {
        push_char(&mut s, '0');
        proof {
            assert(s@ =~= dec_str(n as int));
        }
        return s;
    }
    let count = digits.len();
    let mut j: usize = 0;
    while j < count
        invariant
            count == digits@.len(),
            1 <= count,
            j <= count,
            s@.len() == j,
            forall|k: int| 0 <= k < j ==> s@[k] == digits@[count - 1 - k],
        decreases count - j,
    {
        push_char(&mut s, digits[count - 1 - j]);
        j = j + 1;
    }
    proof {
        assert(s@ =~= digits@.reverse());
        assert(dec_digits(n as int) =~= digits@.reverse());
    }
    s
}

} // verus!
