//! Small string helpers: appending characters, equality, and rendering
//! integers as decimal digit sequences.

use vstd::prelude::*;

verus! {

/// Relies on String::push from std: appends exactly one character.
#[verifier::external_body]
pub fn string_push(s: &mut String, c: char)
    ensures
        final(s)@ == old(s)@.push(c),
{
    s.push(c);
}

/// Character-wise string equality, decided at run time.
pub fn str_eq(a: &str, b: &str) -> (r: bool)
    ensures
        r == (a@ == b@),
{
    let na = a.unicode_len();
    let nb = b.unicode_len();
    if na != nb {
        return false;
    }
    let mut i: usize = 0;
    while i < na
        invariant
            0 <= i <= na,
            na == a@.len(),
            na == b@.len(),
            forall|j: int| 0 <= j < i ==> a@[j] == b@[j],
        decreases na - i,
    {
        let ca = a.get_char(i);
        let cb = b.get_char(i);
        if ca != cb {
            return false;
        }
        i += 1;
    }
    proof {
        assert(a@ =~= b@);
    }
    true
}

/// The decimal digit character for a value below ten.
pub open spec fn dec_digit(d: int) -> char {
    if d == 0 {
        '0'
    } else if d == 1 {
        '1'
    } else if d == 2 {
        '2'
    } else if d == 3 {
        '3'
    } else if d == 4 {
        '4'
    } else if d == 5 {
        '5'
    } else if d == 6 {
        '6'
    } else if d == 7 {
        '7'
    } else if d == 8 {
        '8'
    } else {
        '9'
    }
}

/// Decimal digit sequence of a nonnegative integer, most significant digit
/// first, with no leading zeros except for zero itself.
pub open spec fn spec_udec(n: nat) -> Seq<char>
    decreases n,
{
    if n < 10 {
        seq![dec_digit(n as int)]
    } else {
        spec_udec(n / 10).push(dec_digit((n % 10) as int))
    }
}

/// Decimal rendering of a signed integer: a minus sign followed by the
/// digits for negative values.
pub open spec fn spec_dec(n: int) -> Seq<char> {
    if n < 0 {
        seq!['-'] + spec_udec((-n) as nat)
    } else {
        spec_udec(n as nat)
    }
}

fn digit_char(d: u64) -> (r: char)
    requires
        d < 10,
    ensures
        r == dec_digit(d as int),
{
    if d == 0 {
        '0'
    } else if d == 1 {
        '1'
    } else if d == 2 {
        '2'
    } else if d == 3 {
        '3'
    } else if d == 4 {
        '4'
    } else if d == 5 {
        '5'
    } else if d == 6 {
        '6'
    } else if d == 7 {
        '7'
    } else if d == 8 {
        '8'
    } else {
        '9'
    }
}

fn push_udec(s: &mut String, n: u64)
    ensures
        final(s)@ == old(s)@ + spec_udec(n as nat),
    decreases n,
{
    if n < 10 {
        string_push(s, digit_char(n));
        proof {
            assert(s@ =~= old(s)@ + spec_udec(n as nat));
        }
    } else {
        push_udec(s, n / 10);
        string_push(s, digit_char(n % 10));
        proof {
            assert(s@ =~= old(s)@ + spec_udec(n as nat));
        }
    }
}

/// Decimal rendering of an unsigned value.
pub fn u32_to_string(n: u32) -> (r: String)
    ensures
        r@ == spec_udec(n as nat),
{
    let mut s = String::new();
    push_udec(&mut s, n as u64);
    proof {
        assert(s@ =~= spec_udec(n as nat));
    }
    s
}

/// Decimal rendering of a signed value, with a leading minus sign when
/// negative.
pub fn i32_to_string(n: i32) -> (r: String)
    ensures
        r@ == spec_dec(n as int),
{
    let mut s = String::new();
    if n < 0 {
        string_push(&mut s, '-');
        let m = n as i64;
        push_udec(&mut s, (-m) as u64);
        proof {
            assert(s@ =~= spec_dec(n as int));
        }
    } else {
        push_udec(&mut s, n as u64);
        proof {
            assert(s@ =~= spec_dec(n as int));
        }
    }
    s
}

} // verus!
