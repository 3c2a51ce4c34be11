use vstd::prelude::*;
use vstd::string::*;

verus! {

/// The decimal digits of a natural number, most significant first.
pub open spec fn digits(n: nat) -> Seq<char>
    decreases n,
{
    if n < 10 {
        seq![digit_char(n as int)]
    } else {
        digits(n / 10) + seq![digit_char((n % 10) as int)]
    }
}

pub open spec fn digit_char(d: int) -> char {
    (d + 48) as char
}

/// The decimal text of an integer, with a minus sign when negative.
pub open spec fn decimal(v: int) -> Seq<char> {
    if v < 0 {
        seq!['-'] + digits((-v) as nat)
    } else {
        digits(v as nat)
    }
}

/// Appends a character to a string (`String::push`).
#[verifier::external_body]
pub(crate) fn push_char(s: &mut String, c: char)
    ensures
        final(s)@ == old(s)@.push(c),
{
    s.push(c);
}

fn digit(d: u8) -> (c: char)
    requires
        d < 10,
    ensures
        c == digit_char(d as int),
{
    let c: char = (d + 48) as char;
    c
}

/// Appends the decimal text of a byte-sized integer.
pub(crate) fn push_decimal(s: &mut String, v: i8)
    ensures
        final(s)@ == old(s)@ + decimal(v as int),
{
    let n: u8 = if v < 0 {
        push_char(s, '-');
        if v == i8::MIN { 128u8 } else { (-v) as u8 }
    } else {
        v as u8
    };
    let ghost before = s@;
    let ghost m: nat = n as nat;
    if n >= 100 {
        push_char(s, digit(n / 100));
        push_char(s, digit((n / 10) % 10));
        push_char(s, digit(n % 10));
        proof {
            assert(m / 10 / 10 == m / 100);
            assert(m / 10 >= 10);
            assert(digits(m / 10) =~= digits(m / 10 / 10) + seq![digit_char(((m / 10) % 10) as int)]);
            assert(digits(m) =~= digits(m / 10) + seq![digit_char((m % 10) as int)]);
            assert(s@ =~= before + digits(m));
        }
    } else if n >= 10 {
        push_char(s, digit(n / 10));
        push_char(s, digit(n % 10));
        proof {
            assert(digits(m) =~= digits(m / 10) + seq![digit_char((m % 10) as int)]);
            assert(s@ =~= before + digits(m));
        }
    } else {
        push_char(s, digit(n));
        proof {
            assert(s@ =~= before + digits(m));
        }
    }
    proof {
        assert(v < 0 ==> m == -v);
    }
}

/// The characters of a text.
pub(crate) fn chars_of(s: &str) -> (r: Vec<char>)
    ensures
        r@ == s@,
{
    let n = s.unicode_len();
    let mut r: Vec<char> = Vec::new();
    let mut i: usize = 0;
    while i < n
        invariant
            i <= n,
            n == s@.len(),
            r@ == s@.take(i as int),
        decreases n - i,
    {
        r.push(s.get_char(i));
        proof {
            assert(r@ =~= s@.take(i + 1));
        }
        i = i + 1;
    }
    proof {
        assert(s@.take(i as int) =~= s@);
    }
    r
}

/// The text made of the given characters.
pub(crate) fn string_of(v: &Vec<char>) -> (r: String)
    ensures
        r@ == v@,
{
    let mut s = String::new();
    let mut i: usize = 0;
    while i < v.len()
        invariant
            i <= v.len(),
            s@ == v@.take(i as int),
        decreases v.len() - i,
    {
        push_char(&mut s, v[i]);
        proof {
            assert(s@ =~= v@.take(i + 1));
        }
        i = i + 1;
    }
    proof {
        assert(v@.take(i as int) =~= v@);
    }
    s
}

} // verus!
