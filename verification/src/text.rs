//! Rendering of unsigned integers as decimal text.
//!
//! The adapter writes its JSON frames and its `address:port` strings by hand,
//! so the one non-trivial piece of formatting it needs is the decimal
//! rendering of an unsigned integer, specified here by [`dec_seq`].

use vstd::prelude::*;

verus! {

/// The decimal digit character for `d`, which must be below ten.
pub open spec fn dec_digit(d: nat) -> char
    recommends
        d < 10,
{
    if d == 0 {
        '0'
    } else if d == 1 {
        '1'
    } else if d == 2 {
        '2'
    } else if d == 3 {
        '3'
    } else if d == 4 {
        '4'
    } else if d == 5 {
        '5'
    } else if d == 6 {
        '6'
    } else if d == 7 {
        '7'
    } else if d == 8 {
        '8'
    } else {
        '9'
    }
}

/// The usual decimal rendering of `n`: most significant digit first, no
/// leading zeros (except for `n == 0`, which renders as `"0"`).
pub open spec fn dec_seq(n: nat) -> Seq<char>
    decreases n,
{
    if n < 10 {
        seq![dec_digit(n)]
    } else {
        dec_seq(n / 10) + seq![dec_digit(n % 10)]
    }
}

fn dec_digit_char(d: u64) -> (c: char)
    requires
        d < 10,
    ensures
        c == dec_digit(d as nat),
{
    if d == 0 {
        '0'
    } else if d == 1 {
        '1'
    } else if d == 2 {
        '2'
    } else if d == 3 {
        '3'
    } else if d == 4 {
        '4'
    } else if d == 5 {
        '5'
    } else if d == 6 {
        '6'
    } else if d == 7 {
        '7'
    } else if d == 8 {
        '8'
    } else {
        '9'
    }
}

/// Relies on `String::from_iter`: it collects the characters of the iterator
/// into a string, in order.
#[verifier::external_body]
pub(crate) fn chars_to_string(v: Vec<char>) -> (r: String)
    ensures
        r@ == v@,
{
    String::from_iter(v)
}

/// The decimal rendering of `n`, as characters.
pub fn dec_chars(n: u64) -> (r: Vec<char>)
    ensures
        r@ == dec_seq(n as nat),
{
    let mut tmp: Vec<char> = Vec::new();
    let mut m: u64 = n;
    proof {
        assert(dec_seq(n as nat) =~= dec_seq(m as nat) + tmp@.reverse());
    }
    while m >= 10
        invariant
            dec_seq(n as nat) == dec_seq(m as nat) + tmp@.reverse(),
        decreases m,
    {
        let ghost tmp0 = tmp@;
        let d = dec_digit_char(m % 10);
        tmp.push(d);
        proof {
            assert(dec_seq(m as nat) == dec_seq(m as nat / 10) + seq![dec_digit(m as nat % 10)]);
            assert(tmp@.reverse() =~= seq![dec_digit(m as nat % 10)] + tmp0.reverse());
            assert(dec_seq(m as nat / 10) + (seq![dec_digit(m as nat % 10)] + tmp0.reverse())
                =~= (dec_seq(m as nat / 10) + seq![dec_digit(m as nat % 10)]) + tmp0.reverse());
            assert(m as nat / 10 == (m / 10) as nat);
        }
        m = m / 10;
    }
    let ghost tmp1 = tmp@;
    let d = dec_digit_char(m);
    tmp.push(d);
    proof {
        assert(dec_seq(m as nat) == seq![dec_digit(m as nat)]);
        assert(tmp@.reverse() =~= seq![dec_digit(m as nat)] + tmp1.reverse());
        assert(dec_seq(n as nat) =~= tmp@.reverse());
    }
    let mut r: Vec<char> = Vec::new();
    let mut i: usize = tmp.len();
    proof {
        assert(r@ =~= tmp@.reverse().take(tmp@.len() - i));
    }
    while i > 0
        invariant
            i <= tmp@.len(),
            r@ == tmp@.reverse().take(tmp@.len() - i),
        decreases i,
    {
        i = i - 1;
        let c = tmp[i];
        r.push(c);
        proof {
            assert(tmp@.reverse()[tmp@.len() - i - 1] == tmp@[i as int]);
            assert(r@ =~= tmp@.reverse().take(tmp@.len() - i));
        }
    }
    proof {
        assert(tmp@.reverse().take(tmp@.len() - 0) =~= tmp@.reverse());
    }
    r
}

} // verus!
