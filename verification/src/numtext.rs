//! Decimal text for the integers that cross the wire.
//!
//! The remote API carries identifiers, counts and sizes as decimal tokens,
//! either inside a JSON document or as a plain form field. This module
//! renders a signed 64-bit integer to its decimal text, states the rendering
//! as a spec function, and proves that it is lossless: the digits parse back
//! to the number they came from, so two different numbers never share a text.

use vstd::prelude::*;

verus! {

/// The character for one decimal digit.
pub open spec fn digit_char(d: int) -> char {
    if d == 0 {
        '0'
    } else if d == 1 {
        '1'
    } else if d == 2 {
        '2'
    } else if d == 3 {
        '3'
    } else if d == 4 {
        '4'
    } else if d == 5 {
        '5'
    } else if d == 6 {
        '6'
    } else if d == 7 {
        '7'
    } else if d == 8 {
        '8'
    } else {
        '9'
    }
}

/// The decimal digits of a natural number, most significant first.
pub open spec fn dec_digits(n: nat) -> Seq<char>
    decreases n,
{
    if n < 10 {
        seq![digit_char(n as int)]
    } else {
        dec_digits(n / 10).push(digit_char((n % 10) as int))
    }
}

/// The decimal text of an integer: a minus sign for a negative value, then
/// its digits.
pub open spec fn dec_int(n: int) -> Seq<char> {
    if n < 0 {
        seq!['-'] + dec_digits((-n) as nat)
    } else {
        dec_digits(n as nat)
    }
}

pub open spec fn is_digit(c: char) -> bool {
    48 <= c as int <= 57
}

pub open spec fn digit_val(c: char) -> int {
    c as int - 48
}

/// The number that a digit sequence denotes.
pub open spec fn parse_digits(s: Seq<char>) -> int
    decreases s.len(),
{
    if s.len() == 0 {
        0
    } else {
        parse_digits(s.drop_last()) * 10 + digit_val(s.last())
    }
}

/// Rendering a natural number is lossless: the digits parse back to it, and
/// the text is a non-empty run of digit characters.
pub proof fn lemma_dec_digits_parse(n: nat)
    ensures
        parse_digits(dec_digits(n)) == n,
        dec_digits(n).len() >= 1,
        forall|i: int| 0 <= i < dec_digits(n).len() ==> is_digit(#[trigger] dec_digits(n)[i]),
    decreases n,
{
    if n < 10 {
        let s = dec_digits(n);
        assert(s == seq![digit_char(n as int)]);
        assert(s.drop_last() =~= Seq::<char>::empty());
        assert(parse_digits(s.drop_last()) == 0);
        assert(s.last() == digit_char(n as int));
        assert(digit_val(digit_char(n as int)) == n);
    } else {
        lemma_dec_digits_parse(n / 10);
        let whole = dec_digits(n);
        let head = dec_digits(n / 10);
        let last = digit_char((n % 10) as int);
        assert(whole == head.push(last));
        assert(whole.drop_last() =~= head);
        assert(whole.last() == last);
        assert(digit_val(last) == n % 10);
        assert(n == (n / 10) * 10 + n % 10) by {
            vstd::arithmetic::div_mod::lemma_fundamental_div_mod(n as int, 10);
        }
        assert(parse_digits(whole) == parse_digits(head) * 10 + digit_val(last));
        assert(forall|i: int| 0 <= i < whole.len() - 1 ==> whole[i] == head[i]);
    }
}

/// The integer a decimal text denotes: a leading minus sign negates the
/// number its remaining digits denote.
pub open spec fn parse_dec(s: Seq<char>) -> int {
    if s.len() > 0 && s[0] == '-' {
        -parse_digits(s.drop_first())
    } else {
        parse_digits(s)
    }
}

/// Rendering an integer is lossless: its decimal text parses back to it.
pub proof fn lemma_dec_int_parse(n: int)
    ensures
        parse_dec(dec_int(n)) == n,
{
    if n < 0 {
        lemma_dec_digits_parse((-n) as nat);
        assert(dec_int(n)[0] == '-');
        assert(dec_int(n).drop_first() =~= dec_digits((-n) as nat));
    } else {
        lemma_dec_digits_parse(n as nat);
        assert(is_digit(dec_int(n)[0]));
    }
}

/// Two different integers never render to the same decimal text.
pub proof fn lemma_dec_int_injective(a: int, b: int)
    ensures
        dec_int(a) == dec_int(b) ==> a == b,
{
    lemma_dec_digits_parse(if a < 0 {
        (-a) as nat
    } else {
        a as nat
    });
    lemma_dec_digits_parse(if b < 0 {
        (-b) as nat
    } else {
        b as nat
    });
    if a < 0 && b >= 0 {
        assert(dec_int(a)[0] == '-');
        assert(is_digit(dec_int(b)[0]));
    }
    if a >= 0 && b < 0 {
        assert(is_digit(dec_int(a)[0]));
        assert(dec_int(b)[0] == '-');
    }
    if a < 0 && b < 0 && dec_int(a) == dec_int(b) {
        assert(dec_digits((-a) as nat) =~= dec_int(a).drop_first());
        assert(dec_digits((-b) as nat) =~= dec_int(b).drop_first());
    }
}

/// A decimal text never starts with an at sign, so a numeric identifier is
/// always distinguishable from a handle.
pub proof fn lemma_dec_int_no_at(n: int)
    ensures
        dec_int(n).len() >= 1,
        dec_int(n)[0] != '@',
{
    lemma_dec_digits_parse(if n < 0 {
        (-n) as nat
    } else {
        n as nat
    });
    if n >= 0 {
        assert(is_digit(dec_int(n)[0]));
    }
}

/// Relies on `String::push`: appends exactly the given character.
#[verifier::external_body]
pub(crate) fn push_char(s: &mut String, c: char)
    ensures
        final (s)@ == old(s)@ + seq![c],
{
    s.push(c);
}

fn digit_to_char(d: u64) -> (c: char)
    requires
        d < 10,
    ensures
        c == digit_char(d as int),
{
    if d == 0 {
        '0'
    } else if d == 1 {
        '1'
    } else if d == 2 {
        '2'
    } else if d == 3 {
        '3'
    } else if d == 4 {
        '4'
    } else if d == 5 {
        '5'
    } else if d == 6 {
        '6'
    } else if d == 7 {
        '7'
    } else if d == 8 {
        '8'
    } else {
        '9'
    }
}

/// The decimal text of an unsigned 64-bit number.
pub fn u64_dec(n: u64) -> (s: String)
    ensures
        s@ == dec_digits(n as nat),
    decreases n,
{
    if n < 10 {
        let mut s = String::new();
        push_char(&mut s, digit_to_char(n));
        proof {
            assert(s@ =~= seq![digit_char(n as int)]);
        }
        s
    } else {
        proof {
            assert(n / 10 < n) by (nonlinear_arith)
                requires
                    n >= 10,
            ;
        }
        let mut s = u64_dec(n / 10);
        push_char(&mut s, digit_to_char(n % 10));
        proof {
            assert(s@ =~= dec_digits((n / 10) as nat).push(digit_char((n % 10) as int)));
            assert((n as nat) / 10 == (n / 10) as nat);
            assert((n as nat) % 10 == (n % 10) as nat);
        }
        s
    }
}

/// The decimal text of a signed 64-bit number.
pub fn i64_dec(n: i64) -> (s: String)
    ensures
        s@ == dec_int(n as int),
{
    if n >= 0 {
        u64_dec(n as u64)
    } else {
        let mag: u64 = ((-(n + 1)) as u64) + 1;
        proof {
            assert(mag as nat == (-(n as int)) as nat);
        }
        let mut s = String::new();
        push_char(&mut s, '-');
        let digits = u64_dec(mag);
        s.append(digits.as_str());
        proof {
            assert(s@ =~= seq!['-'] + dec_digits((-(n as int)) as nat));
        }
        s
    }
}

} // verus!
