//! Decimal rendering of the integers that appear in the wire strings:
//! unpadded magnitudes, sign handling as the standard formatter writes it,
//! and the two- and four-digit zero-padded fields of date-time strings.

use vstd::prelude::*;

verus! {

pub open spec fn spec_digit_char(d: int) -> char {
    if d == 0 {
        '0'
    } else if d == 1 {
        '1'
    } else if d == 2 {
        '2'
    } else if d == 3 {
        '3'
    } else if d == 4 {
        '4'
    } else if d == 5 {
        '5'
    } else if d == 6 {
        '6'
    } else if d == 7 {
        '7'
    } else if d == 8 {
        '8'
    } else {
        '9'
    }
}

/// Decimal digits of a non-negative integer, no padding, no sign.
pub open spec fn spec_nat_string(n: nat) -> Seq<char>
    decreases n,
{
    if n < 10 {
        seq![spec_digit_char(n as int)]
    } else {
        spec_nat_string(n / 10) + seq![spec_digit_char((n % 10) as int)]
    }
}

/// Decimal rendering of an integer, a leading minus sign when negative.
pub open spec fn spec_int_string(n: int) -> Seq<char> {
    if n < 0 {
        seq!['-'] + spec_nat_string((-n) as nat)
    } else {
        spec_nat_string(n as nat)
    }
}

/// Rendering of an integer padded with zeros to a minimum width of two
/// characters, the sign counting toward the width.
pub open spec fn spec_pad2(n: int) -> Seq<char> {
    if 0 <= n < 10 {
        seq!['0'] + spec_nat_string(n as nat)
    } else {
        spec_int_string(n)
    }
}

/// Rendering of a year padded with zeros to four digits.
pub open spec fn spec_pad4(n: int) -> Seq<char> {
    seq![
        spec_digit_char(n / 1000),
        spec_digit_char((n / 100) % 10),
        spec_digit_char((n / 10) % 10),
        spec_digit_char(n % 10),
    ]
}

fn digit_str(d: u8) -> (r: &'static str)
    requires
        d < 10,
    ensures
        r@ == seq![spec_digit_char(d as int)],
{
    if d == 0 {
        proof {
            reveal_strlit("0");
            assert("0"@ =~= seq![spec_digit_char(0)]);
        }
        "0"
    } else if d == 1 {
        proof {
            reveal_strlit("1");
            assert("1"@ =~= seq![spec_digit_char(1)]);
        }
        "1"
    } else if d == 2 {
        proof {
            reveal_strlit("2");
            assert("2"@ =~= seq![spec_digit_char(2)]);
        }
        "2"
    } else if d == 3 {
        proof {
            reveal_strlit("3");
            assert("3"@ =~= seq![spec_digit_char(3)]);
        }
        "3"
    } else if d == 4 {
        proof {
            reveal_strlit("4");
            assert("4"@ =~= seq![spec_digit_char(4)]);
        }
        "4"
    } else if d == 5 {
        proof {
            reveal_strlit("5");
            assert("5"@ =~= seq![spec_digit_char(5)]);
        }
        "5"
    } else if d == 6 {
        proof {
            reveal_strlit("6");
            assert("6"@ =~= seq![spec_digit_char(6)]);
        }
        "6"
    } else if d == 7 {
        proof {
            reveal_strlit("7");
            assert("7"@ =~= seq![spec_digit_char(7)]);
        }
        "7"
    } else if d == 8 {
        proof {
            reveal_strlit("8");
            assert("8"@ =~= seq![spec_digit_char(8)]);
        }
        "8"
    } else {
        proof {
            reveal_strlit("9");
            assert("9"@ =~= seq![spec_digit_char(9)]);
        }
        "9"
    }
}

/// Appends one decimal digit.
pub fn push_digit(s: &mut String, d: u8)
    requires
        d < 10,
    ensures
        final(s)@ == old(s)@ + seq![spec_digit_char(d as int)],
{
    let t = digit_str(d);
    s.append(t);
}

/// Appends the decimal digits of `n`, most significant first.
pub fn push_u64_decimal(s: &mut String, n: u64)
    ensures
        final(s)@ == old(s)@ + spec_nat_string(n as nat),
    decreases n,
{
    if n < 10 {
        push_digit(s, n as u8);
    } else {
        push_u64_decimal(s, n / 10);
        push_digit(s, (n % 10) as u8);
        proof {
            assert(old(s)@ + spec_nat_string((n / 10) as nat) + seq![
                spec_digit_char((n % 10) as int),
            ] =~= old(s)@ + spec_nat_string(n as nat));
        }
    }
}

/// Appends `n` zero-padded to at least two characters.
pub fn push_pad2(s: &mut String, n: u64)
    requires
        n < 100,
    ensures
        final(s)@ == old(s)@ + spec_pad2(n as int),
{
    if n < 10 {
        push_digit(s, 0u8);
        push_digit(s, n as u8);
        proof {
            assert(old(s)@ + seq![spec_digit_char(0)] + seq![spec_digit_char(n as int)] =~= old(
                s,
            )@ + spec_pad2(n as int));
        }
    } else {
        push_u64_decimal(s, n);
    }
}

/// Appends a year zero-padded to four digits.
pub fn push_pad4(s: &mut String, n: u64)
    requires
        n < 10000,
    ensures
        final(s)@ == old(s)@ + spec_pad4(n as int),
{
    push_digit(s, (n / 1000) as u8);
    push_digit(s, ((n / 100) % 10) as u8);
    push_digit(s, ((n / 10) % 10) as u8);
    push_digit(s, (n % 10) as u8);
    proof {
        assert(old(s)@ + seq![spec_digit_char(n as int / 1000)] + seq![
            spec_digit_char((n as int / 100) % 10),
        ] + seq![spec_digit_char((n as int / 10) % 10)] + seq![spec_digit_char(n as int % 10)]
            =~= old(s)@ + spec_pad4(n as int));
    }
}

/// A non-negative number below one hundred renders as exactly two characters.
pub proof fn lemma_pad2_two_digits(n: int)
    requires
        0 <= n < 100,
    ensures
        spec_pad2(n).len() == 2,
{
    if n < 10 {
    } else {
        assert(spec_nat_string(n as nat) == spec_nat_string(n as nat / 10) + seq![
            spec_digit_char((n as nat % 10) as int),
        ]);
        assert(spec_nat_string(n as nat / 10).len() == 1);
    }
}

} // verus!
