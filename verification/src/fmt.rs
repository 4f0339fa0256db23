//! Verified decimal rendering of window handles, used by the user-facing
//! messages of the foreground command.

use vstd::prelude::*;
use vstd::string::StringExecFns;

verus! {

/// The character for one decimal digit.
pub open spec fn digit_char(d: int) -> char {
    if d == 0 {
        '0'
    } else if d == 1 {
        '1'
    } else if d == 2 {
        '2'
    } else if d == 3 {
        '3'
    } else if d == 4 {
        '4'
    } else if d == 5 {
        '5'
    } else if d == 6 {
        '6'
    } else if d == 7 {
        '7'
    } else if d == 8 {
        '8'
    } else {
        '9'
    }
}

/// The decimal digits of `v`, most significant first.
pub open spec fn spec_digits(v: nat) -> Seq<char>
    decreases v,
{
    if v < 10 {
        seq![digit_char(v as int)]
    } else {
        spec_digits(v / 10).push(digit_char((v % 10) as int))
    }
}

/// The decimal rendering of `n`, with a leading minus sign when negative.
pub open spec fn spec_decimal(n: int) -> Seq<char> {
    if n < 0 {
        seq!['-'] + spec_digits((-n) as nat)
    } else {
        spec_digits(n as nat)
    }
}

/// One decimal digit as text.
fn digit_str(d: u8) -> (r: &'static str)
    requires
        d < 10,
    ensures
        r@ == seq![digit_char(d as int)],
{
    if d == 0 {
        proof {
            reveal_strlit("0");
        }
        assert("0"@ =~= seq![digit_char(0)]);
        "0"
    } else if d == 1 {
        proof {
            reveal_strlit("1");
        }
        assert("1"@ =~= seq![digit_char(1)]);
        "1"
    } else if d == 2 {
        proof {
            reveal_strlit("2");
        }
        assert("2"@ =~= seq![digit_char(2)]);
        "2"
    } else if d == 3 {
        proof {
            reveal_strlit("3");
        }
        assert("3"@ =~= seq![digit_char(3)]);
        "3"
    } else if d == 4 {
        proof {
            reveal_strlit("4");
        }
        assert("4"@ =~= seq![digit_char(4)]);
        "4"
    } else if d == 5 {
        proof {
            reveal_strlit("5");
        }
        assert("5"@ =~= seq![digit_char(5)]);
        "5"
    } else if d == 6 {
        proof {
            reveal_strlit("6");
        }
        assert("6"@ =~= seq![digit_char(6)]);
        "6"
    } else if d == 7 {
        proof {
            reveal_strlit("7");
        }
        assert("7"@ =~= seq![digit_char(7)]);
        "7"
    } else if d == 8 {
        proof {
            reveal_strlit("8");
        }
        assert("8"@ =~= seq![digit_char(8)]);
        "8"
    } else {
        proof {
            reveal_strlit("9");
        }
        assert("9"@ =~= seq![digit_char(9)]);
        "9"
    }
}

/// Appends the decimal digits of `v` to `s`.
fn push_digits(s: &mut String, v: u128)
    ensures
        final(s)@ == old(s)@ + spec_digits(v as nat),
    decreases v,
{
    if v < 10 {
        s.append(digit_str(v as u8));
    } else {
        push_digits(s, v / 10);
        s.append(digit_str((v % 10) as u8));
        proof {
            assert(old(s)@ + spec_digits((v / 10) as nat) + seq![digit_char((v % 10) as int)]
                =~= old(s)@ + spec_digits(v as nat));
        }
    }
}

/// The decimal rendering of a window handle.
pub fn decimal_string(n: isize) -> (r: String)
    ensures
        r@ == spec_decimal(n as int),
{
    if n >= 0 {
        let mut s = String::new();
        push_digits(&mut s, n as u128);
        proof {
            assert(Seq::<char>::empty() + spec_digits(n as nat) =~= spec_decimal(n as int));
        }
        s
    } else {
        let mut s = String::from_str("-");
        let below: isize = -1 - n;
        let mag: u128 = (below as u128) + 1;
        push_digits(&mut s, mag);
        proof {
            reveal_strlit("-");
            assert("-"@ + spec_digits(mag as nat) =~= spec_decimal(n as int));
        }
        s
    }
}

} // verus!
