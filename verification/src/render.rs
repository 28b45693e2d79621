//! Rendering of unsigned integers as decimal text, with the zero-padded
//! fixed-width forms used by timestamp fields.

use vstd::prelude::*;
use vstd::string::StringExecFns;

verus! {

/// The character for a single decimal digit.
pub open spec fn digit_char(d: nat) -> char {
    if d == 0 {
        '0'
    } else if d == 1 {
        '1'
    } else if d == 2 {
        '2'
    } else if d == 3 {
        '3'
    } else if d == 4 {
        '4'
    } else if d == 5 {
        '5'
    } else if d == 6 {
        '6'
    } else if d == 7 {
        '7'
    } else if d == 8 {
        '8'
    } else {
        '9'
    }
}

/// The decimal digits of `n`, most significant first, with no leading
/// zeros (the number zero is the single digit `0`).
pub open spec fn dec_seq(n: nat) -> Seq<char>
    decreases n,
{
    if n < 10 {
        seq![digit_char(n)]
    } else {
        dec_seq(n / 10) + seq![digit_char(n % 10)]
    }
}

/// `dec_seq(n)` left-padded with `0` to at least two digits.
pub open spec fn pad2_seq(n: nat) -> Seq<char> {
    if n < 10 {
        seq!['0'] + dec_seq(n)
    } else {
        dec_seq(n)
    }
}

/// `dec_seq(n)` left-padded with `0` to at least four digits.
pub open spec fn pad4_seq(n: nat) -> Seq<char> {
    if n < 10 {
        seq!['0', '0', '0'] + dec_seq(n)
    } else if n < 100 {
        seq!['0', '0'] + dec_seq(n)
    } else if n < 1000 {
        seq!['0'] + dec_seq(n)
    } else {
        dec_seq(n)
    }
}

fn digit_str(d: u32) -> (r: &'static str)
    requires
        d < 10,
    ensures
        r@ == seq![digit_char(d as nat)],
{
    if d == 0 {
        proof {
            reveal_strlit("0");
            assert("0"@ =~= seq![digit_char(0)]);
        }
        "0"
    } else if d == 1 {
        proof {
            reveal_strlit("1");
            assert("1"@ =~= seq![digit_char(1)]);
        }
        "1"
    } else if d == 2 {
        proof {
            reveal_strlit("2");
            assert("2"@ =~= seq![digit_char(2)]);
        }
        "2"
    } else if d == 3 {
        proof {
            reveal_strlit("3");
            assert("3"@ =~= seq![digit_char(3)]);
        }
        "3"
    } else if d == 4 {
        proof {
            reveal_strlit("4");
            assert("4"@ =~= seq![digit_char(4)]);
        }
        "4"
    } else if d == 5 {
        proof {
            reveal_strlit("5");
            assert("5"@ =~= seq![digit_char(5)]);
        }
        "5"
    } else if d == 6 {
        proof {
            reveal_strlit("6");
            assert("6"@ =~= seq![digit_char(6)]);
        }
        "6"
    } else if d == 7 {
        proof {
            reveal_strlit("7");
            assert("7"@ =~= seq![digit_char(7)]);
        }
        "7"
    } else if d == 8 {
        proof {
            reveal_strlit("8");
            assert("8"@ =~= seq![digit_char(8)]);
        }
        "8"
    } else {
        proof {
            reveal_strlit("9");
            assert("9"@ =~= seq![digit_char(9)]);
        }
        "9"
    }
}

/// Renders `n` in decimal, the default textual representation of an
/// unsigned integer.
pub fn u32_to_string(n: u32) -> (s: String)
    ensures
        s@ == dec_seq(n as nat),
    decreases n,
{
    if n < 10 {
        String::from_str(digit_str(n))
    } else {
        let mut s = u32_to_string(n / 10);
        s.append(digit_str(n % 10));
        proof {
            assert(s@ =~= dec_seq(n as nat));
        }
        s
    }
}

/// Renders `n` in decimal, zero-padded to two digits.
pub fn u32_to_string_pad2(n: u32) -> (s: String)
    requires
        n < 100,
    ensures
        s@ == pad2_seq(n as nat),
{
    if n < 10 {
        let mut s = String::from_str(digit_str(0));
        s.append(digit_str(n));
        proof {
            assert(s@ =~= pad2_seq(n as nat));
        }
        s
    } else {
        u32_to_string(n)
    }
}

/// Renders `n` in decimal, zero-padded to four digits.
pub fn u32_to_string_pad4(n: u32) -> (s: String)
    requires
        n < 10000,
    ensures
        s@ == pad4_seq(n as nat),
{
    let mut s = String::new();
    if n < 1000 {
        s.append(digit_str(0));
    }
    if n < 100 {
        s.append(digit_str(0));
    }
    if n < 10 {
        s.append(digit_str(0));
    }
    let digits = u32_to_string(n);
    s.append(digits.as_str());
    proof {
        assert(s@ =~= pad4_seq(n as nat));
    }
    s
}

} // verus!
