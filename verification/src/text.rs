//! Decimal rendering of small integers, used when a numeric field is
//! embedded in a query string or an output sentence.

use vstd::prelude::*;

verus! {

/// The decimal digit character for a value between 0 and 9.
pub open spec fn dec_digit(d: int) -> char {
    if d == 0 {
        '0'
    } else if d == 1 {
        '1'
    } else if d == 2 {
        '2'
    } else if d == 3 {
        '3'
    } else if d == 4 {
        '4'
    } else if d == 5 {
        '5'
    } else if d == 6 {
        '6'
    } else if d == 7 {
        '7'
    } else if d == 8 {
        '8'
    } else {
        '9'
    }
}

/// The decimal representation of a non-negative integer, most
/// significant digit first, with no leading zeros (a lone zero for 0).
pub open spec fn dec_rep(n: int) -> Seq<char>
    recommends
        n >= 0,
    decreases n,
{
    if n < 10 {
        seq![dec_digit(n)]
    } else {
        dec_rep(n / 10) + seq![dec_digit(n % 10)]
    }
}

fn digit_str(d: u16) -> (r: &'static str)
    requires
        d < 10,
    ensures
        r@ == seq![dec_digit(d as int)],
{
    match d {
        0 => {
            proof {
                reveal_strlit("0");
                assert("0"@ =~= seq![dec_digit(0)]);
            }
            "0"
        },
        1 => {
            proof {
                reveal_strlit("1");
                assert("1"@ =~= seq![dec_digit(1)]);
            }
            "1"
        },
        2 => {
            proof {
                reveal_strlit("2");
                assert("2"@ =~= seq![dec_digit(2)]);
            }
            "2"
        },
        3 => {
            proof {
                reveal_strlit("3");
                assert("3"@ =~= seq![dec_digit(3)]);
            }
            "3"
        },
        4 => {
            proof {
                reveal_strlit("4");
                assert("4"@ =~= seq![dec_digit(4)]);
            }
            "4"
        },
        5 => {
            proof {
                reveal_strlit("5");
                assert("5"@ =~= seq![dec_digit(5)]);
            }
            "5"
        },
        6 => {
            proof {
                reveal_strlit("6");
                assert("6"@ =~= seq![dec_digit(6)]);
            }
            "6"
        },
        7 => {
            proof {
                reveal_strlit("7");
                assert("7"@ =~= seq![dec_digit(7)]);
            }
            "7"
        },
        8 => {
            proof {
                reveal_strlit("8");
                assert("8"@ =~= seq![dec_digit(8)]);
            }
            "8"
        },
        _ => {
            proof {
                reveal_strlit("9");
                assert("9"@ =~= seq![dec_digit(9)]);
            }
            "9"
        },
    }
}

fn push_dec(n: u16, out: &mut String)
    ensures
        final(out)@ == old(out)@ + dec_rep(n as int),
    decreases n,
{
    let ghost start = out@;
    if n >= 10 {
        push_dec(n / 10, out);
    }
    out.append(digit_str(n % 10));
    proof {
        assert(out@ =~= start + dec_rep(n as int));
    }
}

/// Renders an integer in decimal, exactly as `dec_rep` describes.
pub fn u16_to_dec(n: u16) -> (r: String)
    ensures
        r@ == dec_rep(n as int),
{
    let mut s = String::new();
    push_dec(n, &mut s);
    proof {
        assert(s@ =~= dec_rep(n as int));
    }
    s
}

} // verus!
