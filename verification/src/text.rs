use vstd::prelude::*;

verus! {

/// The decimal digit character for `d` below ten.
pub open spec fn dec_digit(d: nat) -> char {
    if d == 0 {
        '0'
    } else if d == 1 {
        '1'
    } else if d == 2 {
        '2'
    } else if d == 3 {
        '3'
    } else if d == 4 {
        '4'
    } else if d == 5 {
        '5'
    } else if d == 6 {
        '6'
    } else if d == 7 {
        '7'
    } else if d == 8 {
        '8'
    } else {
        '9'
    }
}

/// The decimal rendering of `n`, most significant digit first, no sign and
/// no leading zero except for zero itself.
pub open spec fn dec_rep(n: nat) -> Seq<char>
    decreases n,
{
    if n < 10 {
        seq![dec_digit(n)]
    } else {
        dec_rep(n / 10) + seq![dec_digit(n % 10)]
    }
}

/// The one-character string for a decimal digit.
fn digit_str(d: usize) -> (r: &'static str)
    requires
        d < 10,
    ensures
        r@ =~= seq![dec_digit(d as nat)],
{
    if d == 0 {
        let s = "0";
        proof {
            reveal_strlit("0");
        }
        s
    } else if d == 1 {
        let s = "1";
        proof {
            reveal_strlit("1");
        }
        s
    } else if d == 2 {
        let s = "2";
        proof {
            reveal_strlit("2");
        }
        s
    } else if d == 3 {
        let s = "3";
        proof {
            reveal_strlit("3");
        }
        s
    } else if d == 4 {
        let s = "4";
        proof {
            reveal_strlit("4");
        }
        s
    } else if d == 5 {
        let s = "5";
        proof {
            reveal_strlit("5");
        }
        s
    } else if d == 6 {
        let s = "6";
        proof {
            reveal_strlit("6");
        }
        s
    } else if d == 7 {
        let s = "7";
        proof {
            reveal_strlit("7");
        }
        s
    } else if d == 8 {
        let s = "8";
        proof {
            reveal_strlit("8");
        }
        s
    } else {
        let s = "9";
        proof {
            reveal_strlit("9");
        }
        s
    }
}

/// Two strings are equal exactly when their characters are.
pub fn str_eq(a: &str, b: &str) -> (r: bool)
    ensures
        r == (a@ == b@),
{
    let sa = a.to_owned();
    let sb = b.to_owned();
    sa == sb
}

/// Renders `n` in decimal.
pub fn usize_to_string(n: usize) -> (r: String)
    ensures
        r@ == dec_rep(n as nat),
    decreases n,
{
    if n < 10 {
        String::from_str(digit_str(n))
    } else {
        let high = usize_to_string(n / 10);
        let r = high.concat(digit_str(n % 10));
        r
    }
}

} // verus!
