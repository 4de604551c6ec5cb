//! Money amounts are stored as integer cents.  Displaying one renders the
//! amount in whole currency units with up to two fractional digits,
//! trailing fractional zeros trimmed.

use vstd::prelude::*;

verus! {

/// Marker for the integer-cents unit.  Conversions from and to floating
/// amounts are numeric glue and live outside the verified library.
pub struct Cents {}

/// The decimal digit character for one digit value.
pub open spec fn digit_char(d: nat) -> char {
    if d == 0 {
        '0'
    } else if d == 1 {
        '1'
    } else if d == 2 {
        '2'
    } else if d == 3 {
        '3'
    } else if d == 4 {
        '4'
    } else if d == 5 {
        '5'
    } else if d == 6 {
        '6'
    } else if d == 7 {
        '7'
    } else if d == 8 {
        '8'
    } else {
        '9'
    }
}

/// The decimal digits of a number, most significant first.
pub open spec fn dec_digits(n: nat) -> Seq<char>
    decreases n,
{
    if n < 10 {
        seq![digit_char(n)]
    } else {
        dec_digits(n / 10).push(digit_char(n % 10))
    }
}

/// What `cents_display` renders: sign, whole units, then the fractional
/// part — nothing for zero cents, one digit when the cents are a multiple
/// of ten, two digits otherwise.
pub open spec fn spec_cents_display(amt: int) -> Seq<char> {
    let m = if amt < 0 {
        -amt
    } else {
        amt
    };
    let sign: Seq<char> = if amt < 0 {
        seq!['-']
    } else {
        Seq::empty()
    };
    let whole = dec_digits((m / 100) as nat);
    let fr = m % 100;
    let frac: Seq<char> = if fr == 0 {
        Seq::empty()
    } else if fr % 10 == 0 {
        seq!['.', digit_char((fr / 10) as nat)]
    } else {
        seq!['.', digit_char((fr / 10) as nat), digit_char((fr % 10) as nat)]
    };
    sign + whole + frac
}

/// One decimal digit as text.
fn digit_str(d: u64) -> (s: &'static str)
    requires
        d < 10,
    ensures
        s@ =~= seq![digit_char(d as nat)],
{
    if d == 0 {
        proof {
            reveal_strlit("0");
        }
        "0"
    } else if d == 1 {
        proof {
            reveal_strlit("1");
        }
        "1"
    } else if d == 2 {
        proof {
            reveal_strlit("2");
        }
        "2"
    } else if d == 3 {
        proof {
            reveal_strlit("3");
        }
        "3"
    } else if d == 4 {
        proof {
            reveal_strlit("4");
        }
        "4"
    } else if d == 5 {
        proof {
            reveal_strlit("5");
        }
        "5"
    } else if d == 6 {
        proof {
            reveal_strlit("6");
        }
        "6"
    } else if d == 7 {
        proof {
            reveal_strlit("7");
        }
        "7"
    } else if d == 8 {
        proof {
            reveal_strlit("8");
        }
        "8"
    } else {
        proof {
            reveal_strlit("9");
        }
        "9"
    }
}

/// The decimal digits of `n`, most significant first.
fn dec_str(n: u64) -> (s: String)
    ensures
        s@ == dec_digits(n as nat),
    decreases n,
{
    if n < 10 {
        let r = digit_str(n).to_owned();
        proof {
            assert(r@ =~= dec_digits(n as nat));
        }
        r
    } else {
        let mut s = dec_str(n / 10);
        s.append(digit_str(n % 10));
        proof {
            assert(s@ =~= dec_digits(n as nat));
        }
        s
    }
}

/// Renders an amount of integer cents in whole currency units.
pub fn cents_display(amt: i64) -> (s: String)
    requires
        amt > i64::MIN,
    ensures
        s@ == spec_cents_display(amt as int),
{
    let neg = amt < 0;
    let m: u64 = if neg {
        (-amt) as u64
    } else {
        amt as u64
    };
    let whole = m / 100;
    let fr = m % 100;
    let mut s = String::new();
    if neg {
        proof {
            reveal_strlit("-");
        }
        s.append("-");
    }
    let w = dec_str(whole);
    s.append(w.as_str());
    if fr != 0 {
        proof {
            reveal_strlit(".");
        }
        s.append(".");
        if fr % 10 == 0 {
            s.append(digit_str(fr / 10));
        } else {
            s.append(digit_str(fr / 10));
            s.append(digit_str(fr % 10));
        }
    }
    proof {
        assert(s@ =~= spec_cents_display(amt as int));
    }
    s
}

} // verus!
