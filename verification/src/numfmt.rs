//! Decimal formatting of the integers that appear in a report block, and the
//! fixed two-decimal rendering of a duration in milliseconds.

use vstd::prelude::*;

verus! {

/// The decimal digit character for `d`, for `0 <= d <= 9`.
pub open spec fn digit_char(d: int) -> char {
    if d == 1 {
        '1'
    } else if d == 2 {
        '2'
    } else if d == 3 {
        '3'
    } else if d == 4 {
        '4'
    } else if d == 5 {
        '5'
    } else if d == 6 {
        '6'
    } else if d == 7 {
        '7'
    } else if d == 8 {
        '8'
    } else if d == 9 {
        '9'
    } else {
        '0'
    }
}

/// The decimal numeral of `n`, most significant digit first, without a sign
/// and without leading zeros (a single `'0'` for zero).
pub open spec fn spec_decimal(n: int) -> Seq<char>
    decreases n,
{
    if n < 10 {
        seq![digit_char(n)]
    } else {
        spec_decimal(n / 10).push(digit_char(n % 10))
    }
}

/// A one-character string slice holding the decimal digit for `d`.
fn digit_str(d: u8) -> (s: &'static str)
    requires
        d < 10,
    ensures
        s@ == seq![digit_char(d as int)],
{
    match d {
        1 => {
            proof {
                reveal_strlit("1");
                assert("1"@ =~= seq![digit_char(1int)]);
            }
            "1"
        },
        2 => {
            proof {
                reveal_strlit("2");
                assert("2"@ =~= seq![digit_char(2int)]);
            }
            "2"
        },
        3 => {
            proof {
                reveal_strlit("3");
                assert("3"@ =~= seq![digit_char(3int)]);
            }
            "3"
        },
        4 => {
            proof {
                reveal_strlit("4");
                assert("4"@ =~= seq![digit_char(4int)]);
            }
            "4"
        },
        5 => {
            proof {
                reveal_strlit("5");
                assert("5"@ =~= seq![digit_char(5int)]);
            }
            "5"
        },
        6 => {
            proof {
                reveal_strlit("6");
                assert("6"@ =~= seq![digit_char(6int)]);
            }
            "6"
        },
        7 => {
            proof {
                reveal_strlit("7");
                assert("7"@ =~= seq![digit_char(7int)]);
            }
            "7"
        },
        8 => {
            proof {
                reveal_strlit("8");
                assert("8"@ =~= seq![digit_char(8int)]);
            }
            "8"
        },
        9 => {
            proof {
                reveal_strlit("9");
                assert("9"@ =~= seq![digit_char(9int)]);
            }
            "9"
        },
        _ => {
            proof {
                reveal_strlit("0");
                assert("0"@ =~= seq![digit_char(0int)]);
            }
            "0"
        },
    }
}

/// Appends the decimal numeral of `n` to `out`.
fn push_decimal(out: &mut String, n: u128)
    ensures
        final(out)@ == old(out)@ + spec_decimal(n as int),
    decreases n,
{
    let ghost prefix = out@;
    if n >= 10 {
        push_decimal(out, n / 10);
    }
    let d = digit_str((n % 10) as u8);
    out.append(d);
    proof {
        assert(out@ =~= prefix + spec_decimal(n as int));
    }
}

/// The decimal numeral of `n` as a fresh string.
pub fn decimal_string(n: u128) -> (s: String)
    ensures
        s@ == spec_decimal(n as int),
{
    let mut s = String::new();
    push_decimal(&mut s, n);
    proof {
        assert(s@ =~= spec_decimal(n as int));
    }
    s
}

/// A duration of `nanos` nanoseconds, in hundredths of a millisecond,
/// rounded half up.
pub open spec fn spec_hundredths_of_ms(nanos: int) -> int {
    nanos / 10000 + if nanos % 10000 >= 5000 {
        1int
    } else {
        0int
    }
}

/// The duration in milliseconds with exactly two decimal places, as printed
/// in a report block's time line.
pub open spec fn spec_millis_two_decimals(nanos: int) -> Seq<char> {
    let h = spec_hundredths_of_ms(nanos);
    spec_decimal(h / 100) + seq!['.', digit_char((h % 100) / 10), digit_char(h % 10)]
}

/// Formats `nanos` nanoseconds as milliseconds with two decimal places.
pub fn millis_two_decimals(nanos: u128) -> (s: String)
    ensures
        s@ == spec_millis_two_decimals(nanos as int),
{
    let h: u128 = nanos / 10000 + if nanos % 10000 >= 5000 {
        1
    } else {
        0
    };
    let mut s = decimal_string(h / 100);
    let frac = (h % 100) as u8;
    s.append(".");
    s.append(digit_str(frac / 10));
    s.append(digit_str(frac % 10));
    proof {
        reveal_strlit(".");
        assert((h % 100) as int % 10 == h as int % 10);
        assert(s@ =~= spec_millis_two_decimals(nanos as int));
    }
    s
}

} // verus!
