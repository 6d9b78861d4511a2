//! Verified rendering of the remaining time as a zero-padded clock string.
//!
//! Each clock component is rendered the way a two-digit zero-padded integer
//! is printed: at least two characters, a leading `0` for one-digit values,
//! a leading `-` for negative ones, and as many digits as it takes for
//! larger values.

use crate::countdown::Countdown;
use vstd::prelude::*;

verus! {

/// The decimal digit character for a value in `[0, 9]`.
pub open spec fn digit_char(d: int) -> char {
    if d == 0 {
        '0'
    } else if d == 1 {
        '1'
    } else if d == 2 {
        '2'
    } else if d == 3 {
        '3'
    } else if d == 4 {
        '4'
    } else if d == 5 {
        '5'
    } else if d == 6 {
        '6'
    } else if d == 7 {
        '7'
    } else if d == 8 {
        '8'
    } else {
        '9'
    }
}

/// The decimal digits of a non-negative number, most significant first,
/// without padding.
pub open spec fn spec_digits(n: nat) -> Seq<char>
    decreases n,
{
    if n < 10 {
        seq![digit_char(n as int)]
    } else {
        spec_digits(n / 10) + seq![digit_char((n % 10) as int)]
    }
}

/// One clock component: zero-padded to two characters, with a leading
/// minus for a negative value.
pub open spec fn spec_padded(n: int) -> Seq<char> {
    if n < 0 {
        seq!['-'] + spec_digits((-n) as nat)
    } else if n < 10 {
        seq!['0'] + spec_digits(n as nat)
    } else {
        spec_digits(n as nat)
    }
}

/// The whole clock string: hours, minutes and seconds, each zero-padded,
/// separated by colons.
pub open spec fn spec_time(h: int, m: int, s: int) -> Seq<char> {
    spec_padded(h) + seq![':'] + spec_padded(m) + seq![':'] + spec_padded(s)
}

/// The one-character string for a decimal digit.
fn digit_str(d: u32) -> (r: &'static str)
    requires
        d < 10,
    ensures
        r@ == seq![digit_char(d as int)],
{
    if d == 0 {
        proof {
            reveal_strlit("0");
            assert("0"@ =~= seq![digit_char(0)]);
        }
        "0"
    } else if d == 1 {
        proof {
            reveal_strlit("1");
            assert("1"@ =~= seq![digit_char(1)]);
        }
        "1"
    } else if d == 2 {
        proof {
            reveal_strlit("2");
            assert("2"@ =~= seq![digit_char(2)]);
        }
        "2"
    } else if d == 3 {
        proof {
            reveal_strlit("3");
            assert("3"@ =~= seq![digit_char(3)]);
        }
        "3"
    } else if d == 4 {
        proof {
            reveal_strlit("4");
            assert("4"@ =~= seq![digit_char(4)]);
        }
        "4"
    } else if d == 5 {
        proof {
            reveal_strlit("5");
            assert("5"@ =~= seq![digit_char(5)]);
        }
        "5"
    } else if d == 6 {
        proof {
            reveal_strlit("6");
            assert("6"@ =~= seq![digit_char(6)]);
        }
        "6"
    } else if d == 7 {
        proof {
            reveal_strlit("7");
            assert("7"@ =~= seq![digit_char(7)]);
        }
        "7"
    } else if d == 8 {
        proof {
            reveal_strlit("8");
            assert("8"@ =~= seq![digit_char(8)]);
        }
        "8"
    } else {
        proof {
            reveal_strlit("9");
            assert("9"@ =~= seq![digit_char(9)]);
        }
        "9"
    }
}

/// The decimal digits of a number, most significant first.
pub fn format_digits(n: u32) -> (r: String)
    ensures
        r@ == spec_digits(n as nat),
    decreases n,
{
    if n < 10 {
        String::from_str(digit_str(n))
    } else {
        let mut s = format_digits(n / 10);
        s.append(digit_str(n % 10));
        s
    }
}

/// Render one clock component, zero-padded to two characters.
pub fn format_padded(n: i32) -> (r: String)
    ensures
        r@ == spec_padded(n as int),
{
    if n >= 0 && n < 10 {
        proof {
            reveal_strlit("0");
            assert("0"@ =~= seq!['0']);
        }
        let mut s = String::from_str("0");
        s.append(digit_str(n as u32));
        s
    } else if n >= 0 {
        format_digits(n as u32)
    } else {
        let mag64: i64 = -(n as i64);
        assert(1 <= mag64 <= 0x8000_0000);
        let mag: u32 = mag64 as u32;
        proof {
            reveal_strlit("-");
            assert("-"@ =~= seq!['-']);
        }
        let mut s = String::from_str("-");
        let d = format_digits(mag);
        s.append(d.as_str());
        s
    }
}

/// Render the full clock string for the given hours, minutes and seconds.
pub fn format_time(hour: i32, minute: i32, second: i32) -> (r: String)
    ensures
        r@ == spec_time(hour as int, minute as int, second as int),
{
    proof {
        reveal_strlit(":");
        assert(":"@ =~= seq![':']);
    }
    let mut s = format_padded(hour);
    s.append(":");
    let m = format_padded(minute);
    s.append(m.as_str());
    s.append(":");
    let sec = format_padded(second);
    s.append(sec.as_str());
    proof {
        assert(s@ =~= spec_time(hour as int, minute as int, second as int));
    }
    s
}

impl Countdown {
    /// The display string the renderer is told to show on every change.
    pub fn time_string(&self) -> (r: String)
        ensures
            r@ == spec_time(self.hour as int, self.minute as int, self.second as int),
    {
        format_time(self.hour, self.minute, self.second)
    }
}

} // verus!
