//! A captured wall-clock instant with millisecond precision, and its two
//! renderings: `HH:MM:SS.mmm` for console lines and `YYYY-MM-DD HH:MM:SS.mmm`
//! for file lines, every component zero padded to a fixed width.

use vstd::prelude::*;

verus! {

/// One captured instant, held as plain calendar and clock fields. The
/// formatter only renders it; capturing "now" is the caller's business.
#[derive(Clone, Copy, PartialEq, Eq, Structural, Debug)]
pub struct Timestamp {
    pub year: u16,
    pub month: u8,
    pub day: u8,
    pub hour: u8,
    pub minute: u8,
    pub second: u8,
    pub millisecond: u16,
}

impl Timestamp {
    /// Every field fits the calendar and the fixed rendering widths.
    pub open spec fn wf(self) -> bool {
        &&& self.year <= 9999
        &&& 1 <= self.month <= 12
        &&& 1 <= self.day <= 31
        &&& self.hour <= 23
        &&& self.minute <= 59
        &&& self.second <= 59
        &&& self.millisecond <= 999
    }
}

/// `'0'` to `'9'` for 0 to 9; anything out of range gets `'0'`.
pub open spec fn digit_char(d: int) -> char {
    if d == 1 {
        '1'
    } else if d == 2 {
        '2'
    } else if d == 3 {
        '3'
    } else if d == 4 {
        '4'
    } else if d == 5 {
        '5'
    } else if d == 6 {
        '6'
    } else if d == 7 {
        '7'
    } else if d == 8 {
        '8'
    } else if d == 9 {
        '9'
    } else {
        '0'
    }
}

/// Two decimal digits, zero padded.
pub open spec fn pad2(n: int) -> Seq<char> {
    seq![digit_char(n / 10), digit_char(n % 10)]
}

/// Three decimal digits, zero padded.
pub open spec fn pad3(n: int) -> Seq<char> {
    seq![digit_char(n / 100), digit_char((n / 10) % 10), digit_char(n % 10)]
}

/// Four decimal digits, zero padded.
pub open spec fn pad4(n: int) -> Seq<char> {
    seq![
        digit_char(n / 1000),
        digit_char((n / 100) % 10),
        digit_char((n / 10) % 10),
        digit_char(n % 10),
    ]
}

/// The unpadded decimal digits of a non-negative number.
pub open spec fn decimal_of(n: int) -> Seq<char>
    decreases n,
{
    if n < 10 {
        seq![digit_char(n)]
    } else {
        decimal_of(n / 10) + seq![digit_char(n % 10)]
    }
}

/// `HH:MM:SS.mmm`.
pub open spec fn time_of(ts: Timestamp) -> Seq<char> {
    pad2(ts.hour as int) + seq![':'] + pad2(ts.minute as int) + seq![':'] + pad2(
        ts.second as int,
    ) + seq!['.'] + pad3(ts.millisecond as int)
}

/// `YYYY-MM-DD`.
pub open spec fn date_of(ts: Timestamp) -> Seq<char> {
    pad4(ts.year as int) + seq!['-'] + pad2(ts.month as int) + seq!['-'] + pad2(ts.day as int)
}

/// One decimal digit as a string.
fn digit_string(d: u8) -> (r: String)
    requires
        d < 10,
    ensures
        r@ == seq![digit_char(d as int)],
{
    match d {
        0 => {
            proof {
                reveal_strlit("0");
                assert("0"@ =~= seq![digit_char(d as int)]);
            }
            "0".to_owned()
        }
        1 => {
            proof {
                reveal_strlit("1");
                assert("1"@ =~= seq![digit_char(d as int)]);
            }
            "1".to_owned()
        }
        2 => {
            proof {
                reveal_strlit("2");
                assert("2"@ =~= seq![digit_char(d as int)]);
            }
            "2".to_owned()
        }
        3 => {
            proof {
                reveal_strlit("3");
                assert("3"@ =~= seq![digit_char(d as int)]);
            }
            "3".to_owned()
        }
        4 => {
            proof {
                reveal_strlit("4");
                assert("4"@ =~= seq![digit_char(d as int)]);
            }
            "4".to_owned()
        }
        5 => {
            proof {
                reveal_strlit("5");
                assert("5"@ =~= seq![digit_char(d as int)]);
            }
            "5".to_owned()
        }
        6 => {
            proof {
                reveal_strlit("6");
                assert("6"@ =~= seq![digit_char(d as int)]);
            }
            "6".to_owned()
        }
        7 => {
            proof {
                reveal_strlit("7");
                assert("7"@ =~= seq![digit_char(d as int)]);
            }
            "7".to_owned()
        }
        8 => {
            proof {
                reveal_strlit("8");
                assert("8"@ =~= seq![digit_char(d as int)]);
            }
            "8".to_owned()
        }
        _ => {
            proof {
                reveal_strlit("9");
                assert("9"@ =~= seq![digit_char(d as int)]);
            }
            "9".to_owned()
        }
    }
}

/// A number under 100 as two zero-padded digits.
fn two_digits(n: u8) -> (r: String)
    requires
        n < 100,
    ensures
        r@ == pad2(n as int),
{
    let mut s = digit_string(n / 10);
    let last = digit_string(n % 10);
    s.append(last.as_str());
    proof {
        assert(s@ =~= pad2(n as int));
    }
    s
}

/// A number under 1000 as three zero-padded digits.
fn three_digits(n: u16) -> (r: String)
    requires
        n < 1000,
    ensures
        r@ == pad3(n as int),
{
    let mut s = digit_string((n / 100) as u8);
    let mid = digit_string(((n / 10) % 10) as u8);
    s.append(mid.as_str());
    let last = digit_string((n % 10) as u8);
    s.append(last.as_str());
    proof {
        assert(s@ =~= pad3(n as int));
    }
    s
}

/// A number under 10000 as four zero-padded digits.
fn four_digits(n: u16) -> (r: String)
    requires
        n < 10000,
    ensures
        r@ == pad4(n as int),
{
    let mut s = digit_string((n / 1000) as u8);
    let second = digit_string(((n / 100) % 10) as u8);
    s.append(second.as_str());
    let third = digit_string(((n / 10) % 10) as u8);
    s.append(third.as_str());
    let last = digit_string((n % 10) as u8);
    s.append(last.as_str());
    proof {
        assert(s@ =~= pad4(n as int));
    }
    s
}

/// The unpadded decimal rendering of a number.
pub fn u32_decimal(n: u32) -> (r: String)
    ensures
        r@ == decimal_of(n as int),
    decreases n,
{
    if n < 10 {
        digit_string(n as u8)
    } else {
        let mut s = u32_decimal(n / 10);
        let last = digit_string((n % 10) as u8);
        s.append(last.as_str());
        proof {
            assert(s@ =~= decimal_of(n as int));
        }
        s
    }
}

/// The clock part, `HH:MM:SS.mmm`.
pub fn render_time(ts: &Timestamp) -> (r: String)
    requires
        ts.wf(),
    ensures
        r@ == time_of(*ts),
{
    let mut s = two_digits(ts.hour);
    s.append(":");
    let minute = two_digits(ts.minute);
    s.append(minute.as_str());
    s.append(":");
    let second = two_digits(ts.second);
    s.append(second.as_str());
    s.append(".");
    let millis = three_digits(ts.millisecond);
    s.append(millis.as_str());
    proof {
        reveal_strlit(":");
        reveal_strlit(".");
        assert(s@ =~= time_of(*ts));
    }
    s
}

/// The calendar part, `YYYY-MM-DD`.
pub fn render_date(ts: &Timestamp) -> (r: String)
    requires
        ts.wf(),
    ensures
        r@ == date_of(*ts),
{
    let mut s = four_digits(ts.year);
    s.append("-");
    let month = two_digits(ts.month);
    s.append(month.as_str());
    s.append("-");
    let day = two_digits(ts.day);
    s.append(day.as_str());
    proof {
        reveal_strlit("-");
        assert(s@ =~= date_of(*ts));
    }
    s
}

} // verus!
