//! Canonical text rendering of calendar dates.
//!
//! A day renders as `YYYY-MM-DD` and a month as `YYYY-MM`, both with
//! zero-padded fields, so a month's rendering is a prefix of exactly
//! its own days' renderings.

use vstd::prelude::*;
use vstd::string::*;
use crate::date::CalendarDate;

verus! {

/// The decimal digit character for `d` in 0 through 9.
pub open spec fn digit_char(d: int) -> char {
    if d == 0 {
        '0'
    } else if d == 1 {
        '1'
    } else if d == 2 {
        '2'
    } else if d == 3 {
        '3'
    } else if d == 4 {
        '4'
    } else if d == 5 {
        '5'
    } else if d == 6 {
        '6'
    } else if d == 7 {
        '7'
    } else if d == 8 {
        '8'
    } else {
        '9'
    }
}

/// `x` zero-padded to two decimal digits.
pub open spec fn two_digits(x: int) -> Seq<char> {
    seq![digit_char(x / 10 % 10), digit_char(x % 10)]
}

/// `x` zero-padded to four decimal digits.
pub open spec fn four_digits(x: int) -> Seq<char> {
    seq![
        digit_char(x / 1000 % 10),
        digit_char(x / 100 % 10),
        digit_char(x / 10 % 10),
        digit_char(x % 10),
    ]
}

/// The canonical `YYYY-MM-DD` rendering of a date.
pub open spec fn day_string_spec(d: CalendarDate) -> Seq<char> {
    four_digits(d.year as int) + seq!['-'] + two_digits(d.month as int) + seq!['-'] + two_digits(
        d.day as int,
    )
}

/// The canonical `YYYY-MM` rendering of a whole month.
pub open spec fn month_string_spec(year: int, month: int) -> Seq<char> {
    four_digits(year) + seq!['-'] + two_digits(month)
}

/// The one-character string for the decimal digit `d`.
fn digit_str(d: u32) -> (s: &'static str)
    requires
        d < 10,
    ensures
        s@ == seq![digit_char(d as int)],
{
    if d == 0 {
        proof {
            reveal_strlit("0");
        }
        "0"
    } else if d == 1 {
        proof {
            reveal_strlit("1");
        }
        "1"
    } else if d == 2 {
        proof {
            reveal_strlit("2");
        }
        "2"
    } else if d == 3 {
        proof {
            reveal_strlit("3");
        }
        "3"
    } else if d == 4 {
        proof {
            reveal_strlit("4");
        }
        "4"
    } else if d == 5 {
        proof {
            reveal_strlit("5");
        }
        "5"
    } else if d == 6 {
        proof {
            reveal_strlit("6");
        }
        "6"
    } else if d == 7 {
        proof {
            reveal_strlit("7");
        }
        "7"
    } else if d == 8 {
        proof {
            reveal_strlit("8");
        }
        "8"
    } else {
        proof {
            reveal_strlit("9");
        }
        "9"
    }
}

/// Appends `x` to `out` as two zero-padded decimal digits.
fn push_two_digits(out: &mut String, x: i32)
    requires
        0 <= x <= 99,
    ensures
        final(out)@ == old(out)@ + two_digits(x as int),
{
    out.append(digit_str((x / 10) as u32));
    out.append(digit_str((x % 10) as u32));
    proof {
        assert(final(out)@ =~= old(out)@ + two_digits(x as int));
    }
}

/// Appends `x` to `out` as four zero-padded decimal digits.
fn push_four_digits(out: &mut String, x: i32)
    requires
        0 <= x <= 9999,
    ensures
        final(out)@ == old(out)@ + four_digits(x as int),
{
    out.append(digit_str((x / 1000) as u32));
    out.append(digit_str((x / 100 % 10) as u32));
    out.append(digit_str((x / 10 % 10) as u32));
    out.append(digit_str((x % 10) as u32));
    proof {
        assert(final(out)@ =~= old(out)@ + four_digits(x as int));
    }
}

/// Renders a date as `YYYY-MM-DD`.
pub fn render_day(d: &CalendarDate) -> (s: String)
    requires
        d.wf(),
    ensures
        s@ == day_string_spec(*d),
{
    let mut s = String::new();
    push_four_digits(&mut s, d.year);
    s.append("-");
    push_two_digits(&mut s, d.month);
    s.append("-");
    push_two_digits(&mut s, d.day);
    proof {
        reveal_strlit("-");
        assert("-"@ =~= seq!['-']);
        assert(s@ =~= day_string_spec(*d));
    }
    s
}

/// A digit character determines its digit.
proof fn lemma_digit_char_injective(a: int, b: int)
    requires
        0 <= a < 10,
        0 <= b < 10,
        digit_char(a) == digit_char(b),
    ensures
        a == b,
{
}

/// Two-digit renderings determine their value.
proof fn lemma_two_digits_injective(a: int, b: int)
    requires
        0 <= a <= 99,
        0 <= b <= 99,
        two_digits(a) == two_digits(b),
    ensures
        a == b,
{
    assert(two_digits(a)[0] == two_digits(b)[0]);
    assert(two_digits(a)[1] == two_digits(b)[1]);
    lemma_digit_char_injective(a / 10 % 10, b / 10 % 10);
    lemma_digit_char_injective(a % 10, b % 10);
}

/// Four-digit renderings determine their value.
proof fn lemma_four_digits_injective(a: int, b: int)
    requires
        0 <= a <= 9999,
        0 <= b <= 9999,
        four_digits(a) == four_digits(b),
    ensures
        a == b,
{
    assert(four_digits(a)[0] == four_digits(b)[0]);
    assert(four_digits(a)[1] == four_digits(b)[1]);
    assert(four_digits(a)[2] == four_digits(b)[2]);
    assert(four_digits(a)[3] == four_digits(b)[3]);
    lemma_digit_char_injective(a / 1000 % 10, b / 1000 % 10);
    lemma_digit_char_injective(a / 100 % 10, b / 100 % 10);
    lemma_digit_char_injective(a / 10 % 10, b / 10 % 10);
    lemma_digit_char_injective(a % 10, b % 10);
}

/// No two dates render alike: a day pattern can only match rows of its
/// own date.
pub proof fn lemma_day_string_injective(a: CalendarDate, b: CalendarDate)
    requires
        a.wf(),
        b.wf(),
        day_string_spec(a) == day_string_spec(b),
    ensures
        a == b,
{
    let sa = day_string_spec(a);
    let sb = day_string_spec(b);
    assert(four_digits(a.year as int) =~= sa.subrange(0, 4));
    assert(two_digits(a.month as int) =~= sa.subrange(5, 7));
    assert(two_digits(a.day as int) =~= sa.subrange(8, 10));
    assert(four_digits(b.year as int) =~= sb.subrange(0, 4));
    assert(two_digits(b.month as int) =~= sb.subrange(5, 7));
    assert(two_digits(b.day as int) =~= sb.subrange(8, 10));
    lemma_four_digits_injective(a.year as int, b.year as int);
    lemma_two_digits_injective(a.month as int, b.month as int);
    lemma_two_digits_injective(a.day as int, b.day as int);
}

/// Zero-padding makes month prefixes sharp: a month's rendering is a
/// prefix of a day's rendering exactly when the day lies in that month,
/// so a month pattern matches every day of its month and nothing else.
pub proof fn lemma_month_prefixes_exactly_its_days(year: int, month: int, d: CalendarDate)
    requires
        0 <= year <= 9999,
        0 <= month <= 99,
        d.wf(),
    ensures
        month_string_spec(year, month).is_prefix_of(day_string_spec(d)) <==> (d.year == year
            && d.month == month),
{
    let ms = month_string_spec(year, month);
    let ds = day_string_spec(d);
    if ms.is_prefix_of(ds) {
        assert(four_digits(year) =~= ms.subrange(0, 4));
        assert(two_digits(month) =~= ms.subrange(5, 7));
        assert(four_digits(d.year as int) =~= ds.subrange(0, 4));
        assert(two_digits(d.month as int) =~= ds.subrange(5, 7));
        assert(ms.subrange(0, 4) =~= ds.subrange(0, 4));
        assert(ms.subrange(5, 7) =~= ds.subrange(5, 7));
        lemma_four_digits_injective(year, d.year as int);
        lemma_two_digits_injective(month, d.month as int);
    }
    if d.year == year && d.month == month {
        assert(ms =~= ds.subrange(0, 7));
        assert(ms.is_prefix_of(ds));
    }
}

/// Renders a whole month as `YYYY-MM`.
pub fn render_month(year: i32, month: i32) -> (s: String)
    requires
        0 <= year <= 9999,
        0 <= month <= 99,
    ensures
        s@ == month_string_spec(year as int, month as int),
{
    let mut s = String::new();
    push_four_digits(&mut s, year);
    s.append("-");
    push_two_digits(&mut s, month);
    proof {
        reveal_strlit("-");
        assert("-"@ =~= seq!['-']);
        assert(s@ =~= month_string_spec(year as int, month as int));
    }
    s
}

} // verus!
