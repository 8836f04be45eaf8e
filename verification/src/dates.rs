//! Dates shown on project cards: calendar dates and "time ago" labels.
use vstd::prelude::*;
use vstd::string::*;
use crate::text::{decimal, push_decimal};

verus! {

/// English abbreviation of month `i` (0 is January).
pub open spec fn month_abbrev(i: int) -> Seq<char> {
    if i == 0 {
        "Jan"@
    } else if i == 1 {
        "Feb"@
    } else if i == 2 {
        "Mar"@
    } else if i == 3 {
        "Apr"@
    } else if i == 4 {
        "May"@
    } else if i == 5 {
        "Jun"@
    } else if i == 6 {
        "Jul"@
    } else if i == 7 {
        "Aug"@
    } else if i == 8 {
        "Sep"@
    } else if i == 9 {
        "Oct"@
    } else if i == 10 {
        "Nov"@
    } else {
        "Dec"@
    }
}

/// The month abbreviations in calendar order, January first.
pub open spec fn calendar_months() -> Seq<Seq<char>> {
    seq![
        "Jan"@, "Feb"@, "Mar"@, "Apr"@, "May"@, "Jun"@, "Jul"@, "Aug"@, "Sep"@, "Oct"@, "Nov"@,
        "Dec"@,
    ]
}

/// Month `i` (0 is January) is written with the calendar's abbreviation for
/// it, three letters long, and different months are never written alike.
pub proof fn lemma_months_in_calendar_order()
    ensures
        forall|i: int| 0 <= i < 12 ==> #[trigger] month_abbrev(i) == calendar_months()[i],
        forall|i: int| 0 <= i < 12 ==> (#[trigger] month_abbrev(i)).len() == 3,
        forall|i: int, j: int|
            0 <= i < 12 && 0 <= j < 12 && i != j ==> #[trigger] month_abbrev(i) != #[trigger] month_abbrev(
                j,
            ),
{
    reveal_strlit("Jan");
    reveal_strlit("Feb");
    reveal_strlit("Mar");
    reveal_strlit("Apr");
    reveal_strlit("May");
    reveal_strlit("Jun");
    reveal_strlit("Jul");
    reveal_strlit("Aug");
    reveal_strlit("Sep");
    reveal_strlit("Oct");
    reveal_strlit("Nov");
    reveal_strlit("Dec");
    assert forall|i: int, j: int|
        0 <= i < 12 && 0 <= j < 12 && i != j implies #[trigger] month_abbrev(i) != #[trigger] month_abbrev(
            j,
        ) by {
        if month_abbrev(i) == month_abbrev(j) {
            assert(month_abbrev(i)[0] == month_abbrev(j)[0]);
            assert(month_abbrev(i)[1] == month_abbrev(j)[1]);
            assert(month_abbrev(i)[2] == month_abbrev(j)[2]);
        }
    }
}

/// Text shown for a missing date.
pub open spec fn no_date() -> Seq<char> {
    "\u{2014}"@
}

/// "Mon D, YYYY" for the given date fields (month 0 is January).
pub open spec fn spec_format_date(month: u32, day: u32, year: u32) -> Seq<char> {
    month_abbrev(month as int) + " "@ + decimal(day as nat) + ", "@ + decimal(year as nat)
}

fn month_name(i: usize) -> (name: &'static str)
    requires
        i < 12,
    ensures
        name@ == month_abbrev(i as int),
{
    if i == 0 {
        "Jan"
    } else if i == 1 {
        "Feb"
    } else if i == 2 {
        "Mar"
    } else if i == 3 {
        "Apr"
    } else if i == 4 {
        "May"
    } else if i == 5 {
        "Jun"
    } else if i == 6 {
        "Jul"
    } else if i == 7 {
        "Aug"
    } else if i == 8 {
        "Sep"
    } else if i == 9 {
        "Oct"
    } else if i == 10 {
        "Nov"
    } else {
        "Dec"
    }
}

/// Calendar date of a timestamp, "Mon D, YYYY", from the month, day and
/// year that the browser parsed out of it; a dash when there is no timestamp.
pub fn format_date(rfc3339: &str, month: u32, day: u32, year: u32) -> (text: String)
    requires
        month < 12,
    ensures
        rfc3339@.len() == 0 ==> text@ == no_date(),
        rfc3339@.len() > 0 ==> text@ == spec_format_date(month, day, year),
{
    if rfc3339.unicode_len() == 0 {
        return String::from_str("\u{2014}");
    }
    let mut s = String::from_str(month_name(month as usize));
    s.append(" ");
    push_decimal(&mut s, day as u64);
    s.append(", ");
    push_decimal(&mut s, year as u64);
    s
}

/// "Time ago" label for an age in whole seconds, or the calendar date once
/// it is thirty days old or more.
pub open spec fn spec_relative_time(
    age_secs: u64,
    month: u32,
    day: u32,
    year: u32,
) -> Seq<char> {
    if age_secs < 60 {
        "just now"@
    } else if age_secs < 3600 {
        decimal((age_secs / 60) as nat) + " min ago"@
    } else if age_secs < 86400 {
        decimal((age_secs / 3600) as nat) + " hours ago"@
    } else if age_secs < 2592000 {
        decimal((age_secs / 86400) as nat) + " days ago"@
    } else {
        spec_format_date(month, day, year)
    }
}

/// How long ago a timestamp was, from its age in whole seconds (negative
/// ages count as zero) and its date fields; a dash when there is no timestamp.
pub fn format_relative_time(
    rfc3339: &str,
    age_secs: u64,
    month: u32,
    day: u32,
    year: u32,
) -> (text: String)
    requires
        month < 12,
    ensures
        rfc3339@.len() == 0 ==> text@ == no_date(),
        rfc3339@.len() > 0 ==> text@ == spec_relative_time(age_secs, month, day, year),
{
    if rfc3339.unicode_len() == 0 {
        return String::from_str("\u{2014}");
    }
    let mut s = String::new();
    if age_secs < 60 {
        s.append("just now");
    } else if age_secs < 3600 {
        push_decimal(&mut s, age_secs / 60);
        s.append(" min ago");
    } else if age_secs < 86400 {
        push_decimal(&mut s, age_secs / 3600);
        s.append(" hours ago");
    } else if age_secs < 2592000 {
        push_decimal(&mut s, age_secs / 86400);
        s.append(" days ago");
    } else {
        return format_date(rfc3339, month, day, year);
    }
    s
}

} // verus!
