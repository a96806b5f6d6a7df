//! Wall-clock rendering of news timestamps.

use vstd::prelude::*;
use crate::text::{digit_char, digits_value, lemma_digit_char_value};

verus! {

/// The earliest millisecond timestamp that chrono can place on the calendar
/// (January 1 of year -262143, 00:00:00.000 UTC).
pub const EARLIEST_MILLIS: i64 = -8_334_601_228_800_000;

/// The latest millisecond timestamp that chrono can place on the calendar
/// (December 31 of year 262142, 23:59:59.999 UTC).
pub const LATEST_MILLIS: i64 = 8_210_266_876_799_999;

/// `n` (0 to 99) written with exactly two decimal digits.
pub open spec fn two_digits(n: int) -> Seq<char> {
    seq![digit_char(n / 10), digit_char(n % 10)]
}

/// The UTC time of day of a millisecond Unix timestamp, as "HH:MM:SS".
pub open spec fn clock_text(millis: int) -> Seq<char> {
    let secs = (millis / 1000) % 86400;
    two_digits(secs / 3600) + seq![':'] + two_digits((secs % 3600) / 60) + seq![':'] + two_digits(
        secs % 60,
    )
}

/// What the dashboard shows as the time of a millisecond timestamp: its UTC
/// time of day, or "??:??:??" when it lies outside chrono's calendar.
pub open spec fn display_time_text(millis: int) -> Seq<char> {
    if EARLIEST_MILLIS <= millis <= LATEST_MILLIS {
        clock_text(millis)
    } else {
        "??:??:??"@
    }
}

/// The shown time always has the eight characters of "HH:MM:SS", with the
/// hour below 24 and the minute and second below 60.
pub proof fn law_display_time_width(millis: int)
    ensures
        display_time_text(millis).len() == 8,
        EARLIEST_MILLIS <= millis <= LATEST_MILLIS ==> {
            let secs = (millis / 1000) % 86400;
            &&& 0 <= secs / 3600 < 24
            &&& 0 <= (secs % 3600) / 60 < 60
            &&& 0 <= secs % 60 < 60
        },
{
    reveal_strlit("??:??:??");
}

/// Reading a two-digit text back gives its number.
proof fn lemma_two_digits(n: int)
    requires
        0 <= n < 100,
    ensures
        two_digits(n).len() == 2,
        digits_value(two_digits(n)) == n,
        '0' <= two_digits(n)[0] <= '9',
        '0' <= two_digits(n)[1] <= '9',
{
    lemma_digit_char_value(n / 10);
    lemma_digit_char_value(n % 10);
    let t = two_digits(n);
    assert(t.drop_last().drop_last() =~= Seq::<char>::empty());
    assert(t.drop_last() =~= seq![digit_char(n / 10)]);
    assert(digits_value(t.drop_last().drop_last()) == 0);
    assert(digits_value(t.drop_last()) == n / 10);
    assert(digits_value(t) == 10 * (n / 10) + n % 10);
}

/// The shown time of a timestamp that chrono's calendar holds (from
/// -8_334_601_228_800_000 to 8_210_266_876_799_999 ms) is "HH:MM:SS": two
/// digits of hour (below 24), minute and second (below 60) that together
/// give the second of the UTC day of the timestamp. Outside that range it is
/// "??:??:??".
pub proof fn law_display_time_reads_back(millis: int)
    ensures
        !(-8_334_601_228_800_000 <= millis <= 8_210_266_876_799_999) ==> display_time_text(millis)
            == "??:??:??"@,
        -8_334_601_228_800_000 <= millis <= 8_210_266_876_799_999 ==> {
            let t = display_time_text(millis);
            let h = digits_value(t.subrange(0, 2));
            let m = digits_value(t.subrange(3, 5));
            let s = digits_value(t.subrange(6, 8));
            &&& t.len() == 8
            &&& t[2] == ':' && t[5] == ':'
            &&& forall|i: int| 0 <= i < 8 && i != 2 && i != 5 ==> '0' <= #[trigger] t[i] <= '9'
            &&& 0 <= h < 24 && 0 <= m < 60 && 0 <= s < 60
            &&& h * 3600 + m * 60 + s == (millis / 1000) % 86400
        },
{
    if -8_334_601_228_800_000 <= millis <= 8_210_266_876_799_999 {
        let secs = (millis / 1000) % 86400;
        let hh = secs / 3600;
        let mm = (secs % 3600) / 60;
        let ss = secs % 60;
        lemma_two_digits(hh);
        lemma_two_digits(mm);
        lemma_two_digits(ss);
        let t = display_time_text(millis);
        assert(t.subrange(0, 2) =~= two_digits(hh));
        assert(t.subrange(3, 5) =~= two_digits(mm));
        assert(t.subrange(6, 8) =~= two_digits(ss));
        assert(hh * 3600 + mm * 60 + ss == secs);
    }
}

/// Calls `chrono::TimeZone::timestamp_millis_opt` on `chrono::Utc`, takes
/// the single result with `MappedLocalTime::single`, and renders it with
/// `DateTime::format("%H:%M:%S")` and `to_string`.
/// Claimed: there is a result exactly when chrono's calendar holds the
/// timestamp (from `EARLIEST_MILLIS` to `LATEST_MILLIS`, as chrono's
/// `NaiveDate::MIN` and `NaiveDate::MAX` place it), and the text is the
/// two-digit UTC hour, minute and second of that instant, joined by ':'.
#[verifier::external_body]
pub(crate) fn utc_clock_text(millis: i64) -> (res: Option<String>)
    ensures
        res is Some <==> EARLIEST_MILLIS <= millis <= LATEST_MILLIS,
        res matches Some(text) ==> text@ == clock_text(millis as int),
{
    match chrono::TimeZone::timestamp_millis_opt(&chrono::Utc, millis).single() {
        Some(instant) => Some(instant.format("%H:%M:%S").to_string()),
        None => None,
    }
}

} // verus!
