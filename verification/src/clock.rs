//! Timestamps in RFC 3339 form.

use chrono::TimeZone;
use vstd::prelude::*;

verus! {

/// The first millisecond of the year 0, counted from the Unix epoch.
pub const YEAR_0_MS: i64 = -62167219200000;

/// The last millisecond of the year 9999, counted from the Unix epoch.
pub const YEAR_9999_END_MS: i64 = 253402300799999;

/// An instant of the years 0 to 9999.
pub open spec fn in_four_digit_years(ts_ms: i64) -> bool {
    YEAR_0_MS <= ts_ms <= YEAR_9999_END_MS
}

/// A year of 366 days in the Gregorian calendar.
pub open spec fn is_leap(year: int) -> bool {
    year % 4 == 0 && (year % 100 != 0 || year % 400 == 0)
}

/// The number of days in a month.
pub open spec fn days_in_month(year: int, month: int) -> int {
    if month == 2 {
        if is_leap(year) {
            29
        } else {
            28
        }
    } else if month == 4 || month == 6 || month == 9 || month == 11 {
        30
    } else {
        31
    }
}

/// The number of days from the start of the year 0 to the start of a year.
pub open spec fn days_before_year(year: int) -> int
    decreases year,
{
    if year <= 0 {
        0
    } else {
        days_before_year(year - 1) + if is_leap(year - 1) {
            366int
        } else {
            365
        }
    }
}

/// The number of days from the start of a year to the start of a month in it.
pub open spec fn days_before_month(year: int, month: int) -> int
    decreases month,
{
    if month <= 1 {
        0
    } else {
        days_before_month(year, month - 1) + days_in_month(year, month - 1)
    }
}

/// A date and a time of day.
pub struct Civil {
    pub year: int,
    pub month: int,
    pub day: int,
    pub hour: int,
    pub minute: int,
    pub second: int,
    pub milli: int,
}

impl Civil {
    /// Every field is in its range.
    pub open spec fn valid(self) -> bool {
        &&& 0 <= self.year <= 9999
        &&& 1 <= self.month <= 12
        &&& 1 <= self.day <= days_in_month(self.year, self.month)
        &&& 0 <= self.hour < 24
        &&& 0 <= self.minute < 60
        &&& 0 <= self.second < 60
        &&& 0 <= self.milli < 1000
    }

    /// The number of days from the start of the year 0 to this date.
    pub open spec fn days(self) -> int {
        days_before_year(self.year) + days_before_month(self.year, self.month) + self.day - 1
    }

    /// The number of milliseconds from the start of this day.
    pub open spec fn time_ms(self) -> int {
        ((self.hour * 60 + self.minute) * 60 + self.second) * 1000 + self.milli
    }

    /// The instant in UTC, in milliseconds since the Unix epoch.
    pub open spec fn instant(self) -> int {
        YEAR_0_MS + self.days() * 86400000 + self.time_ms()
    }
}

/// Whether a character is a decimal digit.
pub open spec fn is_digit(c: char) -> bool {
    '0' <= c <= '9'
}

/// The digit at an index, as a number.
pub open spec fn digit(text: Seq<char>, i: int) -> int {
    text[i] as int - '0' as int
}

/// The two-digit number at an index.
pub open spec fn two_digits(text: Seq<char>, i: int) -> int {
    digit(text, i) * 10 + digit(text, i + 1)
}

/// The places of the digits in `YYYY-MM-DDTHH:MM:SS.mmmZ`.
pub open spec fn digit_place(i: int) -> bool {
    0 <= i < 23 && i != 4 && i != 7 && i != 10 && i != 13 && i != 16 && i != 19
}

/// A text of the form `YYYY-MM-DDTHH:MM:SS.mmmZ`.
pub open spec fn stamp_form(text: Seq<char>) -> bool {
    &&& text.len() == 24
    &&& text[4] == '-' && text[7] == '-' && text[10] == 'T' && text[13] == ':'
    &&& text[16] == ':' && text[19] == '.' && text[23] == 'Z'
    &&& forall|i: int| digit_place(i) ==> is_digit(#[trigger] text[i])
}

/// The date and time that a text of that form shows.
pub open spec fn shown(text: Seq<char>) -> Civil {
    Civil {
        year: two_digits(text, 0) * 100 + two_digits(text, 2),
        month: two_digits(text, 5),
        day: two_digits(text, 8),
        hour: two_digits(text, 11),
        minute: two_digits(text, 14),
        second: two_digits(text, 17),
        milli: two_digits(text, 20) * 10 + digit(text, 22),
    }
}

/// Whether a text shows the instant `ts_ms`: it has the form
/// `YYYY-MM-DDTHH:MM:SS.mmmZ`, and its date and time are that instant in UTC.
pub open spec fn shows(text: Seq<char>, ts_ms: int) -> bool {
    stamp_form(text) && shown(text).valid() && shown(text).instant() == ts_ms
}

/// The RFC 3339 text, in UTC and with milliseconds, of an instant that is given in
/// milliseconds since the Unix epoch, where chrono can represent the instant.
pub uninterp spec fn rfc3339_text(ts_ms: i64) -> Option<Seq<char>>;

/// `timestamp_millis_opt` and `to_rfc3339_opts` of chrono: the text of an instant,
/// or `None` where it is out of chrono's range. Instants of the years 0 to 9999 are in
/// range, and their texts show them as `YYYY-MM-DDTHH:MM:SS.mmmZ`.
#[verifier::external_body]
pub(crate) fn rfc3339_millis(ts_ms: i64) -> (res: Option<String>)
    ensures
        res is None ==> rfc3339_text(ts_ms) is None,
        res matches Some(text) ==> rfc3339_text(ts_ms) == Some(text@),
        in_four_digit_years(ts_ms) ==> res is Some && shows(res->0@, ts_ms as int),
{
    let instant = chrono::Utc.timestamp_millis_opt(ts_ms).single();
    instant.map(|t| t.to_rfc3339_opts(chrono::SecondsFormat::Millis, true))
}

/// Whether `ts` is chrono's text of the instant `ts_ms`, which it shows where that is in
/// the years 0 to 9999.
pub open spec fn texted(ts: Seq<char>, ts_ms: i64) -> bool {
    &&& rfc3339_text(ts_ms) == Some(ts)
    &&& in_four_digit_years(ts_ms) ==> shows(ts, ts_ms as int)
}

/// `Utc::now` and `to_rfc3339_opts` of chrono: the text of the current instant. Which
/// instant that is depends on the machine's clock, so that it is not said.
#[verifier::external_body]
pub(crate) fn rfc3339_now() -> (res: String)
    ensures
        exists|now: i64| #[trigger] texted(res@, now),
{
    chrono::Utc::now().to_rfc3339_opts(chrono::SecondsFormat::Millis, true)
}

/// Whether `ts` is a text for the instant `ts_ms`: the instant's own, where it has
/// one, as every instant of the years 0 to 9999 does, and otherwise that of whichever
/// instant the clock showed.
pub open spec fn stamps(ts: Seq<char>, ts_ms: i64) -> bool {
    if rfc3339_text(ts_ms) is Some || in_four_digit_years(ts_ms) {
        texted(ts, ts_ms)
    } else {
        exists|now: i64| #[trigger] texted(ts, now)
    }
}

/// The text of the instant `ts_ms`, or of the current one where that is out of range.
pub fn timestamp(ts_ms: i64) -> (res: String)
    ensures
        stamps(res@, ts_ms),
{
    match rfc3339_millis(ts_ms) {
        Some(text) => text,
        None => rfc3339_now(),
    }
}

/// Whether a text comes before another in the order of texts: they agree up to some
/// place, at which it has the smaller character or ends.
pub open spec fn text_before(a: Seq<char>, b: Seq<char>) -> bool {
    exists|k: int| #[trigger] differ_first_at(a, b, k)
}

/// Whether two texts agree up to the place `k`, at which `a` has the smaller character
/// or ends.
pub open spec fn differ_first_at(a: Seq<char>, b: Seq<char>, k: int) -> bool {
    &&& 0 <= k <= a.len() && k < b.len()
    &&& a.take(k) == b.take(k)
    &&& k < a.len() ==> a[k] < b[k]
}

/// A later year starts at least as late as the year before it ends.
proof fn lemma_days_before_year(earlier: int, later: int)
    requires
        0 <= earlier < later,
    ensures
        days_before_year(earlier) + (if is_leap(earlier) {
            366int
        } else {
            365
        }) <= days_before_year(later),
    decreases later,
{
    if earlier + 1 < later {
        lemma_days_before_year(earlier, later - 1);
    }
}

/// A later month of a year starts at least as late as the month before it ends, and no
/// month ends after its year.
proof fn lemma_days_before_month(year: int, earlier: int, later: int)
    requires
        1 <= earlier < later <= 13,
    ensures
        days_before_month(year, earlier) + days_in_month(year, earlier) <= days_before_month(
            year,
            later,
        ),
        days_before_month(year, 13) == (if is_leap(year) {
            366int
        } else {
            365
        }),
    decreases later,
{
    reveal_with_fuel(days_before_month, 14);
    if earlier + 1 < later {
        lemma_days_before_month(year, earlier, later - 1);
    }
}

/// No month starts before its year.
proof fn lemma_month_in_year(year: int, month: int)
    ensures
        days_before_month(year, month) >= 0,
    decreases month,
{
    if month > 1 {
        lemma_month_in_year(year, month - 1);
    }
}

/// A later date is a later day.
proof fn lemma_later_day(a: Civil, b: Civil)
    requires
        a.valid(),
        b.valid(),
        a.year < b.year || (a.year == b.year && a.month < b.month) || (a.year == b.year && a.month
            == b.month && a.day < b.day),
    ensures
        a.days() < b.days(),
{
    lemma_month_in_year(b.year, b.month);
    if a.year < b.year {
        lemma_days_before_year(a.year, b.year);
        lemma_days_before_month(a.year, a.month, 13);
    } else if a.month < b.month {
        lemma_days_before_month(a.year, a.month, b.month);
    }
}

/// The earlier text shows the earlier instant.
proof fn lemma_text_before(a: Seq<char>, b: Seq<char>)
    requires
        stamp_form(a),
        stamp_form(b),
        shown(a).valid(),
        shown(b).valid(),
        text_before(a, b),
    ensures
        shown(a).instant() < shown(b).instant(),
{
    let k = choose|k: int| #[trigger] differ_first_at(a, b, k);
    assert forall|i: int| 0 <= i < k implies a[i] == b[i] by {
        assert(a.take(k)[i] == b.take(k)[i]);
    }
    assert(digit_place(k));
    assert forall|i: int| digit_place(i) implies 0 <= #[trigger] digit(a, i) <= 9 && 0 <= digit(
        b,
        i,
    ) <= 9 by {
        assert(is_digit(a[i]) && is_digit(b[i]));
    }
    assert(digit(a, k) < digit(b, k));
    let x = shown(a);
    let y = shown(b);
    if k < 10 {
        assert(x.year < y.year || (x.year == y.year && x.month < y.month) || (x.year == y.year
            && x.month == y.month && x.day < y.day));
        lemma_later_day(x, y);
    } else {
        assert(x.days() == y.days());
        assert(x.time_ms() < y.time_ms());
    }
}

/// Two texts of the same length of which neither comes before the other agree.
proof fn lemma_unordered_texts(a: Seq<char>, b: Seq<char>, k: int)
    requires
        a.len() == b.len(),
        !text_before(a, b),
        !text_before(b, a),
        0 <= k <= a.len(),
    ensures
        a.take(k) == b.take(k),
    decreases k,
{
    if k > 0 {
        lemma_unordered_texts(a, b, k - 1);
        assert(!differ_first_at(a, b, k - 1));
        assert(!differ_first_at(b, a, k - 1));
        assert(a.take(k) == a.take(k - 1).push(a[k - 1]));
        assert(b.take(k) == b.take(k - 1).push(b[k - 1]));
    }
}

/// Law: the timestamps that are given to instants of the years 0 to 9999 are texts of
/// one form, from which the instant can be read back, and they order as the instants do:
/// one text comes before another exactly where its instant is the earlier one, and two
/// texts are the same exactly where their instants are.
pub proof fn law_timestamps_order(a: Seq<char>, a_ms: i64, b: Seq<char>, b_ms: i64)
    requires
        stamps(a, a_ms),
        in_four_digit_years(a_ms),
        stamps(b, b_ms),
        in_four_digit_years(b_ms),
    ensures
        stamp_form(a),
        shown(a).instant() == a_ms,
        text_before(a, b) <==> a_ms < b_ms,
        a == b <==> a_ms == b_ms,
{
    if text_before(a, b) {
        lemma_text_before(a, b);
    } else if text_before(b, a) {
        lemma_text_before(b, a);
    } else {
        lemma_unordered_texts(a, b, 24);
        assert(a.take(24) == a && b.take(24) == b);
    }
}

/// Law: an instant that chrono has a text for gets that text. One of the years 0 to 9999
/// gets a text that shows it: four digits of the year, two each of month, day, hour,
/// minute and second, three of the millisecond.
pub proof fn law_timestamp(ts_ms: i64, res: String)
    requires
        call_ensures(timestamp, (ts_ms,), res),
    ensures
        rfc3339_text(ts_ms) matches Some(text) ==> res@ == text,
        -62167219200000 <= ts_ms <= 253402300799999 ==> rfc3339_text(ts_ms) == Some(res@),
        -62167219200000 <= ts_ms <= 253402300799999 ==> res@.len() == 24 && shown(
            res@,
        ).instant() == ts_ms,
        exists|instant: i64| rfc3339_text(instant) == Some(res@),
{
    if rfc3339_text(ts_ms) is None && !in_four_digit_years(ts_ms) {
        let now = choose|now: i64| #[trigger] texted(res@, now);
        assert(rfc3339_text(now) == Some(res@));
    } else {
        assert(rfc3339_text(ts_ms) == Some(res@));
    }
}

/// Law: of two instants of the years 0 to 9999, the earlier one gets the text that comes
/// first: the two agree up to some place, at which it has the smaller character. The same
/// instant gets the same text, and only that.
pub proof fn law_timestamps_of_instants(a_ms: i64, a: String, b_ms: i64, b: String)
    requires
        call_ensures(timestamp, (a_ms,), a),
        call_ensures(timestamp, (b_ms,), b),
        -62167219200000 <= a_ms <= 253402300799999,
        -62167219200000 <= b_ms <= 253402300799999,
    ensures
        a_ms == b_ms <==> a@ == b@,
        a_ms < b_ms ==> exists|k: int|
            {
                &&& 0 <= k < 24
                &&& (#[trigger] a@[k]) < b@[k]
                &&& a@.take(k) == b@.take(k)
            },
{
    law_timestamps_order(a@, a_ms, b@, b_ms);
    law_timestamps_order(b@, b_ms, a@, a_ms);
    if a_ms < b_ms {
        let k = choose|k: int| #[trigger] differ_first_at(a@, b@, k);
        assert(a@[k] < b@[k]);
    }
}

} // verus!
