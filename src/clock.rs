//! Local wall-clock time as plain values, and its renderings in log lines and
//! log file names.
use chrono::{Datelike, Timelike};
use vstd::prelude::*;

use crate::text::{
    decimal, fixed_digits, is_digit, lemma_decimal_injective, lemma_decimal_len_at_least,
    lemma_fixed_digits_injective, lemma_fixed_digits_shape, pow10,
};

verus! {

/// A local calendar date and time of day, to the second.
#[derive(Clone, Copy, Debug, PartialEq, Eq, Structural)]
pub struct LocalTime {
    pub year: i32,
    pub month: u32,
    pub day: u32,
    pub hour: u32,
    pub minute: u32,
    pub second: u32,
    /// Nanoseconds into the second; 1_000_000_000 and above mark a leap
    /// second.
    pub nanosecond: u32,
}

/// Whether `y` is a leap year of the proleptic Gregorian calendar.
pub open spec fn is_leap_year(y: int) -> bool {
    y % 4 == 0 && (y % 100 != 0 || y % 400 == 0)
}

pub open spec fn days_in_month(y: int, m: int) -> int {
    if m == 2 {
        if is_leap_year(y) {
            29
        } else {
            28
        }
    } else if m == 4 || m == 6 || m == 9 || m == 11 {
        30
    } else {
        31
    }
}

impl LocalTime {
    /// A real calendar date within chrono's years, and a time of day whose
    /// leap second, if any, follows second 59.
    pub open spec fn wf(&self) -> bool {
        &&& -262143 <= self.year <= 262142
        &&& 1 <= self.month <= 12
        &&& 1 <= self.day <= days_in_month(self.year as int, self.month as int)
        &&& self.hour < 24
        &&& self.minute < 60
        &&& self.second < 60
        &&& self.nanosecond < 2_000_000_000
        &&& self.nanosecond >= 1_000_000_000 ==> self.second == 59
    }

    /// The second as `%S` shows it: 60 during a leap second.
    pub open spec fn shown_second(&self) -> nat {
        self.second as nat + self.nanosecond as nat / 1_000_000_000
    }

    /// The minute-granularity bucket that names a log file.
    pub open spec fn minute_bucket(&self) -> (int, int, int, int, int) {
        (self.year as int, self.month as int, self.day as int, self.hour as int, self.minute as int)
    }
}

/// The local time now.
///
/// Relies on chrono's `From<SystemTime> for DateTime<Local>` and on its
/// `Datelike` / `Timelike` accessors. The conversion also takes clocks set
/// before 1970, and uses UTC when no zone data can be read; it fails only for
/// readings beyond chrono's years, which no system clock gives. The reading
/// is a valid date of chrono's calendar (years -262143 to 262142), an hour in
/// 0..=23, a minute and a second in 0..=59, and nanoseconds below
/// 2_000_000_000, the upper half marking a leap second, which chrono allows
/// only after second 59.
#[verifier::external_body]
pub(crate) fn local_now() -> (t: LocalTime)
    ensures
        t.wf(),
{
    let now = chrono::DateTime::<chrono::Local>::from(std::time::SystemTime::now());
    LocalTime {
        year: now.year(),
        month: now.month(),
        day: now.day(),
        hour: now.hour(),
        minute: now.minute(),
        second: now.second(),
        nanosecond: now.nanosecond(),
    }
}

/// A year as `%Y` renders it: four zero-padded digits for years 0 to 9999,
/// otherwise an explicit sign followed by at least four digits.
pub open spec fn year_text(y: int) -> Seq<char> {
    if 0 <= y <= 9999 {
        fixed_digits(y as nat, 4)
    } else {
        let m: nat = if y < 0 {
            (-y) as nat
        } else {
            y as nat
        };
        let sign = if y < 0 {
            '-'
        } else {
            '+'
        };
        seq![sign] + if m < 10000 {
            fixed_digits(m, 4)
        } else {
            decimal(m)
        }
    }
}

pub open spec fn two_digits(n: u32) -> Seq<char> {
    fixed_digits(n as nat, 2)
}

/// `YYYY-MM-DD HH:MM:SS`.
pub open spec fn timestamp_spec(t: LocalTime) -> Seq<char> {
    year_text(t.year as int) + seq!['-'] + two_digits(t.month) + seq!['-'] + two_digits(t.day)
        + seq![' '] + two_digits(t.hour) + seq![':'] + two_digits(t.minute) + seq![':']
        + fixed_digits(t.shown_second(), 2)
}

/// `log_YYYYMMDDHHmm.txt`.
pub open spec fn file_name_spec(t: LocalTime) -> Seq<char> {
    seq!['l', 'o', 'g', '_'] + year_text(t.year as int) + two_digits(t.month) + two_digits(t.day)
        + two_digits(t.hour) + two_digits(t.minute) + seq!['.', 't', 'x', 't']
}

/// The character expected at position `i` of `YYYY-MM-DD HH:MM:SS`.
pub open spec fn timestamp_char_ok(c: char, i: int) -> bool {
    if i == 4 || i == 7 {
        c == '-'
    } else if i == 10 {
        c == ' '
    } else if i == 13 || i == 16 {
        c == ':'
    } else {
        is_digit(c)
    }
}

/// `s` has the shape `YYYY-MM-DD HH:MM:SS`.
pub open spec fn timestamp_shaped(s: Seq<char>) -> bool {
    &&& s.len() == 19
    &&& forall|i: int| 0 <= i < 19 ==> timestamp_char_ok(#[trigger] s[i], i)
}

proof fn lemma_pow10_four()
    ensures
        pow10(4) == 10000,
        pow10(2) == 100,
{
    assert(pow10(0) == 1);
    assert(pow10(1) == 10);
    assert(pow10(2) == 100);
    assert(pow10(3) == 1000);
    assert(pow10(4) == 10000);
}

/// For a four-digit year, the timestamp has the shape `YYYY-MM-DD HH:MM:SS`.
pub proof fn lemma_timestamp_shape(t: LocalTime)
    requires
        0 <= t.year <= 9999,
    ensures
        timestamp_shaped(timestamp_spec(t)),
{
    let y = fixed_digits(t.year as nat, 4);
    let mo = two_digits(t.month);
    let d = two_digits(t.day);
    let h = two_digits(t.hour);
    let mi = two_digits(t.minute);
    let se = fixed_digits(t.shown_second(), 2);
    lemma_fixed_digits_shape(t.year as nat, 4);
    lemma_fixed_digits_shape(t.month as nat, 2);
    lemma_fixed_digits_shape(t.day as nat, 2);
    lemma_fixed_digits_shape(t.hour as nat, 2);
    lemma_fixed_digits_shape(t.minute as nat, 2);
    lemma_fixed_digits_shape(t.shown_second(), 2);
    let s = timestamp_spec(t);
    assert(s =~= y + seq!['-'] + mo + seq!['-'] + d + seq![' '] + h + seq![':'] + mi + seq![':'] + se);
    assert forall|i: int| 0 <= i < 19 implies timestamp_char_ok(#[trigger] s[i], i) by {
        if i < 4 {
            assert(s[i] == y[i]);
        } else if i == 4 || i == 7 || i == 10 || i == 13 || i == 16 {
        } else if i < 7 {
            assert(s[i] == mo[i - 5]);
        } else if i < 10 {
            assert(s[i] == d[i - 8]);
        } else if i < 13 {
            assert(s[i] == h[i - 11]);
        } else if i < 16 {
            assert(s[i] == mi[i - 14]);
        } else {
            assert(s[i] == se[i - 17]);
        }
    }
}

/// The year rendering determines the year.
pub proof fn lemma_year_text_injective(a: i32, b: i32)
    requires
        year_text(a as int) == year_text(b as int),
    ensures
        a == b,
{
    lemma_pow10_four();
    let ya = year_text(a as int);
    let yb = year_text(b as int);
    let a_in = 0 <= a <= 9999;
    let b_in = 0 <= b <= 9999;
    if a_in && b_in {
        lemma_fixed_digits_injective(a as nat, b as nat, 4);
    } else if a_in || b_in {
        lemma_fixed_digits_shape(a as nat, 4);
        lemma_fixed_digits_shape(b as nat, 4);
        assert(ya[0] == yb[0]);
    } else {
        let ma: nat = if a < 0 {
            (-a) as nat
        } else {
            a as nat
        };
        let mb: nat = if b < 0 {
            (-b) as nat
        } else {
            b as nat
        };
        let ra = if ma < 10000 {
            fixed_digits(ma, 4)
        } else {
            decimal(ma)
        };
        let rb = if mb < 10000 {
            fixed_digits(mb, 4)
        } else {
            decimal(mb)
        };
        assert(ya[0] == yb[0]);
        assert(ra =~= ya.subrange(1, ya.len() as int));
        assert(rb =~= yb.subrange(1, yb.len() as int));
        assert(ra == rb);
        lemma_fixed_digits_shape(ma, 4);
        lemma_fixed_digits_shape(mb, 4);
        if ma < 10000 && mb < 10000 {
            lemma_fixed_digits_injective(ma, mb, 4);
        } else if ma >= 10000 && mb >= 10000 {
            lemma_decimal_injective(ma, mb);
        } else if ma >= 10000 {
            lemma_decimal_len_at_least(ma, 4);
        } else {
            lemma_decimal_len_at_least(mb, 4);
        }
    }
}

/// Two readings of the clock give the same file name exactly when they fall
/// in the same minute.
pub proof fn lemma_file_name_per_minute(t1: LocalTime, t2: LocalTime)
    requires
        t1.wf(),
        t2.wf(),
    ensures
        (file_name_spec(t1) == file_name_spec(t2)) <==> (t1.minute_bucket() == t2.minute_bucket()),
{
    if file_name_spec(t1) == file_name_spec(t2) {
        lemma_pow10_four();
        let f1 = file_name_spec(t1);
        let f2 = file_name_spec(t2);
        let y1 = year_text(t1.year as int);
        let y2 = year_text(t2.year as int);
        let rest1 = two_digits(t1.month) + two_digits(t1.day) + two_digits(t1.hour) + two_digits(
            t1.minute,
        );
        let rest2 = two_digits(t2.month) + two_digits(t2.day) + two_digits(t2.hour) + two_digits(
            t2.minute,
        );
        lemma_fixed_digits_shape(t1.month as nat, 2);
        lemma_fixed_digits_shape(t1.day as nat, 2);
        lemma_fixed_digits_shape(t1.hour as nat, 2);
        lemma_fixed_digits_shape(t1.minute as nat, 2);
        lemma_fixed_digits_shape(t2.month as nat, 2);
        lemma_fixed_digits_shape(t2.day as nat, 2);
        lemma_fixed_digits_shape(t2.hour as nat, 2);
        lemma_fixed_digits_shape(t2.minute as nat, 2);
        let pre = seq!['l', 'o', 'g', '_'];
        let suf = seq!['.', 't', 'x', 't'];
        assert(f1 =~= pre + (y1 + rest1) + suf);
        assert(f2 =~= pre + (y2 + rest2) + suf);
        assert(y1.len() == y2.len());
        assert(y1 =~= f1.subrange(4, 4 + y1.len() as int));
        assert(y2 =~= f2.subrange(4, 4 + y2.len() as int));
        lemma_year_text_injective(t1.year, t2.year);
        let base: int = 4 + y1.len() as int;
        assert(two_digits(t1.month) =~= f1.subrange(base, base + 2));
        assert(two_digits(t2.month) =~= f2.subrange(base, base + 2));
        assert(two_digits(t1.day) =~= f1.subrange(base + 2, base + 4));
        assert(two_digits(t2.day) =~= f2.subrange(base + 2, base + 4));
        assert(two_digits(t1.hour) =~= f1.subrange(base + 4, base + 6));
        assert(two_digits(t2.hour) =~= f2.subrange(base + 4, base + 6));
        assert(two_digits(t1.minute) =~= f1.subrange(base + 6, base + 8));
        assert(two_digits(t2.minute) =~= f2.subrange(base + 6, base + 8));
        lemma_fixed_digits_injective(t1.month as nat, t2.month as nat, 2);
        lemma_fixed_digits_injective(t1.day as nat, t2.day as nat, 2);
        lemma_fixed_digits_injective(t1.hour as nat, t2.hour as nat, 2);
        lemma_fixed_digits_injective(t1.minute as nat, t2.minute as nat, 2);
    }
}

/// `%Y-%m-%d %H:%M:%S`.
pub open spec fn timestamp_pattern() -> Seq<char> {
    seq!['%', 'Y', '-', '%', 'm', '-', '%', 'd', ' ', '%', 'H', ':', '%', 'M', ':', '%', 'S']
}

/// `log_%Y%m%d%H%M.txt`.
pub open spec fn file_name_pattern() -> Seq<char> {
    seq!['l', 'o', 'g', '_', '%', 'Y', '%', 'm', '%', 'd', '%', 'H', '%', 'M', '.', 't', 'x', 't']
}

/// Renders `t` with a chrono format string.
///
/// Relies on chrono's `NaiveDate::from_ymd_opt` and `and_hms_nano_opt`, which
/// succeed on a well-formed reading, and on `format`: `%Y` gives four
/// zero-padded digits for years 0 to 9999 and otherwise a sign and at least
/// four digits; `%m`, `%d`, `%H`, `%M` give two zero-padded digits; `%S`
/// gives the second plus one during a leap second, in two digits.
#[verifier::external_body]
fn chrono_format(t: &LocalTime, pattern: &str) -> (r: String)
    requires
        t.wf(),
        pattern@ == timestamp_pattern() || pattern@ == file_name_pattern(),
    ensures
        pattern@ == timestamp_pattern() ==> r@ == timestamp_spec(*t),
        pattern@ == file_name_pattern() ==> r@ == file_name_spec(*t),
{
    let date = chrono::NaiveDate::from_ymd_opt(t.year, t.month, t.day);
    match date.and_then(|d| d.and_hms_nano_opt(t.hour, t.minute, t.second, t.nanosecond)) {
        Some(dt) => dt.format(pattern).to_string(),
        None => String::new(),
    }
}

/// Renders `t` as `YYYY-MM-DD HH:MM:SS`.
pub fn timestamp_text(t: &LocalTime) -> (r: String)
    requires
        t.wf(),
    ensures
        r@ == timestamp_spec(*t),
{
    proof {
        reveal_strlit("%Y-%m-%d %H:%M:%S");
    }
    let pattern = "%Y-%m-%d %H:%M:%S";
    assert(pattern@ =~= timestamp_pattern());
    chrono_format(t, pattern)
}

/// The name of the log file opened at time `t`: `log_YYYYMMDDHHmm.txt`.
pub fn log_file_name(t: &LocalTime) -> (r: String)
    requires
        t.wf(),
    ensures
        r@ == file_name_spec(*t),
{
    proof {
        reveal_strlit("log_%Y%m%d%H%M.txt");
    }
    let pattern = "log_%Y%m%d%H%M.txt";
    assert(pattern@ =~= file_name_pattern());
    chrono_format(t, pattern)
}

} // verus!
