use vstd::prelude::*;
use vstd::string::StrSliceExecFns;
use vstd::string::StringExecFns;
use chrono::Datelike;
use chrono::Timelike;
use crate::logging::LogLevel;
use crate::logging::log_manager::LogMessage;

verus! {

// ---------------------------------------------------------------------------
// Wall-clock reading
// ---------------------------------------------------------------------------

/// One reading of the local wall clock, reduced to plain calendar and time
/// fields, plus the absolute nanosecond counter used for `${ticks}`.
#[derive(Clone, Copy, Debug)]
pub struct ClockTime {
    pub year: i32,
    pub month: u8,
    pub day: u8,
    pub hour: u8,
    pub minute: u8,
    pub second: u8,
    /// Milliseconds past the whole second; may reach 1999 on a leap second.
    pub millis: u16,
    /// Nanoseconds since the Unix epoch; 0 when the instant has no such
    /// representation.
    pub ticks: i64,
}

impl ClockTime {
    pub open spec fn wf(self) -> bool {
        &&& 1 <= self.month <= 12
        &&& 1 <= self.day <= 31
        &&& self.hour <= 23
        &&& self.minute <= 59
        &&& self.second <= 59
        &&& self.millis <= 1999
    }
}

/// Relies on chrono: `Local::now` for the current instant, the `Datelike` and
/// `Timelike` accessors for the calendar and time fields (documented ranges:
/// month 1-12, day 1-31, hour 0-23, minute 0-59, second 0-59),
/// `timestamp_subsec_millis` (0-1999; above 999 only on a leap second) and
/// `timestamp_nanos_opt` (None only for instants outside the i64 range).
#[verifier::external_body]
pub fn clock_now() -> (r: ClockTime)
    ensures
        r.wf(),
{
    let now = chrono::Local::now();
    ClockTime {
        year: now.year(),
        month: now.month() as u8,
        day: now.day() as u8,
        hour: now.hour() as u8,
        minute: now.minute() as u8,
        second: now.second() as u8,
        millis: now.timestamp_subsec_millis() as u16,
        ticks: now.timestamp_nanos_opt().unwrap_or(0),
    }
}

// ---------------------------------------------------------------------------
// Token replacement
// ---------------------------------------------------------------------------

/// Replacement of every non-overlapping occurrence of `from` in `s` by `to`,
/// scanning left to right. Replacement text is never re-scanned, so token
/// expansion is non-recursive. An empty `from` leaves `s` unchanged.
pub open spec fn spec_replace(s: Seq<char>, from: Seq<char>, to: Seq<char>) -> Seq<char>
    decreases s.len(),
{
    if from.len() == 0 || s.len() < from.len() {
        s
    } else if s.subrange(0, from.len() as int) == from {
        to + spec_replace(s.skip(from.len() as int), from, to)
    } else {
        seq![s[0]] + spec_replace(s.skip(1), from, to)
    }
}

/// Whether `from` occurs in `s` starting at position `i`.
fn matches_at(s: &str, from: &str, i: usize) -> (r: bool)
    requires
        i + from@.len() <= s@.len(),
        s@.len() <= usize::MAX,
    ensures
        r == (s@.subrange(i as int, i + from@.len()) == from@),
{
    let m = from.unicode_len();
    let mut j: usize = 0;
    while j < m
        invariant
            m == from@.len(),
            i + m <= s@.len(),
            s@.len() <= usize::MAX,
            j <= m,
            forall|k: int| 0 <= k < j ==> s@[i + k] == from@[k],
        decreases m - j,
    {
        if s.get_char(i + j) != from.get_char(j) {
            proof {
                assert(s@.subrange(i as int, i + from@.len())[j as int] == s@[i + j]);
            }
            return false;
        }
        j += 1;
    }
    proof {
        assert(s@.subrange(i as int, i + from@.len()) =~= from@);
    }
    true
}

/// Replaces every occurrence of `from` in `s` by `to`, left to right,
/// without re-scanning replacement text.
pub fn replace(s: &str, from: &str, to: &str) -> (r: String)
    requires
        from@.len() >= 1,
    ensures
        r@ == spec_replace(s@, from@, to@),
{
    let n = s.unicode_len();
    let m = from.unicode_len();
    let mut out = String::new();
    let mut i: usize = 0;
    proof {
        assert(s@.skip(0) =~= s@);
        assert(out@ + spec_replace(s@, from@, to@) =~= spec_replace(s@, from@, to@));
    }
    while i < n
        invariant
            n == s@.len(),
            m == from@.len(),
            m >= 1,
            i <= n,
            spec_replace(s@, from@, to@) == out@ + spec_replace(s@.skip(i as int), from@, to@),
        decreases n - i,
    {
        let ghost rest = s@.skip(i as int);
        if m <= n - i && matches_at(s, from, i) {
            out.append(to);
            proof {
                assert(rest.subrange(0, m as int) =~= s@.subrange(i as int, i + m as int));
                assert(rest.skip(m as int) =~= s@.skip(i + m as int));
                assert(spec_replace(rest, from@, to@) == to@ + spec_replace(
                    s@.skip(i + m as int),
                    from@,
                    to@,
                ));
                assert(spec_replace(s@, from@, to@) == out@ + spec_replace(
                    s@.skip(i + m as int),
                    from@,
                    to@,
                ));
            }
            i += m;
        } else {
            let one = s.substring_char(i, i + 1);
            out.append(one);
            proof {
                assert(one@ =~= seq![s@[i as int]]);
                if rest.len() < m {
                    // Too little input is left for a match; the tail is kept as it is.
                    assert(spec_replace(rest, from@, to@) == rest);
                    assert(rest =~= seq![s@[i as int]] + s@.skip(i + 1));
                    assert(spec_replace(s@.skip(i + 1), from@, to@) == s@.skip(i + 1));
                } else {
                    assert(rest.subrange(0, m as int) =~= s@.subrange(i as int, i + m as int));
                    assert(rest.subrange(0, m as int) != from@);
                    assert(rest[0] == s@[i as int]);
                    assert(rest.skip(1) =~= s@.skip(i + 1));
                    assert(spec_replace(rest, from@, to@) == seq![s@[i as int]] + spec_replace(
                        s@.skip(i + 1),
                        from@,
                        to@,
                    ));
                }
                assert(spec_replace(s@, from@, to@) == out@ + spec_replace(
                    s@.skip(i + 1),
                    from@,
                    to@,
                ));
            }
            i += 1;
        }
    }
    proof {
        assert(s@.skip(n as int) =~= Seq::<char>::empty());
        assert(spec_replace(s@, from@, to@) =~= out@);
    }
    out
}

// ---------------------------------------------------------------------------
// Decimal rendering
// ---------------------------------------------------------------------------

/// The character for one decimal digit.
pub open spec fn spec_digit(d: int) -> char {
    if d == 0 {
        '0'
    } else if d == 1 {
        '1'
    } else if d == 2 {
        '2'
    } else if d == 3 {
        '3'
    } else if d == 4 {
        '4'
    } else if d == 5 {
        '5'
    } else if d == 6 {
        '6'
    } else if d == 7 {
        '7'
    } else if d == 8 {
        '8'
    } else {
        '9'
    }
}

/// Decimal digits of `n`, most significant first, without a sign
/// and without leading zeros (a single `0` for zero).
pub open spec fn spec_dec_nat(n: nat) -> Seq<char>
    decreases n,
{
    if n < 10 {
        seq![spec_digit(n as int)]
    } else {
        spec_dec_nat(n / 10) + seq![spec_digit((n % 10) as int)]
    }
}

/// Decimal digits of `n` with a leading `-` when `n` is negative.
pub open spec fn spec_dec_int(n: int) -> Seq<char> {
    if n < 0 {
        seq!['-'] + spec_dec_nat((-n) as nat)
    } else {
        spec_dec_nat(n as nat)
    }
}

fn digit_str(d: u8) -> (r: &'static str)
    requires
        d < 10,
    ensures
        r@ == seq![spec_digit(d as int)],
{
    let r = if d == 0 {
        proof {
            reveal_strlit("0");
        }
        "0"
    } else if d == 1 {
        proof {
            reveal_strlit("1");
        }
        "1"
    } else if d == 2 {
        proof {
            reveal_strlit("2");
        }
        "2"
    } else if d == 3 {
        proof {
            reveal_strlit("3");
        }
        "3"
    } else if d == 4 {
        proof {
            reveal_strlit("4");
        }
        "4"
    } else if d == 5 {
        proof {
            reveal_strlit("5");
        }
        "5"
    } else if d == 6 {
        proof {
            reveal_strlit("6");
        }
        "6"
    } else if d == 7 {
        proof {
            reveal_strlit("7");
        }
        "7"
    } else if d == 8 {
        proof {
            reveal_strlit("8");
        }
        "8"
    } else {
        proof {
            reveal_strlit("9");
        }
        "9"
    };
    proof {
        assert(r@ =~= seq![spec_digit(d as int)]);
    }
    r
}

/// Renders `n` in decimal.
pub fn dec_u64(n: u64) -> (r: String)
    ensures
        r@ == spec_dec_nat(n as nat),
    decreases n,
{
    if n < 10 {
        String::from_str(digit_str(n as u8))
    } else {
        let mut r = dec_u64(n / 10);
        r.append(digit_str((n % 10) as u8));
        proof {
            assert(r@ =~= spec_dec_nat(n as nat));
        }
        r
    }
}

/// Renders `n` in decimal, with a sign when negative.
pub fn dec_i64(n: i64) -> (r: String)
    ensures
        r@ == spec_dec_int(n as int),
{
    if n >= 0 {
        dec_u64(n as u64)
    } else {
        // `-(n + 1) + 1` avoids the overflow of negating i64::MIN directly.
        let mag: u64 = ((-(n + 1)) as u64) + 1;
        proof {
            reveal_strlit("-");
        }
        let mut r = String::from_str("-");
        let digits = dec_u64(mag);
        r.append(digits.as_str());
        proof {
            assert("-"@ =~= seq!['-']);
            assert(mag as int == -(n as int));
            assert(r@ =~= spec_dec_int(n as int));
        }
        r
    }
}

/// `s` padded on the left with `0` up to width `w`.
pub open spec fn spec_zero_pad(s: Seq<char>, w: nat) -> Seq<char> {
    if s.len() >= w {
        s
    } else {
        Seq::new((w - s.len()) as nat, |i: int| '0') + s
    }
}

/// Decimal rendering of `n`, zero-padded on the left to width `w`.
pub open spec fn spec_dec_padded(n: nat, w: nat) -> Seq<char> {
    spec_zero_pad(spec_dec_nat(n), w)
}

/// Renders `n` in decimal, zero-padded on the left to width `w`.
pub fn dec_padded(n: u64, w: usize) -> (r: String)
    ensures
        r@ == spec_dec_padded(n as nat, w as nat),
{
    let digits = dec_u64(n);
    let len = digits.as_str().unicode_len();
    if len >= w {
        return digits;
    }
    let mut out = String::new();
    let mut k: usize = 0;
    while k < w - len
        invariant
            len == digits@.len(),
            len < w,
            k <= w - len,
            out@ == Seq::new(k as nat, |i: int| '0'),
        decreases w - len - k,
    {
        proof {
            reveal_strlit("0");
        }
        out.append("0");
        proof {
            assert("0"@ =~= seq!['0']);
            assert(out@ =~= Seq::new((k + 1) as nat, |i: int| '0'));
        }
        k += 1;
    }
    out.append(digits.as_str());
    proof {
        assert(out@ =~= spec_dec_padded(n as nat, w as nat));
    }
    out
}

// ---------------------------------------------------------------------------
// Date and time rendering
// ---------------------------------------------------------------------------

/// The year as decimal digits, zero-padded to four, with a sign when negative.
pub open spec fn spec_year_digits(y: int) -> Seq<char> {
    if y < 0 {
        seq!['-'] + spec_dec_padded((-y) as nat, 4)
    } else {
        spec_dec_padded(y as nat, 4)
    }
}

fn year_digits(y: i32) -> (r: String)
    ensures
        r@ == spec_year_digits(y as int),
{
    if y >= 0 {
        dec_padded(y as u64, 4)
    } else {
        let mag: u64 = ((-(y + 1)) as u64) + 1;
        proof {
            reveal_strlit("-");
        }
        let mut r = String::from_str("-");
        let digits = dec_padded(mag, 4);
        r.append(digits.as_str());
        proof {
            assert("-"@ =~= seq!['-']);
            assert(mag as int == -(y as int));
        }
        r
    }
}

/// The date of `c`: `YYYY-MM-DD`.
pub open spec fn spec_shortdate(c: ClockTime) -> Seq<char> {
    spec_year_digits(c.year as int) + "-"@ + spec_dec_padded(c.month as nat, 2) + "-"@
        + spec_dec_padded(c.day as nat, 2)
}

/// The time of day of `c`: `HH:MM:SS.mmm`.
pub open spec fn spec_time_of_day(c: ClockTime) -> Seq<char> {
    spec_dec_padded(c.hour as nat, 2) + ":"@ + spec_dec_padded(c.minute as nat, 2) + ":"@
        + spec_dec_padded(c.second as nat, 2) + "."@ + spec_dec_padded((c.millis % 1000) as nat, 3)
}

/// Date and time of `c`: `YYYY-MM-DD HH:MM:SS.mmm`.
pub open spec fn spec_longdate(c: ClockTime) -> Seq<char> {
    spec_shortdate(c) + " "@ + spec_time_of_day(c)
}

fn render_shortdate(c: &ClockTime) -> (r: String)
    ensures
        r@ == spec_shortdate(*c),
{
    let mut r = year_digits(c.year);
    r.append("-");
    let mm = dec_padded(c.month as u64, 2);
    r.append(mm.as_str());
    r.append("-");
    let dd = dec_padded(c.day as u64, 2);
    r.append(dd.as_str());
    r
}

fn render_time_of_day(c: &ClockTime) -> (r: String)
    ensures
        r@ == spec_time_of_day(*c),
{
    let mut r = dec_padded(c.hour as u64, 2);
    r.append(":");
    let mi = dec_padded(c.minute as u64, 2);
    r.append(mi.as_str());
    r.append(":");
    let ss = dec_padded(c.second as u64, 2);
    r.append(ss.as_str());
    r.append(".");
    let ms = dec_padded((c.millis % 1000) as u64, 3);
    r.append(ms.as_str());
    r
}

fn render_longdate(c: &ClockTime) -> (r: String)
    ensures
        r@ == spec_longdate(*c),
{
    let mut r = render_shortdate(c);
    r.append(" ");
    let t = render_time_of_day(c);
    r.append(t.as_str());
    r
}

// ---------------------------------------------------------------------------
// Message formatting
// ---------------------------------------------------------------------------

/// The format template a console target starts with.
pub open spec fn spec_default_format() -> Seq<char> {
    "${longdate} [${level}] ${message}"@
}

pub fn default_format() -> (r: &'static str)
    ensures
        r@ == spec_default_format(),
{
    "${longdate} [${level}] ${message}"
}

/// The rendering of `fmt` for a message of level `level` and text `text`
/// at clock reading `c`: the six tokens are substituted in a fixed order,
/// each scanning only the text the previous step produced, so replacement
/// text is expanded at most once and never recursively.
pub open spec fn spec_format_message(
    fmt: Seq<char>,
    level: LogLevel,
    text: Seq<char>,
    c: ClockTime,
) -> Seq<char> {
    spec_replace(
        spec_replace(
            spec_replace(
                spec_replace(
                    spec_replace(
                        spec_replace(fmt, "${longdate}"@, spec_longdate(c)),
                        "${shortdate}"@,
                        spec_shortdate(c),
                    ),
                    "${time}"@,
                    spec_time_of_day(c),
                ),
                "${ticks}"@,
                spec_dec_int(c.ticks as int),
            ),
            "${level}"@,
            level.spec_name(),
        ),
        "${message}"@,
        text,
    )
}

/// Renders `message` through the template `format`, reading the clock once.
pub fn format_message(format: &str, message: &LogMessage) -> (r: String)
    ensures
        exists|c: ClockTime|
            c.wf() && r@ == spec_format_message(format@, message.level, message.message@, c),
{
    let c = clock_now();
    proof {
        reveal_strlit("${longdate}");
        reveal_strlit("${shortdate}");
        reveal_strlit("${time}");
        reveal_strlit("${ticks}");
        reveal_strlit("${level}");
        reveal_strlit("${message}");
    }
    let ld = render_longdate(&c);
    let r1 = replace(format, "${longdate}", ld.as_str());
    let sd = render_shortdate(&c);
    let r2 = replace(r1.as_str(), "${shortdate}", sd.as_str());
    let td = render_time_of_day(&c);
    let r3 = replace(r2.as_str(), "${time}", td.as_str());
    let tk = dec_i64(c.ticks);
    let r4 = replace(r3.as_str(), "${ticks}", tk.as_str());
    let r5 = replace(r4.as_str(), "${level}", message.level.as_str());
    let r6 = replace(r5.as_str(), "${message}", message.message.as_str());
    proof {
        assert(r6@ == spec_format_message(format@, message.level, message.message@, c));
    }
    r6
}

} // verus!
