use vstd::prelude::*;
use crate::models::{Offset, TimeQuality, duplicate_quality, has_nonzero_digit};
use crate::text::{
    contains, contains_spec, find_char, find_space, index_of, lemma_index_of,
    space_index, starts_with, starts_with_spec, trim, trim_spec,
};

verus! {

/// The leftmost match of `[-+]?\d+\.?\d*` in a string, if any.
pub uninterp spec fn first_decimal_match(s: Seq<char>) -> Option<Seq<char>>;

/// Relies on regex::Regex::captures: the text of the leftmost match of the
/// decimal-number pattern, which is never empty.
#[verifier::external_body]
fn first_decimal(s: &str) -> (r: Option<String>)
    ensures
        match r {
            Some(m) => first_decimal_match(s@) == Some(m@) && m@.len() > 0,
            None => first_decimal_match(s@) is None,
        },
{
    let re = regex::Regex::new(r"([-+]?\d+\.?\d*)").ok()?;
    re.captures(s).and_then(|c| c.get(1)).map(|m| m.as_str().to_string())
}

/// Field values gathered from a report: stratum, offset (negative flag and
/// magnitude), reference identifier, leap status.
pub type ReportModel = (Option<u8>, Option<(bool, Seq<char>)>, Option<Seq<char>>, Option<Seq<char>>);

/// A complete set of report fields.
pub type QualityModel = (u8, (bool, Seq<char>), Seq<char>, Seq<char>);

/// The trimmed text after the first colon.
pub open spec fn colon_value(t: Seq<char>) -> Option<Seq<char>> {
    let i = index_of(t, ':');
    if i < t.len() {
        Some(trim_spec(t.subrange(i + 1int, t.len() as int)))
    } else {
        None
    }
}

pub open spec fn is_digit(c: char) -> bool {
    '0' <= c && c <= '9'
}

pub open spec fn digits_value(d: Seq<char>) -> int
    decreases d.len(),
{
    if d.len() == 0 {
        0
    } else {
        digits_value(d.drop_last()) * 10 + (d.last() as int - '0' as int)
    }
}

pub open spec fn all_digits(d: Seq<char>) -> bool {
    forall|i: int| 0 <= i < d.len() ==> is_digit(#[trigger] d[i])
}

/// `v` without a leading `+`.
pub open spec fn unsigned_part(v: Seq<char>) -> Seq<char> {
    if v.len() > 0 && v[0] == '+' {
        v.drop_first()
    } else {
        v
    }
}

/// An unsigned 8-bit decimal: an optional `+`, then digits, at most 255.
pub open spec fn parse_u8_spec(v: Seq<char>) -> Option<u8> {
    let d = unsigned_part(v);
    if d.len() > 0 && all_digits(d) && digits_value(d) <= 255 {
        Some(digits_value(d) as u8)
    } else {
        None
    }
}

/// The parenthesized token of a value when it has one, else its first
/// whitespace-delimited token.
pub open spec fn reference_spec(v: Seq<char>) -> Option<Seq<char>> {
    let o = index_of(v, '(');
    let after = v.subrange(o + 1int, v.len() as int);
    if o < v.len() && index_of(after, ')') < after.len() {
        Some(after.subrange(0, index_of(after, ')') as int))
    } else if space_index(v) > 0 {
        Some(v.subrange(0, space_index(v) as int))
    } else {
        None
    }
}

/// The offset given by the number `m` found in the value `v`: the sign of
/// `m`, flipped when `v` says the clock is slow, and `m` without its sign.
pub open spec fn signed_offset_spec(m: Seq<char>, v: Seq<char>) -> (bool, Seq<char>) {
    let signed = m.len() > 0 && (m[0] == '-' || m[0] == '+');
    let magnitude = if signed { m.drop_first() } else { m };
    ((m.len() > 0 && m[0] == '-') != contains_spec(v, "slow"@), magnitude)
}

/// A numeral of ASCII digits, points and signs only.
pub open spec fn ascii_numeral(m: Seq<char>) -> bool {
    forall|i: int|
        0 <= i < m.len() ==> is_digit(#[trigger] m[i]) || m[i] == '.' || m[i] == '+' || m[i] == '-'
}

/// The offset read from a number found in a value: unreadable unless the
/// number is written in ASCII.
pub open spec fn read_offset_spec(m: Seq<char>, v: Seq<char>) -> Option<(bool, Seq<char>)> {
    if ascii_numeral(m) {
        Some(signed_offset_spec(m, v))
    } else {
        None
    }
}

/// The signed offset in a value: the first decimal number, negated when the
/// value says the clock is slow.
pub open spec fn offset_spec(v: Seq<char>) -> Option<(bool, Seq<char>)> {
    match first_decimal_match(v) {
        Some(m) => read_offset_spec(m, v),
        None => None,
    }
}

/// The effect of one report line on the fields gathered so far.
pub open spec fn line_step(acc: ReportModel, line: Seq<char>) -> ReportModel {
    let t = trim_spec(line);
    if starts_with_spec(t, "Stratum"@) {
        match colon_value(t) {
            Some(v) => (parse_u8_spec(v), acc.1, acc.2, acc.3),
            None => acc,
        }
    } else if starts_with_spec(t, "Reference ID"@) {
        match colon_value(t) {
            Some(v) => (acc.0, acc.1, reference_spec(v), acc.3),
            None => acc,
        }
    } else if starts_with_spec(t, "System time"@) {
        match colon_value(t) {
            Some(v) => match first_decimal_match(v) {
                Some(m) => (acc.0, read_offset_spec(m, v), acc.2, acc.3),
                None => acc,
            },
            None => acc,
        }
    } else if starts_with_spec(t, "Leap status"@) {
        match colon_value(t) {
            Some(v) => (acc.0, acc.1, acc.2, Some(v)),
            None => acc,
        }
    } else {
        acc
    }
}

/// Folds `line_step` over the newline-separated lines of `s`.
pub open spec fn scan_lines(acc: ReportModel, s: Seq<char>) -> ReportModel
    decreases s.len(),
{
    let k = index_of(s, '\n');
    if k < s.len() {
        scan_lines(line_step(acc, s.subrange(0, k as int)), s.subrange(k + 1int, s.len() as int))
    } else {
        line_step(acc, s)
    }
}

pub open spec fn report_fields(s: Seq<char>) -> ReportModel {
    scan_lines((None, None, None, None), s)
}

/// The quality a report gives: present exactly when all four fields are.
pub open spec fn parse_spec(s: Seq<char>) -> Option<QualityModel> {
    let f = report_fields(s);
    if f.0 is Some && f.1 is Some && f.2 is Some && f.3 is Some {
        Some((f.0->0, f.1->0, f.2->0, f.3->0))
    } else {
        None
    }
}

impl TimeQuality {
    pub open spec fn model(&self) -> QualityModel {
        (
            self.stratum,
            (self.offset_seconds.negative, self.offset_seconds.magnitude@),
            self.reference_id@,
            self.leap_status@,
        )
    }
}

pub open spec fn quality_model(q: Option<TimeQuality>) -> Option<QualityModel> {
    match q {
        Some(v) => Some(v.model()),
        None => None,
    }
}

/// Fields gathered while reading a report.
struct ReportFields {
    stratum: Option<u8>,
    offset: Option<Offset>,
    reference_id: Option<String>,
    leap_status: Option<String>,
}

impl ReportFields {
    spec fn view(&self) -> ReportModel {
        (
            self.stratum,
            match self.offset {
                Some(o) => Some((o.negative, o.magnitude@)),
                None => None,
            },
            match self.reference_id {
                Some(s) => Some(s@),
                None => None,
            },
            match self.leap_status {
                Some(s) => Some(s@),
                None => None,
            },
        )
    }

    fn absorb_line(&mut self, line: &str)
        ensures
            final(self).view() == line_step(old(self).view(), line@),
    {
        let t = trim(line);
        if starts_with(t, "Stratum") {
            if let Some(v) = extract_value(t) {
                self.stratum = parse_u8(v);
            }
        } else if starts_with(t, "Reference ID") {
            if let Some(v) = extract_value(t) {
                self.reference_id = reference_token(v);
            }
        } else if starts_with(t, "System time") {
            if let Some(v) = extract_value(t) {
                if let Some(o) = offset_from(v) {
                    self.offset = o;
                }
            }
        } else if starts_with(t, "Leap status") {
            if let Some(v) = extract_value(t) {
                self.leap_status = Some(v.to_owned());
            }
        }
    }
}

/// The trimmed text after the first colon of a line.
pub fn extract_value(line: &str) -> (r: Option<&str>)
    ensures
        match r {
            Some(v) => colon_value(line@) == Some(v@),
            None => colon_value(line@) is None,
        },
{
    let n = line.unicode_len();
    let i = find_char(line, ':');
    if i >= n {
        return None;
    }
    Some(trim(line.substring_char(i + 1, n)))
}

/// Reads an unsigned 8-bit decimal.
pub fn parse_u8(v: &str) -> (r: Option<u8>)
    ensures
        r == parse_u8_spec(v@),
{
    let n = v.unicode_len();
    let d = if n > 0 && v.get_char(0) == '+' {
        v.substring_char(1, n)
    } else {
        v.substring_char(0, n)
    };
    proof {
        if n > 0 && v@[0] == '+' {
            assert(v@.subrange(1, n as int) =~= v@.drop_first());
        } else {
            assert(v@.subrange(0, n as int) =~= v@);
        }
    }
    let ghost dd = unsigned_part(v@);
    assert(d@ == dd);
    let m = d.unicode_len();
    if m == 0 {
        return None;
    }
    let mut acc: u32 = 0;
    let mut i: usize = 0;
    while i < m
        invariant
            m == d@.len(),
            d@ == dd,
            dd == unsigned_part(v@),
            i <= m,
            forall|j: int| 0 <= j < i ==> is_digit(#[trigger] d@[j]),
            acc as int == if digits_value(d@.subrange(0, i as int)) < 256 {
                digits_value(d@.subrange(0, i as int))
            } else {
                256
            },
            digits_value(d@.subrange(0, i as int)) >= 0,
        decreases m - i,
    {
        let c = d.get_char(i);
        if !('0' <= c && c <= '9') {
            assert(!is_digit(dd[i as int]));
            return None;
        }
        let digit = (c as u32) - ('0' as u32);
        proof {
            let p = d@.subrange(0, i + 1);
            assert(p.drop_last() =~= d@.subrange(0, i as int));
            assert(p.last() == c);
        }
        acc = if acc >= 256 { 256 } else if acc * 10 + digit >= 256 { 256 } else { acc * 10 + digit };
        i = i + 1;
    }
    assert(d@.subrange(0, m as int) =~= d@);
    if acc <= 255 {
        Some(acc as u8)
    } else {
        None
    }
}

/// The parenthesized token of a value, else its first whitespace-delimited
/// token.
pub fn reference_token(v: &str) -> (r: Option<String>)
    ensures
        match r {
            Some(s) => reference_spec(v@) == Some(s@),
            None => reference_spec(v@) is None,
        },
{
    let n = v.unicode_len();
    let o = find_char(v, '(');
    if o < n {
        let after = v.substring_char(o + 1, n);
        let c = find_char(after, ')');
        if c < after.unicode_len() {
            return Some(after.substring_char(0, c).to_owned());
        }
    }
    let k = find_space(v);
    if k > 0 {
        Some(v.substring_char(0, k).to_owned())
    } else {
        None
    }
}

/// The offset given by the number found in a value.
pub fn signed_offset(number: &str, value: &str) -> (r: Offset)
    ensures
        (r.negative, r.magnitude@) == signed_offset_spec(number@, value@),
{
    let len = number.unicode_len();
    let minus = len > 0 && number.get_char(0) == '-';
    let signed = len > 0 && (number.get_char(0) == '-' || number.get_char(0) == '+');
    let magnitude = if signed {
        number.substring_char(1, len).to_owned()
    } else {
        number.substring_char(0, len).to_owned()
    };
    proof {
        assert(number@.subrange(0, len as int) =~= number@);
        if len > 0 {
            assert(number@.subrange(1, len as int) =~= number@.drop_first());
        }
    }
    let slow = contains(value, "slow");
    Offset { negative: minus != slow, magnitude }
}

/// Whether a numeral is written with ASCII digits, points and signs only.
pub fn is_ascii_numeral(m: &str) -> (r: bool)
    ensures
        r == ascii_numeral(m@),
{
    let n = m.unicode_len();
    let mut i: usize = 0;
    while i < n
        invariant
            n == m@.len(),
            i <= n,
            forall|j: int|
                0 <= j < i ==> is_digit(#[trigger] m@[j]) || m@[j] == '.' || m@[j] == '+' || m@[j]
                    == '-',
        decreases n - i,
    {
        let c = m.get_char(i);
        if !(('0' <= c && c <= '9') || c == '.' || c == '+' || c == '-') {
            assert(!(is_digit(m@[i as int]) || m@[i as int] == '.' || m@[i as int] == '+'
                || m@[i as int] == '-'));
            return false;
        }
        i = i + 1;
    }
    true
}

/// The offset in a value: `None` when the value holds no decimal number,
/// else the offset read from the number, unreadable unless it is ASCII.
pub fn offset_from(v: &str) -> (r: Option<Option<Offset>>)
    ensures
        match first_decimal_match(v@) {
            Some(m) => r is Some && match r->0 {
                Some(o) => read_offset_spec(m, v@) == Some((o.negative, o.magnitude@)),
                None => read_offset_spec(m, v@) is None,
            },
            None => r is None,
        },
{
    let m = first_decimal(v)?;
    if is_ascii_numeral(m.as_str()) {
        Some(Some(signed_offset(m.as_str(), v)))
    } else {
        Some(None)
    }
}

impl ChronyTracker {
    /// Parses the status report of the synchronization daemon. The quality is
    /// present only when the report gives all four fields.
    pub fn parse_chrony_output(output: &str) -> (r: Option<TimeQuality>)
        ensures
            quality_model(r) == parse_spec(output@),
    {
        let mut fields = ReportFields {
            stratum: None,
            offset: None,
            reference_id: None,
            leap_status: None,
        };
        let mut rest: &str = output;
        loop
            invariant_except_break
                report_fields(output@) == scan_lines(fields.view(), rest@),
            ensures
                report_fields(output@) == fields.view(),
            decreases rest@.len(),
        {
            let n = rest.unicode_len();
            let k = find_char(rest, '\n');
            let line = rest.substring_char(0, k);
            fields.absorb_line(line);
            if k >= n {
                assert(line@ =~= rest@);
                break;
            }
            rest = rest.substring_char(k + 1, n);
        }
        match (fields.stratum, fields.offset, fields.reference_id, fields.leap_status) {
            (Some(stratum), Some(offset_seconds), Some(reference_id), Some(leap_status)) => {
                Some(TimeQuality { stratum, offset_seconds, reference_id, leap_status })
            },
            _ => None,
        }
    }
}

/// A report yields a quality exactly when it gives all four fields, and the
/// quality then holds the values gathered from the report.
pub proof fn parse_all_or_nothing(s: Seq<char>)
    ensures
        parse_spec(s) is Some <==> {
            let f = report_fields(s);
            f.0 is Some && f.1 is Some && f.2 is Some && f.3 is Some
        },
        parse_spec(s) is Some ==> {
            let f = report_fields(s);
            parse_spec(s)->0 == (f.0->0, f.1->0, f.2->0, f.3->0)
        },
{
}

/// Reading a line that holds no newline and then the rest of a report is
/// reading the report.
pub proof fn lemma_scan_cons(acc: ReportModel, line: Seq<char>, rest: Seq<char>)
    requires
        forall|i: int| 0 <= i < line.len() ==> #[trigger] line[i] != '\n',
    ensures
        scan_lines(acc, line + seq!['\n'] + rest) == scan_lines(line_step(acc, line), rest),
{
    let s = line + seq!['\n'] + rest;
    lemma_index_of(s, '\n', line.len() as int);
    assert(s.subrange(0, line.len() as int) =~= line);
    assert(s.subrange(line.len() + 1int, s.len() as int) =~= rest);
}

/// A report that is one line reads as that line.
pub proof fn lemma_scan_last(acc: ReportModel, line: Seq<char>)
    requires
        forall|i: int| 0 <= i < line.len() ==> #[trigger] line[i] != '\n',
    ensures
        scan_lines(acc, line) == line_step(acc, line),
{
    lemma_index_of(line, '\n', line.len() as int);
}

pub open spec fn has_no_newline(l: Seq<char>) -> bool {
    forall|i: int| 0 <= i < l.len() ==> #[trigger] l[i] != '\n'
}

/// A report made of a stratum line, a reference line, a system-time line
/// and a leap-status line, in that order, each readable, gives a quality
/// holding exactly the values read from those lines.
pub proof fn parse_four_line_report(
    l1: Seq<char>,
    l2: Seq<char>,
    l3: Seq<char>,
    l4: Seq<char>,
    v1: Seq<char>,
    v2: Seq<char>,
    v3: Seq<char>,
    v4: Seq<char>,
    number: Seq<char>,
)
    requires
        has_no_newline(l1),
        has_no_newline(l2),
        has_no_newline(l3),
        has_no_newline(l4),
        starts_with_spec(trim_spec(l1), "Stratum"@),
        starts_with_spec(trim_spec(l2), "Reference ID"@),
        starts_with_spec(trim_spec(l3), "System time"@),
        starts_with_spec(trim_spec(l4), "Leap status"@),
        colon_value(trim_spec(l1)) == Some(v1),
        colon_value(trim_spec(l2)) == Some(v2),
        colon_value(trim_spec(l3)) == Some(v3),
        colon_value(trim_spec(l4)) == Some(v4),
        parse_u8_spec(v1) is Some,
        reference_spec(v2) is Some,
        first_decimal_match(v3) == Some(number),
        ascii_numeral(number),
    ensures
        parse_spec(l1 + seq!['\n'] + l2 + seq!['\n'] + l3 + seq!['\n'] + l4) == Some(
            (
                parse_u8_spec(v1)->0,
                signed_offset_spec(number, v3),
                reference_spec(v2)->0,
                v4,
            ),
        ),
{
    reveal_strlit("Stratum");
    reveal_strlit("Reference ID");
    reveal_strlit("System time");
    reveal_strlit("Leap status");
    let (t1, t2, t3, t4) = (trim_spec(l1), trim_spec(l2), trim_spec(l3), trim_spec(l4));
    assert(t2.subrange(0, 12)[0] == t2[0]);
    assert(t3.subrange(0, 11)[1] == t3[1]);
    assert(t4.subrange(0, 11)[0] == t4[0]);
    if t2.len() >= 7 {
        assert(t2.subrange(0, 7)[0] == t2[0]);
    }
    if t3.len() >= 12 {
        assert(t3.subrange(0, 12)[0] == t3[0]);
    }
    assert(t3.subrange(0, 7)[1] == t3[1]);
    if t4.len() >= 12 {
        assert(t4.subrange(0, 12)[0] == t4[0]);
    }
    assert(t4.subrange(0, 7)[0] == t4[0]);
    assert(t4.subrange(0, 11)[0] == t4[0]);
    let a0: ReportModel = (None, None, None, None);
    let a1 = line_step(a0, l1);
    let a2 = line_step(a1, l2);
    let a3 = line_step(a2, l3);
    let a4 = line_step(a3, l4);
    let r3 = l3 + seq!['\n'] + l4;
    let r2 = l2 + seq!['\n'] + r3;
    let whole = l1 + seq!['\n'] + l2 + seq!['\n'] + l3 + seq!['\n'] + l4;
    assert(whole =~= l1 + seq!['\n'] + r2);
    lemma_scan_cons(a0, l1, r2);
    lemma_scan_cons(a1, l2, r3);
    lemma_scan_cons(a2, l3, l4);
    lemma_scan_last(a3, l4);
}

/// For the same unsigned, nonzero number, a value that says the clock is
/// slow gives a negative offset and one that does not gives a positive one.
pub proof fn offset_sign_law(slow_value: Seq<char>, fast_value: Seq<char>, number: Seq<char>)
    requires
        first_decimal_match(slow_value) == Some(number),
        first_decimal_match(fast_value) == Some(number),
        number.len() > 0,
        is_digit(number[0]),
        ascii_numeral(number),
        has_nonzero_digit(number),
        contains_spec(slow_value, "slow"@),
        !contains_spec(fast_value, "slow"@),
    ensures
        offset_spec(slow_value) == Some((true, number)),
        offset_spec(fast_value) == Some((false, number)),
{
}

/// How long a cached outcome is served, in milliseconds.
pub const CACHE_TTL_MS: u64 = 250;

/// Chrony quality tracker: the latest outcome of a daemon query and when it
/// was taken. Queries themselves are made by the caller.
pub struct ChronyTracker {
    pub entry: Option<CachedQuality>,
}

/// One cached outcome of a daemon query.
pub struct CachedQuality {
    pub quality: Option<TimeQuality>,
    /// Monotonic capture time, in milliseconds.
    pub captured_at_ms: u64,
}

/// Milliseconds from `from` to `to`, zero when `to` is earlier.
pub open spec fn elapsed_ms(from: u64, to: u64) -> int {
    if to >= from {
        to - from
    } else {
        0
    }
}

impl ChronyTracker {
    /// The cached outcome, when one exists and is younger than the TTL.
    pub open spec fn lookup_spec(&self, now_ms: u64) -> Option<Option<TimeQuality>> {
        match self.entry {
            Some(e) => if elapsed_ms(e.captured_at_ms, now_ms) < CACHE_TTL_MS {
                Some(e.quality)
            } else {
                None
            },
            None => None,
        }
    }

    /// The tracker after storing an outcome taken at `now_ms`. The capture
    /// time is past the previous one (unless that is already the largest
    /// value a `u64` holds) and not before `now_ms`.
    pub open spec fn record_spec(&self, quality: Option<TimeQuality>, now_ms: u64) -> Self {
        let at = match self.entry {
            Some(e) => if e.captured_at_ms == u64::MAX {
                e.captured_at_ms
            } else if e.captured_at_ms >= now_ms {
                (e.captured_at_ms + 1) as u64
            } else {
                now_ms
            },
            None => now_ms,
        };
        ChronyTracker { entry: Some(CachedQuality { quality, captured_at_ms: at }) }
    }

    /// A tracker with nothing cached.
    pub fn new() -> (r: Self)
        ensures
            r.entry is None,
    {
        ChronyTracker { entry: None }
    }

    /// The cached outcome if it is still fresh at `now_ms`; `None` means a
    /// query is due.
    pub fn cached_quality(&self, now_ms: u64) -> (r: Option<Option<TimeQuality>>)
        ensures
            r == self.lookup_spec(now_ms),
    {
        match &self.entry {
            Some(e) => {
                let age = if now_ms >= e.captured_at_ms {
                    now_ms - e.captured_at_ms
                } else {
                    0
                };
                if age < CACHE_TTL_MS {
                    Some(duplicate_quality(&e.quality))
                } else {
                    None
                }
            },
            None => None,
        }
    }

    /// Replaces the cached entry with an outcome taken at `now_ms`, and
    /// hands the outcome back.
    pub fn record(&mut self, quality: Option<TimeQuality>, now_ms: u64) -> (r: Option<TimeQuality>)
        ensures
            r == quality,
            *final(self) == old(self).record_spec(quality, now_ms),
    {
        let at = match &self.entry {
            Some(e) => if e.captured_at_ms == u64::MAX {
                e.captured_at_ms
            } else if e.captured_at_ms >= now_ms {
                e.captured_at_ms + 1
            } else {
                now_ms
            },
            None => now_ms,
        };
        let kept = duplicate_quality(&quality);
        self.entry = Some(CachedQuality { quality: kept, captured_at_ms: at });
        quality
    }

    /// Stores the outcome of a daemon query: the parsed report when the
    /// command succeeded, absent otherwise.
    pub fn complete_query(&mut self, succeeded: bool, stdout: &str, now_ms: u64) -> (r: Option<
        TimeQuality,
    >)
        ensures
            quality_model(r) == (if succeeded {
                parse_spec(stdout@)
            } else {
                None
            }),
            *final(self) == old(self).record_spec(r, now_ms),
    {
        let quality = if succeeded {
            ChronyTracker::parse_chrony_output(stdout)
        } else {
            None
        };
        self.record(quality, now_ms)
    }
}

/// An outcome stored at `t0` is served unchanged to every lookup made less
/// than the TTL later, so no second query is made in that window.
pub proof fn cache_freshness(
    tracker: ChronyTracker,
    quality: Option<TimeQuality>,
    t0: u64,
    t1: u64,
)
    requires
        t0 <= t1,
        t1 - t0 < CACHE_TTL_MS,
    ensures
        tracker.record_spec(quality, t0).lookup_spec(t1) == Some(quality),
{
}

/// Each refresh stores a capture time strictly later than the one it
/// replaces, so a reader never sees an entry older than one already seen.
pub proof fn cache_capture_monotonic(tracker: ChronyTracker, quality: Option<TimeQuality>, t: u64)
    requires
        tracker.entry is Some,
        tracker.entry->0.captured_at_ms < u64::MAX,
    ensures
        tracker.record_spec(quality, t).entry->0.captured_at_ms > tracker.entry->0.captured_at_ms,
        tracker.record_spec(quality, t).entry->0.captured_at_ms >= t,
{
}

} // verus!
