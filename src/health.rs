use vstd::prelude::*;
use crate::models::{CheckLevel, CheckStatus, HealthChecks, TimeQuality, message_view};

verus! {

/// 2020-01-01T00:00:00Z in Unix seconds.
pub const CLOCK_MIN_EPOCH: i64 = 1577836800;

/// 2100-01-01T00:00:00Z in Unix seconds.
pub const CLOCK_MAX_EPOCH: i64 = 4102444800;

/// Stratum from which the daemon counts as unsynchronized.
pub const STRATUM_UNSYNCHRONIZED: u8 = 16;

/// Stratum from which synchronization counts as poor.
pub const STRATUM_DEGRADED: u8 = 4;

/// Overall service health.
#[derive(Clone, Copy, Debug, PartialEq, Eq, Structural)]
pub enum HealthStatus {
    Healthy,
    Degraded,
    Unhealthy,
}

impl HealthStatus {
    pub open spec fn label_spec(self) -> Seq<char> {
        match self {
            HealthStatus::Healthy => "healthy"@,
            HealthStatus::Degraded => "degraded"@,
            HealthStatus::Unhealthy => "unhealthy"@,
        }
    }

    /// Wire name of the status.
    pub fn label(&self) -> (r: String)
        ensures
            r@ == self.label_spec(),
    {
        match self {
            HealthStatus::Healthy => String::from_str("healthy"),
            HealthStatus::Degraded => String::from_str("degraded"),
            HealthStatus::Unhealthy => String::from_str("unhealthy"),
        }
    }

    /// HTTP status code for a health response: 503 when unhealthy, else 200.
    pub fn http_code(&self) -> (r: u16)
        ensures
            r == (if *self == HealthStatus::Unhealthy { 503u16 } else { 200u16 }),
    {
        match self {
            HealthStatus::Unhealthy => 503,
            _ => 200,
        }
    }
}

/// The health status, decided in precedence order: a failed clock check,
/// then a failed or missing daemon report, then the stratum thresholds.
pub open spec fn evaluate_spec(
    clock: CheckLevel,
    chrony: CheckLevel,
    stratum: Option<u8>,
) -> HealthStatus {
    if clock == CheckLevel::Failure {
        HealthStatus::Unhealthy
    } else if chrony != CheckLevel::Normal {
        HealthStatus::Degraded
    } else if stratum is Some && stratum->0 >= STRATUM_UNSYNCHRONIZED {
        HealthStatus::Unhealthy
    } else if stratum is Some && stratum->0 >= STRATUM_DEGRADED {
        HealthStatus::Degraded
    } else {
        HealthStatus::Healthy
    }
}

pub open spec fn stratum_of(q: Option<TimeQuality>) -> Option<u8> {
    match q {
        Some(v) => Some(v.stratum),
        None => None,
    }
}

/// Folds the clock check, the daemon check and the quality into one status.
pub fn evaluate(
    system_clock: &CheckStatus,
    chrony: &CheckStatus,
    time_quality: &Option<TimeQuality>,
) -> (r: HealthStatus)
    ensures
        r == evaluate_spec(system_clock.status, chrony.status, stratum_of(*time_quality)),
{
    if system_clock.status == CheckLevel::Failure {
        return HealthStatus::Unhealthy;
    }
    if chrony.status != CheckLevel::Normal {
        return HealthStatus::Degraded;
    }
    if let Some(quality) = time_quality {
        if quality.stratum >= STRATUM_UNSYNCHRONIZED {
            return HealthStatus::Unhealthy;
        } else if quality.stratum >= STRATUM_DEGRADED {
            return HealthStatus::Degraded;
        }
    }
    HealthStatus::Healthy
}

/// The status of `evaluate`, as its wire name.
pub fn determine_status(
    system_clock: &CheckStatus,
    chrony: &CheckStatus,
    time_quality: &Option<TimeQuality>,
) -> (r: String)
    ensures
        r@ == evaluate_spec(
            system_clock.status,
            chrony.status,
            stratum_of(*time_quality),
        ).label_spec(),
{
    evaluate(system_clock, chrony, time_quality).label()
}

/// Does a clock reading fall in the plausible window?
pub open spec fn clock_plausible(unix: int) -> bool {
    CLOCK_MIN_EPOCH <= unix <= CLOCK_MAX_EPOCH
}

/// The character of a decimal digit.
pub open spec fn digit_char(d: int) -> char {
    if d == 0 { '0' } else if d == 1 { '1' } else if d == 2 { '2' } else if d == 3 { '3' }
    else if d == 4 { '4' } else if d == 5 { '5' } else if d == 6 { '6' } else if d == 7 { '7' }
    else if d == 8 { '8' } else { '9' }
}

/// Decimal digits of a natural number, without leading zeros.
pub open spec fn decimal_spec(n: nat) -> Seq<char>
    decreases n,
{
    if n < 10 {
        seq![digit_char(n as int)]
    } else {
        decimal_spec(n / 10).push(digit_char((n % 10) as int))
    }
}

/// Decimal form of an integer, with a leading `-` when negative.
pub open spec fn signed_decimal(i: int) -> Seq<char> {
    if i < 0 {
        seq!['-'] + decimal_spec((-i) as nat)
    } else {
        decimal_spec(i as nat)
    }
}

fn digit_text(d: u64) -> (r: &'static str)
    requires
        d < 10,
    ensures
        r@ == seq![digit_char(d as int)],
{
    proof {
        reveal_strlit("0"); reveal_strlit("1"); reveal_strlit("2"); reveal_strlit("3");
        reveal_strlit("4"); reveal_strlit("5"); reveal_strlit("6"); reveal_strlit("7");
        reveal_strlit("8"); reveal_strlit("9");
    }
    let r = if d == 0 { "0" } else if d == 1 { "1" } else if d == 2 { "2" } else if d == 3 { "3" }
    else if d == 4 { "4" } else if d == 5 { "5" } else if d == 6 { "6" } else if d == 7 { "7" }
    else if d == 8 { "8" } else { "9" };
    assert(r@ =~= seq![digit_char(d as int)]);
    r
}

fn append_decimal(s: &mut String, n: u64)
    ensures
        final(s)@ == old(s)@ + decimal_spec(n as nat),
    decreases n,
{
    if n >= 10 {
        append_decimal(s, n / 10);
    }
    s.append(digit_text(n % 10));
    assert(s@ =~= old(s)@ + decimal_spec(n as nat));
}

/// Appends the decimal form of `i` to `s`.
pub fn append_signed_decimal(s: &mut String, i: i64)
    ensures
        final(s)@ == old(s)@ + signed_decimal(i as int),
{
    if i < 0 {
        s.append("-");
        proof { reveal_strlit("-"); }
        let magnitude = (0 - (i as i128)) as u64;
        append_decimal(s, magnitude);
        assert(s@ =~= old(s)@ + signed_decimal(i as int));
    } else {
        append_decimal(s, i as u64);
    }
}

/// The message of the clock check for a reading: none when the reading is
/// plausible.
pub open spec fn clock_message_spec(reading: Result<i64, String>) -> Option<Seq<char>> {
    match reading {
        Ok(unix) => if clock_plausible(unix as int) {
            None
        } else {
            Some("System clock out of range: "@ + signed_decimal(unix as int))
        },
        Err(e) => Some("System clock error: "@ + e@),
    }
}

pub open spec fn clock_level_spec(reading: Result<i64, String>) -> CheckLevel {
    match reading {
        Ok(unix) => if clock_plausible(unix as int) {
            CheckLevel::Normal
        } else {
            CheckLevel::Failure
        },
        Err(_) => CheckLevel::Failure,
    }
}

/// The message of the daemon check: none when a quality is present.
pub open spec fn chrony_message_spec(quality: Option<TimeQuality>) -> Option<Seq<char>> {
    if quality is Some {
        None
    } else {
        Some("chrony unavailable or not synchronized"@)
    }
}

pub open spec fn chrony_level_spec(quality: Option<TimeQuality>) -> CheckLevel {
    if quality is Some {
        CheckLevel::Normal
    } else {
        CheckLevel::Warning
    }
}

/// Classifies a reading of the real-time clock, in Unix seconds, or the
/// text of the error that reading it gave.
pub fn check_system_clock(reading: Result<i64, String>) -> (r: CheckStatus)
    ensures
        r.status == clock_level_spec(reading),
        message_view(r.message) == clock_message_spec(reading),
{
    match reading {
        Ok(unix) => {
            if CLOCK_MIN_EPOCH <= unix && unix <= CLOCK_MAX_EPOCH {
                CheckStatus::ok()
            } else {
                let mut text = String::from_str("System clock out of range: ");
                append_signed_decimal(&mut text, unix);
                CheckStatus::error(text.as_str())
            }
        },
        Err(e) => {
            let mut text = String::from_str("System clock error: ");
            text.append(e.as_str());
            CheckStatus::error(text.as_str())
        },
    }
}

/// Turns the cached quality into the daemon check and the quality reported.
pub fn check_chrony(quality: Option<TimeQuality>) -> (r: (CheckStatus, Option<TimeQuality>))
    ensures
        r.1 == quality,
        r.0.status == chrony_level_spec(quality),
        message_view(r.0.message) == chrony_message_spec(quality),
{
    match quality {
        Some(q) => (CheckStatus::ok(), Some(q)),
        None => (CheckStatus::warning("chrony unavailable or not synchronized"), None),
    }
}

/// A full health evaluation from a clock reading and the current quality:
/// the two checks exactly as `check_system_clock` and `check_chrony` give
/// them, and the status they evaluate to.
pub fn check_health(
    clock_reading: Result<i64, String>,
    quality: Option<TimeQuality>,
) -> (r: (HealthStatus, HealthChecks, Option<TimeQuality>))
    ensures
        r.2 == quality,
        r.1.system_clock.status == clock_level_spec(clock_reading),
        message_view(r.1.system_clock.message) == clock_message_spec(clock_reading),
        r.1.chrony.status == chrony_level_spec(quality),
        message_view(r.1.chrony.message) == chrony_message_spec(quality),
        r.0 == evaluate_spec(r.1.system_clock.status, r.1.chrony.status, stratum_of(quality)),
{
    let system_clock = check_system_clock(clock_reading);
    let (chrony, time_quality) = check_chrony(quality);
    let status = evaluate(&system_clock, &chrony, &time_quality);
    (status, HealthChecks { system_clock, chrony }, time_quality)
}

/// Evaluation is a function of its three inputs: equal inputs give equal
/// statuses.
pub proof fn evaluate_is_deterministic(
    clock1: CheckLevel, chrony1: CheckLevel, stratum1: Option<u8>,
    clock2: CheckLevel, chrony2: CheckLevel, stratum2: Option<u8>,
)
    requires
        clock1 == clock2,
        chrony1 == chrony2,
        stratum1 == stratum2,
    ensures
        evaluate_spec(clock1, chrony1, stratum1) == evaluate_spec(clock2, chrony2, stratum2),
{
}

/// A failed clock check makes the service unhealthy whatever else holds; a
/// daemon check that is not ok makes it degraded unless the clock failed.
pub proof fn evaluate_precedence(clock: CheckLevel, chrony: CheckLevel, stratum: Option<u8>)
    ensures
        clock == CheckLevel::Failure ==> evaluate_spec(clock, chrony, stratum)
            == HealthStatus::Unhealthy,
        clock != CheckLevel::Failure && chrony != CheckLevel::Normal ==> evaluate_spec(
            clock,
            chrony,
            stratum,
        ) == HealthStatus::Degraded,
{
}

/// With both checks ok: strata up to 3 are healthy, 4 through 15 degraded,
/// 16 and above unhealthy.
pub proof fn evaluate_stratum_thresholds(stratum: u8)
    ensures
        stratum <= 3 ==> evaluate_spec(CheckLevel::Normal, CheckLevel::Normal, Some(stratum))
            == HealthStatus::Healthy,
        4 <= stratum <= 15 ==> evaluate_spec(
            CheckLevel::Normal,
            CheckLevel::Normal,
            Some(stratum),
        ) == HealthStatus::Degraded,
        16 <= stratum ==> evaluate_spec(CheckLevel::Normal, CheckLevel::Normal, Some(stratum))
            == HealthStatus::Unhealthy,
{
}

} // verus!
