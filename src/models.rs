use vstd::prelude::*;
use crate::conversion::ZoneMap;

verus! {

/// Outcome level of a single health check.
#[derive(Clone, Copy, Debug, PartialEq, Eq, Structural)]
pub enum CheckLevel {
    Normal,
    Warning,
    Failure,
}

impl CheckLevel {
    pub open spec fn label_spec(self) -> Seq<char> {
        match self {
            CheckLevel::Normal => "ok"@,
            CheckLevel::Warning => "warning"@,
            CheckLevel::Failure => "error"@,
        }
    }

    /// Wire name of the level: "ok", "warning" or "error".
    pub fn label(&self) -> (r: String)
        ensures
            r@ == self.label_spec(),
    {
        match self {
            CheckLevel::Normal => String::from_str("ok"),
            CheckLevel::Warning => String::from_str("warning"),
            CheckLevel::Failure => String::from_str("error"),
        }
    }
}

/// The text of an optional message.
pub open spec fn message_view(m: Option<String>) -> Option<Seq<char>> {
    match m {
        Some(s) => Some(s@),
        None => None,
    }
}

/// Result of one health check: a level and an optional explanation.
#[derive(Debug)]
pub struct CheckStatus {
    pub status: CheckLevel,
    pub message: Option<String>,
}

impl CheckStatus {
    pub fn ok() -> (r: Self)
        ensures
            r.status == CheckLevel::Normal,
            r.message is None,
    {
        CheckStatus { status: CheckLevel::Normal, message: None }
    }

    pub fn warning(message: &str) -> (r: Self)
        ensures
            r.status == CheckLevel::Warning,
            r.message is Some,
            r.message->0@ == message@,
    {
        CheckStatus { status: CheckLevel::Warning, message: Some(message.to_owned()) }
    }

    pub fn error(message: &str) -> (r: Self)
        ensures
            r.status == CheckLevel::Failure,
            r.message is Some,
            r.message->0@ == message@,
    {
        CheckStatus { status: CheckLevel::Failure, message: Some(message.to_owned()) }
    }
}

/// The two checks that make up a health report.
#[derive(Debug)]
pub struct HealthChecks {
    pub system_clock: CheckStatus,
    pub chrony: CheckStatus,
}

/// A clock offset as reported by the synchronization daemon.
///
/// `magnitude` is the unsigned decimal numeral (digits with at most one
/// point); the value in seconds is `magnitude`, negated when `negative`.
#[derive(Debug)]
pub struct Offset {
    pub negative: bool,
    pub magnitude: String,
}

/// Does the numeral hold a nonzero digit?
pub open spec fn has_nonzero_digit(s: Seq<char>) -> bool {
    exists|i: int| 0 <= i < s.len() && '1' <= #[trigger] s[i] && s[i] <= '9'
}

impl Offset {
    /// The offset is strictly below zero.
    pub open spec fn is_negative_spec(&self) -> bool {
        self.negative && has_nonzero_digit(self.magnitude@)
    }

    /// The offset is strictly above zero.
    pub open spec fn is_positive_spec(&self) -> bool {
        !self.negative && has_nonzero_digit(self.magnitude@)
    }

    fn magnitude_nonzero(&self) -> (r: bool)
        ensures
            r == has_nonzero_digit(self.magnitude@),
    {
        let s = self.magnitude.as_str();
        let n = s.unicode_len();
        let mut i: usize = 0;
        while i < n
            invariant
                n == s@.len(),
                s@ == self.magnitude@,
                i <= n,
                forall|j: int| 0 <= j < i ==> !('1' <= #[trigger] s@[j] && s@[j] <= '9'),
            decreases n - i,
        {
            let c = s.get_char(i);
            if '1' <= c && c <= '9' {
                return true;
            }
            i = i + 1;
        }
        false
    }

    /// Whether the offset is strictly below zero.
    pub fn is_negative(&self) -> (r: bool)
        ensures
            r == self.is_negative_spec(),
    {
        self.negative && self.magnitude_nonzero()
    }

    /// Whether the offset is strictly above zero.
    pub fn is_positive(&self) -> (r: bool)
        ensures
            r == self.is_positive_spec(),
    {
        !self.negative && self.magnitude_nonzero()
    }
}

/// Synchronization quality metrics taken from one daemon report.
#[derive(Debug)]
pub struct TimeQuality {
    pub stratum: u8,
    pub offset_seconds: Offset,
    pub reference_id: String,
    pub leap_status: String,
}

impl TimeQuality {
    /// An equal copy of this value.
    pub fn duplicate(&self) -> (r: Self)
        ensures
            r == *self,
    {
        TimeQuality {
            stratum: self.stratum,
            offset_seconds: Offset {
                negative: self.offset_seconds.negative,
                magnitude: self.offset_seconds.magnitude.clone(),
            },
            reference_id: self.reference_id.clone(),
            leap_status: self.leap_status.clone(),
        }
    }
}

/// Copies an optional quality value.
pub fn duplicate_quality(q: &Option<TimeQuality>) -> (r: Option<TimeQuality>)
    ensures
        r == *q,
{
    match q {
        Some(v) => Some(v.duplicate()),
        None => None,
    }
}

/// Rendering of the current instant in one zone.
#[derive(Debug)]
pub struct ZoneInfo {
    /// Local time as `YYYY-MM-DDTHH:MM:SS`.
    pub local: String,
    /// Offset from UTC in seconds.
    pub offset: i32,
}

/// Query of the times endpoint.
#[derive(Debug)]
pub struct TimesQuery {
    /// Comma-separated zone names.
    pub tz: String,
    pub include_quality: bool,
}

/// Zone list used when a query names none.
pub fn default_timezones() -> (r: String)
    ensures
        r@ == "UTC"@,
{
    String::from_str("UTC")
}

/// Response of the times endpoint.
#[derive(Debug)]
pub struct TimesResponse {
    pub unix: i64,
    pub zones: ZoneMap,
    pub time_quality: Option<TimeQuality>,
}

/// Response of the health endpoint.
#[derive(Debug)]
pub struct HealthResponse {
    /// "healthy", "degraded" or "unhealthy".
    pub status: String,
    pub checks: HealthChecks,
    pub time_quality: Option<TimeQuality>,
}

/// Heartbeat message: the second just crossed.
#[derive(Debug, Clone, Copy, PartialEq, Eq, Structural)]
pub struct PpsMessage {
    pub unix: i64,
}

/// Health-change message.
#[derive(Debug)]
pub struct MqttHealthMessage {
    pub status: String,
    pub timestamp: i64,
    pub checks: HealthChecks,
    pub time_quality: Option<TimeQuality>,
}

} // verus!
