use vstd::prelude::*;
use vstd::arithmetic::div_mod::lemma_fundamental_div_mod_converse;
use crate::health::HealthStatus;
use crate::models::{HealthChecks, MqttHealthMessage, PpsMessage, TimeQuality};
use crate::quality::elapsed_ms;

verus! {

pub const NANOS_PER_SECOND: u32 = 1_000_000_000;

/// Least time between two health-change publications, in milliseconds.
pub const MIN_PUBLISH_INTERVAL_MS: u64 = 5000;

/// Time between two health polls, in milliseconds.
pub const POLL_INTERVAL_MS: u64 = 1000;

/// Nanoseconds from a clock reading to the next whole second, given the
/// reading's fraction of a second.
pub fn nanos_until_next_second(subsec_nanos: u32) -> (r: u32)
    requires
        subsec_nanos < NANOS_PER_SECOND,
    ensures
        r == NANOS_PER_SECOND - subsec_nanos,
        0 < r <= NANOS_PER_SECOND,
{
    NANOS_PER_SECOND - subsec_nanos
}

/// The heartbeat for the second read after waking.
pub fn heartbeat_message(unix: i64) -> (r: PpsMessage)
    ensures
        r.unix == unix,
{
    PpsMessage { unix }
}

/// Where a heartbeat cycle that starts at `t` (nanoseconds since the epoch)
/// wakes: the next whole second.
pub open spec fn wake_at(t: int) -> int {
    t + (NANOS_PER_SECOND - t % (NANOS_PER_SECOND as int))
}

/// The second a cycle emits when its clock read comes `lag` nanoseconds
/// after waking.
pub open spec fn emitted_second(t: int, lag: int) -> int {
    (wake_at(t) + lag) / (NANOS_PER_SECOND as int)
}

/// A cycle emits the second after the one it started in, and a cycle that
/// starts when the previous one has read the clock emits the following
/// second: with each lag under a second, no second is skipped or repeated.
pub proof fn heartbeat_alignment(t: int, lag: int, next_lag: int)
    requires
        t >= 0,
        0 <= lag < NANOS_PER_SECOND,
        0 <= next_lag < NANOS_PER_SECOND,
    ensures
        emitted_second(t, lag) == t / (NANOS_PER_SECOND as int) + 1,
        emitted_second(wake_at(t) + lag, next_lag) == emitted_second(t, lag) + 1,
{
    let n = NANOS_PER_SECOND as int;
    let q = t / n;
    assert(t == q * n + t % n) by (nonlinear_arith)
        requires
            n == 1_000_000_000,
            q == t / n,
    {
    }
    assert(wake_at(t) == (q + 1) * n) by (nonlinear_arith)
        requires
            t == q * n + t % n,
            wake_at(t) == t + (n - t % n),
    {
    }
    let t1 = wake_at(t) + lag;
    lemma_fundamental_div_mod_converse(t1, n, q + 1, lag);
    assert(wake_at(t1) == (q + 2) * n) by (nonlinear_arith)
        requires
            t1 % n == lag,
            t1 == (q + 1) * n + lag,
            wake_at(t1) == t1 + (n - t1 % n),
    {
    }
    lemma_fundamental_div_mod_converse(wake_at(t1) + next_lag, n, q + 2, next_lag);
}

/// Debounce state of the health-change publisher.
pub struct HealthPublisher {
    /// The status last published, if any.
    pub last_status: Option<HealthStatus>,
    /// Monotonic time of the last publication (or of the start), in ms.
    pub last_publish_ms: u64,
}

impl HealthPublisher {
    /// Whether a poll that sees `status` at `now_ms` publishes: the status
    /// differs from the one last published and the minimum interval since
    /// the last publication has passed.
    pub open spec fn should_publish_spec(&self, status: HealthStatus, now_ms: u64) -> bool {
        self.last_status != Some(status) && elapsed_ms(self.last_publish_ms, now_ms)
            >= MIN_PUBLISH_INTERVAL_MS
    }

    /// The state after a successful publication.
    pub open spec fn published_spec(&self, status: HealthStatus, now_ms: u64) -> Self {
        HealthPublisher { last_status: Some(status), last_publish_ms: now_ms }
    }

    /// A publisher started at `now_ms`, which has published nothing.
    pub fn new(now_ms: u64) -> (r: Self)
        ensures
            r.last_status is None,
            r.last_publish_ms == now_ms,
    {
        HealthPublisher { last_status: None, last_publish_ms: now_ms }
    }

    pub fn should_publish(&self, status: HealthStatus, now_ms: u64) -> (r: bool)
        ensures
            r == self.should_publish_spec(status, now_ms),
    {
        let changed = match self.last_status {
            Some(s) => s != status,
            None => true,
        };
        let elapsed = if now_ms >= self.last_publish_ms {
            now_ms - self.last_publish_ms
        } else {
            0
        };
        changed && elapsed >= MIN_PUBLISH_INTERVAL_MS
    }

    /// Records a successful publication of `status` at `now_ms`.
    pub fn mark_published(&mut self, status: HealthStatus, now_ms: u64)
        ensures
            *final(self) == old(self).published_spec(status, now_ms),
    {
        self.last_status = Some(status);
        self.last_publish_ms = now_ms;
    }
}

/// Two changes seen inside the minimum interval publish nothing and leave
/// the state as it was; once the interval has passed, the poll publishes
/// exactly when the status it sees differs from the last one published,
/// and the state then carries that status.
pub proof fn health_debounce(
    p: HealthPublisher,
    first: HealthStatus,
    second: HealthStatus,
    t1: u64,
    t2: u64,
    t3: u64,
)
    requires
        p.last_publish_ms <= t1 <= t2,
        t2 < p.last_publish_ms + MIN_PUBLISH_INTERVAL_MS,
        t3 >= p.last_publish_ms + MIN_PUBLISH_INTERVAL_MS,
    ensures
        !p.should_publish_spec(first, t1),
        !p.should_publish_spec(second, t2),
        p.should_publish_spec(second, t3) == (p.last_status != Some(second)),
        p.published_spec(second, t3).last_status == Some(second),
{
}

/// The health-change message for a status seen at `timestamp`.
pub fn health_message(
    status: HealthStatus,
    timestamp: i64,
    checks: HealthChecks,
    time_quality: Option<TimeQuality>,
) -> (r: MqttHealthMessage)
    ensures
        r.status@ == status.label_spec(),
        r.timestamp == timestamp,
        r.checks == checks,
        r.time_quality == time_quality,
{
    MqttHealthMessage { status: status.label(), timestamp, checks, time_quality }
}

/// Whether a string is a URL.
pub uninterp spec fn url_parses(s: Seq<char>) -> bool;

/// The host of a URL, if it has one.
pub uninterp spec fn url_host(s: Seq<char>) -> Option<Seq<char>>;

/// The explicit port of a URL, if it names one.
pub uninterp spec fn url_port(s: Seq<char>) -> Option<u16>;

/// Relies on `url::Url::parse`, `Url::host_str` and `Url::port`: the host and
/// explicit port of a URL, `None` when the string is not one.
#[verifier::external_body]
fn url_parts(s: &str) -> (r: Option<(Option<String>, Option<u16>)>)
    ensures
        r is Some == url_parses(s@),
        r matches Some(p) ==> p.1 == url_port(s@) && match p.0 {
            Some(h) => url_host(s@) == Some(h@),
            None => url_host(s@) is None,
        },
{
    let url = url::Url::parse(s).ok()?;
    Some((url.host_str().map(|h| h.to_string()), url.port()))
}

/// Port of a broker URL that names none.
pub const DEFAULT_BROKER_PORT: u16 = 1883;

/// Why a broker URL cannot be used.
#[derive(Debug, Clone, Copy, PartialEq, Eq, Structural)]
pub enum BrokerError {
    /// The string is not a URL.
    InvalidUrl,
    /// The URL has no host.
    MissingHost,
}

/// Host and port of the broker: the URL's explicit port, else 1883.
pub fn broker_endpoint(broker: &str) -> (r: Result<(String, u16), BrokerError>)
    ensures
        match r {
            Ok((host, port)) => url_parses(broker@) && url_host(broker@) == Some(host@) && port
                == match url_port(broker@) {
                Some(p) => p,
                None => DEFAULT_BROKER_PORT,
            },
            Err(BrokerError::InvalidUrl) => !url_parses(broker@),
            Err(BrokerError::MissingHost) => url_parses(broker@) && url_host(broker@) is None,
        },
{
    match url_parts(broker) {
        None => Err(BrokerError::InvalidUrl),
        Some((None, _)) => Err(BrokerError::MissingHost),
        Some((Some(host), port)) => {
            let p = match port {
                Some(p) => p,
                None => DEFAULT_BROKER_PORT,
            };
            Ok((host, p))
        },
    }
}

/// The full topic of a subtopic under a base topic.
pub fn topic_for(base_topic: &str, subtopic: &str) -> (r: String)
    ensures
        r@ == base_topic@ + "/"@ + subtopic@,
{
    let mut t = base_topic.to_owned();
    t.append("/");
    t.append(subtopic);
    t
}

} // verus!
