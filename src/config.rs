use vstd::prelude::*;
use crate::text::{starts_with, starts_with_spec};

verus! {

/// Application configuration.
#[derive(Debug, Clone)]
pub struct Config {
    pub http: HttpConfig,
    pub tls: Option<TlsConfig>,
    pub mqtt: Option<MqttConfig>,
    pub log_level: String,
}

/// Where the HTTP server binds.
#[derive(Debug, Clone)]
pub struct HttpConfig {
    pub host: String,
    pub port: u16,
}

/// TLS certificate and key files (PEM).
#[derive(Debug, Clone)]
pub struct TlsConfig {
    pub cert_path: String,
    pub key_path: String,
}

/// Publish channel settings.
#[derive(Debug, Clone)]
pub struct MqttConfig {
    /// Broker URL, `mqtt://` or `mqtts://`.
    pub broker: String,
    pub username: Option<String>,
    pub password: Option<String>,
    /// Base topic of every publication.
    pub base_topic: String,
}

/// How a character is shown inside a quoted path: backslash, double quote,
/// newline, carriage return, tab and NUL are escaped with a backslash.
pub open spec fn escape_char(c: char) -> Seq<char> {
    if c == '\\' {
        seq!['\\', '\\']
    } else if c == '"' {
        seq!['\\', '"']
    } else if c == '\n' {
        seq!['\\', 'n']
    } else if c == '\r' {
        seq!['\\', 'r']
    } else if c == '\t' {
        seq!['\\', 't']
    } else if c == '\0' {
        seq!['\\', '0']
    } else {
        seq![c]
    }
}

pub open spec fn escaped(s: Seq<char>) -> Seq<char>
    decreases s.len(),
{
    if s.len() == 0 {
        Seq::empty()
    } else {
        escaped(s.drop_last()) + escape_char(s.last())
    }
}

/// A path as shown in messages: escaped, in double quotes.
pub open spec fn quoted(s: Seq<char>) -> Seq<char> {
    "\""@ + escaped(s) + "\""@
}

fn escape_text(c: char) -> (r: Option<&'static str>)
    ensures
        match r {
            Some(t) => t@ == escape_char(c),
            None => escape_char(c) == seq![c],
        },
{
    proof {
        reveal_strlit("\\\\");
        reveal_strlit("\\\"");
        reveal_strlit("\\n");
        reveal_strlit("\\r");
        reveal_strlit("\\t");
        reveal_strlit("\\0");
    }
    let r = if c == '\\' {
        Some("\\\\")
    } else if c == '"' {
        Some("\\\"")
    } else if c == '\n' {
        Some("\\n")
    } else if c == '\r' {
        Some("\\r")
    } else if c == '\t' {
        Some("\\t")
    } else if c == '\0' {
        Some("\\0")
    } else {
        None
    };
    proof {
        if r is Some {
            assert(r->0@ =~= escape_char(c));
        }
    }
    r
}

fn quote(s: &str) -> (r: String)
    ensures
        r@ == quoted(s@),
{
    let mut q = String::from_str("\"");
    let n = s.unicode_len();
    let mut start: usize = 0;
    let mut i: usize = 0;
    proof {
        assert(s@.subrange(0, 0) =~= Seq::<char>::empty());
    }
    while i < n
        invariant
            n == s@.len(),
            start <= i <= n,
            forall|j: int| start <= j < i ==> escape_char(#[trigger] s@[j]) == seq![s@[j]],
            q@ + s@.subrange(start as int, i as int) == "\""@ + escaped(s@.subrange(0, i as int)),
        decreases n - i,
    {
        let c = s.get_char(i);
        let ghost before = s@.subrange(0, i as int);
        let ghost after = s@.subrange(0, i + 1);
        assert(after.drop_last() =~= before);
        assert(after.last() == c);
        assert(escaped(after) == escaped(before) + escape_char(c));
        let ghost q_old = q@;
        let ghost pending = s@.subrange(start as int, i as int);
        match escape_text(c) {
            Some(t) => {
                q.append(s.substring_char(start, i));
                q.append(t);
                start = i + 1;
                assert(q@ =~= q_old + pending + escape_char(c));
                assert(s@.subrange(start as int, i + 1) =~= Seq::<char>::empty());
                assert(q@ + s@.subrange(start as int, i + 1) =~= "\""@ + escaped(after));
            },
            None => {
                assert(s@.subrange(start as int, i + 1) =~= pending.push(c));
                assert(q@ + pending.push(c) =~= (q@ + pending) + seq![c]);
                assert(("\""@ + escaped(before)) + seq![c] =~= "\""@ + (escaped(before) + seq![c]));
                assert(q@ + s@.subrange(start as int, i + 1) =~= "\""@ + escaped(after));
            },
        }
        i = i + 1;
    }
    q.append(s.substring_char(start, n));
    q.append("\"");
    assert(s@.subrange(0, n as int) =~= s@);
    q
}

impl Config {
    /// The error `validate` gives, if any, in the order the checks run:
    /// port, certificate file, key file, broker scheme.
    pub open spec fn validate_spec(&self, cert_exists: bool, key_exists: bool) -> Option<Seq<char>> {
        if self.http.port == 0 {
            Some("PORT must be greater than 0"@)
        } else if self.tls is Some && !cert_exists {
            Some("TLS certificate not found: "@ + quoted(self.tls->0.cert_path@))
        } else if self.tls is Some && !key_exists {
            Some("TLS private key not found: "@ + quoted(self.tls->0.key_path@))
        } else if self.mqtt is Some && !starts_with_spec(self.mqtt->0.broker@, "mqtt://"@)
            && !starts_with_spec(self.mqtt->0.broker@, "mqtts://"@) {
            Some("MQTT_BROKER must start with mqtt:// or mqtts://"@)
        } else {
            None
        }
    }

    /// Checks the configuration. Whether the TLS files exist is found by the
    /// caller and passed in.
    pub fn validate(&self, cert_exists: bool, key_exists: bool) -> (r: Result<(), String>)
        ensures
            match r {
                Ok(()) => self.validate_spec(cert_exists, key_exists) is None,
                Err(e) => self.validate_spec(cert_exists, key_exists) == Some(e@),
            },
    {
        if self.http.port == 0 {
            return Err(String::from_str("PORT must be greater than 0"));
        }
        if let Some(tls) = &self.tls {
            if !cert_exists {
                let mut m = String::from_str("TLS certificate not found: ");
                m.append(quote(tls.cert_path.as_str()).as_str());
                return Err(m);
            }
            if !key_exists {
                let mut m = String::from_str("TLS private key not found: ");
                m.append(quote(tls.key_path.as_str()).as_str());
                return Err(m);
            }
        }
        if let Some(mqtt) = &self.mqtt {
            if !starts_with(mqtt.broker.as_str(), "mqtt://") && !starts_with(
                mqtt.broker.as_str(),
                "mqtts://",
            ) {
                return Err(String::from_str("MQTT_BROKER must start with mqtt:// or mqtts://"));
            }
        }
        Ok(())
    }
}

} // verus!
