use vstd::prelude::*;
use crate::error::ApiError;
use crate::models::ZoneInfo;
use crate::text::{find_char, index_of, trim, trim_spec};

verus! {

/// Whether a name is in the IANA zone table.
pub uninterp spec fn tz_resolves(name: Seq<char>) -> bool;

/// First Unix second that chrono's `Utc` represents.
pub const MIN_INSTANT: i64 = -8334601228800;

/// Last Unix second that chrono's `Utc` represents: +262142-12-31T23:59:59Z.
pub const MAX_INSTANT: i64 = 8210266876799;

/// Whether a Unix second is a representable calendar instant.
pub open spec fn instant_in_range(unix: int) -> bool {
    MIN_INSTANT <= unix <= MAX_INSTANT
}

/// The local calendar time `YYYY-MM-DDTHH:MM:SS` of a Unix second in a zone.
pub uninterp spec fn tz_local_text(name: Seq<char>, unix: int) -> Seq<char>;

/// The UTC offset, in seconds, of a zone at a Unix second.
pub uninterp spec fn tz_offset(name: Seq<char>, unix: int) -> int;

/// Relies on chrono's `TimeZone::timestamp_opt` for `Utc`: whether the second
/// maps to a single instant, which holds exactly on chrono's date range.
#[verifier::external_body]
fn instant_representable(unix: i64) -> (r: bool)
    ensures
        r == instant_in_range(unix as int),
{
    chrono::TimeZone::timestamp_opt(&chrono::Utc, unix, 0).single().is_some()
}

/// Relies on chrono-tz's `Tz::from_str` to resolve the name, and on chrono's
/// `with_timezone`, `format` and `Offset::fix` to render the instant there.
/// The `UTC` zone has offset zero.
#[verifier::external_body]
fn render_zone(name: &str, unix: i64) -> (r: Option<ZoneInfo>)
    requires
        instant_in_range(unix as int),
    ensures
        r is Some == tz_resolves(name@),
        r matches Some(z) ==> z.local@ == tz_local_text(name@, unix as int) && z.offset as int
            == tz_offset(name@, unix as int),
        name@ == "UTC"@ ==> r is Some && r->0.offset == 0,
{
    let tz: chrono_tz::Tz = name.parse().ok()?;
    let utc = chrono::TimeZone::timestamp_opt(&chrono::Utc, unix, 0).single()?;
    let local = utc.with_timezone(&tz);
    let offset = chrono::Offset::fix(local.offset()).local_minus_utc();
    Some(ZoneInfo { local: local.format("%Y-%m-%dT%H:%M:%S").to_string(), offset })
}

/// Relies on `SystemTime::now` and `duration_since(UNIX_EPOCH)`: whole seconds
/// since the epoch, or an error when the clock is before it.
#[verifier::external_body]
fn clock_seconds() -> (r: Option<u64>) {
    std::time::SystemTime::now().duration_since(std::time::UNIX_EPOCH).ok().map(|d| d.as_secs())
}

/// Current Unix time in whole seconds.
pub fn get_unix_timestamp() -> (r: Result<i64, ApiError>)
    ensures
        r is Err ==> r->Err_0 is SystemTimeError,
{
    match clock_seconds() {
        Some(s) => Ok(s as i64),
        None => Err(ApiError::SystemTimeError),
    }
}

/// Most zones one request may name.
pub const MAX_TIMEZONES: usize = 50;

pub open spec fn name_views(names: Seq<String>) -> Seq<Seq<char>> {
    names.map_values(|s: String| s@)
}

/// The names asked for: each trimmed, empty ones dropped, order kept.
pub open spec fn requested(names: Seq<Seq<char>>) -> Seq<Seq<char>>
    decreases names.len(),
{
    if names.len() == 0 {
        Seq::empty()
    } else {
        let rest = requested(names.drop_first());
        let t = trim_spec(names[0]);
        if t.len() == 0 {
            rest
        } else {
            seq![t] + rest
        }
    }
}

/// The comma-separated fields of `s`.
pub open spec fn comma_fields(s: Seq<char>) -> Seq<Seq<char>>
    decreases s.len(),
{
    let k = index_of(s, ',');
    if k < s.len() {
        seq![s.subrange(0, k as int)] + comma_fields(s.subrange(k + 1int, s.len() as int))
    } else {
        seq![s]
    }
}

/// `s` with repeats removed, first occurrences kept in order.
pub open spec fn distinct(s: Seq<Seq<char>>) -> Seq<Seq<char>>
    decreases s.len(),
{
    if s.len() == 0 {
        Seq::empty()
    } else {
        let d = distinct(s.drop_last());
        if d.contains(s.last()) {
            d
        } else {
            d.push(s.last())
        }
    }
}

/// Zone renderings keyed by zone name, each name once, in request order.
/// Held as a vector of pairs so that contracts can state its contents, which
/// they cannot for a `HashMap` keyed by `String`.
#[derive(Debug)]
pub struct ZoneMap {
    pub entries: Vec<(String, ZoneInfo)>,
}

impl ZoneMap {
    pub open spec fn keys(&self) -> Seq<Seq<char>> {
        self.entries@.map_values(|e: (String, ZoneInfo)| e.0@)
    }

    /// Entries for the `UTC` zone have offset zero.
    pub open spec fn utc_is_zero(&self) -> bool {
        forall|i: int|
            0 <= i < self.entries@.len() && (#[trigger] self.entries@[i]).0@ == "UTC"@
                ==> self.entries@[i].1.offset == 0
    }

    /// Every entry renders its zone at `unix`.
    pub open spec fn renders_at(&self, unix: int) -> bool {
        forall|i: int|
            0 <= i < self.entries@.len() ==> (#[trigger] self.entries@[i]).1.local@
                == tz_local_text(self.entries@[i].0@, unix) && self.entries@[i].1.offset as int
                == tz_offset(self.entries@[i].0@, unix)
    }

    pub fn len(&self) -> (r: usize)
        ensures
            r == self.entries@.len(),
    {
        self.entries.len()
    }

    fn position(&self, key: &str) -> (r: Option<usize>)
        ensures
            match r {
                Some(i) => i < self.entries@.len() && self.keys()[i as int] == key@,
                None => !self.keys().contains(key@),
            },
    {
        let k = key.to_owned();
        let mut i: usize = 0;
        while i < self.entries.len()
            invariant
                k@ == key@,
                i <= self.entries@.len(),
                forall|j: int| 0 <= j < i ==> self.keys()[j] != key@,
            decreases self.entries@.len() - i,
        {
            if self.entries[i].0 == k {
                return Some(i);
            }
            i = i + 1;
        }
        None
    }

    pub fn contains_key(&self, key: &str) -> (r: bool)
        ensures
            r == self.keys().contains(key@),
    {
        self.position(key).is_some()
    }

    pub fn get(&self, key: &str) -> (r: Option<&ZoneInfo>)
        ensures
            r is Some == self.keys().contains(key@),
            r matches Some(z) ==> exists|i: int|
                0 <= i < self.entries@.len() && self.keys()[i] == key@ && self.entries@[i].1 == *z,
    {
        match self.position(key) {
            Some(i) => Some(&self.entries[i].1),
            None => None,
        }
    }
}

/// Splits a comma-separated zone list into trimmed, non-empty names.
pub fn parse_timezone_list(list: &str) -> (r: Vec<String>)
    ensures
        name_views(r@) == requested(comma_fields(list@)),
{
    let mut out: Vec<String> = Vec::new();
    let mut rest: &str = list;
    loop
        invariant_except_break
            requested(comma_fields(list@)) == name_views(out@) + requested(comma_fields(rest@)),
        ensures
            requested(comma_fields(list@)) == name_views(out@),
        decreases rest@.len(),
    {
        let n = rest.unicode_len();
        let k = find_char(rest, ',');
        let field = rest.substring_char(0, k);
        let t = trim(field);
        let ghost fields = comma_fields(rest@);
        let ghost before = out@;
        if t.unicode_len() > 0 {
            out.push(t.to_owned());
        }
        proof {
            assert(fields[0] == field@) by {
                if k >= n {
                    assert(field@ =~= rest@);
                }
            }
            assert(fields.drop_first() =~= if k < n {
                comma_fields(rest@.subrange(k + 1int, n as int))
            } else {
                Seq::empty()
            });
            assert(name_views(out@) =~= if t@.len() > 0 {
                name_views(before) + seq![t@]
            } else {
                name_views(before)
            });
        }
        if k >= n {
            assert(requested(fields.drop_first()) =~= Seq::empty());
            assert(name_views(out@) + Seq::<Seq<char>>::empty() =~= name_views(out@));
            break;
        }
        rest = rest.substring_char(k + 1, n);
    }
    out
}

/// Converts the instant `now` into each requested zone. The list is
/// rejected when it names more than the maximum, and the whole conversion
/// fails on the first name that is not a known zone (never on `UTC`).
pub fn convert_to_timezones(timezone_names: &[String], now: i64) -> (r: Result<
    (i64, ZoneMap),
    ApiError,
>)
    ensures
        ({
            let req = requested(name_views(timezone_names@));
            match r {
                Ok((unix, zones)) => unix == now && req.len() <= MAX_TIMEZONES && instant_in_range(
                    now as int,
                ) && (forall|i: int| 0 <= i < req.len() ==> tz_resolves(#[trigger] req[i]))
                    && zones.keys() == distinct(req) && zones.renders_at(now as int)
                    && zones.utc_is_zero(),
                Err(ApiError::TooManyTimezones) => req.len() > MAX_TIMEZONES,
                Err(ApiError::SystemTimeError) => req.len() <= MAX_TIMEZONES && !instant_in_range(
                    now as int,
                ),
                Err(ApiError::InvalidTimezone(name)) => name@ != "UTC"@ && req.len() <= MAX_TIMEZONES
                    && instant_in_range(now as int) && exists|i: int|
                    0 <= i < req.len() && req[i] == name@ && !tz_resolves(req[i]) && (forall|j: int|
                        0 <= j < i ==> tz_resolves(#[trigger] req[j])),
                Err(_) => false,
            }
        }),
        ({
            let req = requested(name_views(timezone_names@));
            instant_in_range(now as int) && req.len() <= MAX_TIMEZONES && (forall|i: int|
                0 <= i < req.len() ==> tz_resolves(#[trigger] req[i]) || req[i] == "UTC"@)
                ==> r is Ok
        }),
{
    let ghost views = name_views(timezone_names@);
    let mut wanted: Vec<String> = Vec::new();
    let mut i: usize = 0;
    proof {
        assert(views.subrange(0, views.len() as int) =~= views);
        assert(name_views(wanted@) + views =~= views);
    }
    while i < timezone_names.len()
        invariant
            views == name_views(timezone_names@),
            i <= timezone_names@.len(),
            requested(views) == name_views(wanted@) + requested(views.subrange(
                i as int,
                views.len() as int,
            )),
        decreases timezone_names@.len() - i,
    {
        let t = trim(timezone_names[i].as_str());
        let ghost before = wanted@;
        if t.unicode_len() > 0 {
            wanted.push(t.to_owned());
        }
        proof {
            let tail = views.subrange(i as int, views.len() as int);
            assert(tail[0] == timezone_names@[i as int]@);
            assert(tail.drop_first() =~= views.subrange(i + 1int, views.len() as int));
            assert(name_views(wanted@) =~= if t@.len() > 0 {
                name_views(before) + seq![t@]
            } else {
                name_views(before)
            });
        }
        i = i + 1;
    }
    proof {
        assert(views.subrange(i as int, views.len() as int) =~= Seq::empty());
        assert(name_views(wanted@) + Seq::<Seq<char>>::empty() =~= name_views(wanted@));
    }
    let ghost req = requested(views);
    if wanted.len() > MAX_TIMEZONES {
        return Err(ApiError::TooManyTimezones);
    }
    if !instant_representable(now) {
        return Err(ApiError::SystemTimeError);
    }
    let mut zones = ZoneMap { entries: Vec::new() };
    let mut j: usize = 0;
    while j < wanted.len()
        invariant
            req == name_views(wanted@),
            req == requested(name_views(timezone_names@)),
            req.len() == wanted@.len(),
            req.len() <= MAX_TIMEZONES,
            instant_in_range(now as int),
            j <= wanted@.len(),
            forall|k: int| 0 <= k < j ==> tz_resolves(#[trigger] req[k]),
            zones.keys() == distinct(req.take(j as int)),
            zones.renders_at(now as int),
            zones.utc_is_zero(),
        decreases wanted@.len() - j,
    {
        let name = wanted[j].as_str();
        assert(name@ == req[j as int]);
        match render_zone(name, now) {
            None => {
                assert(!tz_resolves(req[j as int]));
                return Err(ApiError::InvalidTimezone(name.to_owned()));
            },
            Some(info) => {
                let ghost before = zones.keys();
                assert(req.take(j + 1int).drop_last() =~= req.take(j as int));
                if !zones.contains_key(name) {
                    zones.entries.push((name.to_owned(), info));
                    assert(zones.keys() =~= before.push(name@));
                }
            },
        }
        j = j + 1;
    }
    assert(req.take(j as int) =~= req);
    Ok((now, zones))
}

} // verus!
