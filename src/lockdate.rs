use vstd::prelude::*;
use crate::version::ProtocolVersion;

verus! {

/// A moment in time: whole seconds since the Unix epoch (UTC) and the
/// nanoseconds past that second.
#[derive(Clone, Copy, Debug, PartialEq, Eq, Structural)]
pub struct Instant {
    pub seconds: i64,
    pub nanos: u32,
}

/// `a` lies strictly before `b`.
pub open spec fn is_before(a: Instant, b: Instant) -> bool {
    a.seconds < b.seconds || (a.seconds == b.seconds && a.nanos < b.nanos)
}

/// The moment named by the plain values of a date.
pub open spec fn instant_of(t: (i64, u32, i32)) -> Instant {
    Instant { seconds: t.0, nanos: t.1 }
}

/// The date that the check accepts from `text`: it must parse under `format`
/// and, unless `force`, lie strictly after `now`.
pub open spec fn accepted_lock_date(text: Seq<char>, format: Seq<char>, force: bool, now: Instant) -> Option<(i64, u32, i32)> {
    match parsed_date_of(text, format) {
        None => None,
        Some(t) => if force || is_before(now, instant_of(t)) { Some(t) } else { None },
    }
}

/// A parsed lock date: the moment it names and the fixed offset, in seconds
/// east of UTC, that it was written with.
#[derive(Clone, Copy, Debug, PartialEq, Eq, Structural)]
pub struct LockDate {
    pub at: Instant,
    pub offset_seconds: i32,
}

impl LockDate {
    /// The plain values of this date: seconds, nanoseconds and offset.
    pub open spec fn fields(&self) -> (i64, u32, i32) {
        (self.at.seconds, self.at.nanos, self.offset_seconds)
    }
}

/// What chrono's `DateTime::parse_from_str` makes of a text under a format:
/// seconds since the epoch, nanoseconds and offset, or nothing if it does not match.
pub uninterp spec fn parsed_date_of(text: Seq<char>, format: Seq<char>) -> Option<(i64, u32, i32)>;

/// What chrono's `DateTime::format` writes for a date under a format.
pub uninterp spec fn formatted_date_of(date: (i64, u32, i32), format: Seq<char>) -> Seq<char>;

/// The date-time format that both protocols of the client library use.
pub open spec fn lock_date_format() -> Seq<char> {
    "%Y-%m-%dT%H:%M:%S%z"@
}

/// Relies on chrono's `DateTime::<FixedOffset>::parse_from_str`, which reports a
/// mismatch as an error, and on `timestamp`, `timestamp_subsec_nanos` and
/// `offset().local_minus_utc()` to read the parsed value.
#[verifier::external_body]
fn parse_with_format(text: &str, format: &str) -> (r: Option<LockDate>)
    ensures
        match r {
            Some(d) => parsed_date_of(text@, format@) == Some(d.fields()),
            None => parsed_date_of(text@, format@) is None,
        },
{
    match chrono::DateTime::parse_from_str(text, format) {
        Ok(d) => Some(LockDate {
            at: Instant { seconds: d.timestamp(), nanos: d.timestamp_subsec_nanos() },
            offset_seconds: d.offset().local_minus_utc(),
        }),
        Err(_) => None,
    }
}

/// Relies on chrono's `DateTime::format` followed by `to_string`, on the date
/// rebuilt by `DateTime::from_timestamp` and `FixedOffset::east_opt` (a date that
/// these do not take is written as an empty string). `to_string` panics on a
/// format that chrono cannot write, so only the protocol's format is taken.
#[verifier::external_body]
fn format_with(date: &LockDate, format: &str) -> (r: String)
    requires
        format@ == lock_date_format(),
    ensures
        r@ == formatted_date_of(date.fields(), format@),
{
    match (chrono::DateTime::from_timestamp(date.at.seconds, date.at.nanos), chrono::FixedOffset::east_opt(date.offset_seconds)) {
        (Some(utc), Some(offset)) => utc.with_timezone(&offset).format(format).to_string(),
        _ => String::new(),
    }
}

/// Relies on snailcrypt's `Client::get_datetime_format`, which for `V1Client`
/// returns "%Y-%m-%dT%H:%M:%S%z" and for `V2Client` returns what its inner
/// `V1Client` returns.
#[verifier::external_body]
fn client_datetime_format(version: ProtocolVersion) -> (r: String)
    ensures
        r@ == lock_date_format(),
{
    let analyzer = snailcrypt::factory::AnalyzerFactory::new().create();
    let config = snailcrypt::factory::ConfigFactory::new().create();
    let client: Box<dyn snailcrypt::client::Client> = match version {
        ProtocolVersion::V1 => Box::new(snailcrypt::client::V1Client::new(analyzer, config)),
        ProtocolVersion::V2 => Box::new(snailcrypt::client::V2Client::new(analyzer, config)),
    };
    client.get_datetime_format().to_string()
}

/// Relies on chrono's `Local::now`: the current moment, read through
/// `timestamp` and `timestamp_subsec_nanos`. Nothing is known of its value.
#[verifier::external_body]
pub(crate) fn now_from_clock() -> (r: Instant) {
    let now = chrono::Local::now();
    Instant { seconds: now.timestamp(), nanos: now.timestamp_subsec_nanos() }
}

/// Why a lock date was not accepted.
#[derive(Debug)]
pub enum DateError {
    /// The text does not match the protocol's date format.
    Unparseable,
    /// The date is not strictly later than now; holds the date as the protocol formats it.
    InPast { shown: String },
}

/// Parses `text` under the date format of `version` and, unless `force`,
/// requires the date to be strictly later than `now`. The parse is never skipped.
pub fn check_lock_date(text: &str, version: ProtocolVersion, force: bool, now: Instant) -> (r: Result<LockDate, DateError>)
    ensures
        match parsed_date_of(text@, lock_date_format()) {
            None => r matches Err(DateError::Unparseable),
            Some(t) => if !force && !is_before(now, instant_of(t)) {
                r matches Err(DateError::InPast { shown }) && shown@ == formatted_date_of(t, lock_date_format())
            } else {
                r matches Ok(d) && d.fields() == t
            },
        },
        match r {
            Ok(d) => accepted_lock_date(text@, lock_date_format(), force, now) == Some(d.fields()),
            Err(_) => accepted_lock_date(text@, lock_date_format(), force, now) is None,
        },
{
    let format = client_datetime_format(version);
    match parse_with_format(text, format.as_str()) {
        None => Err(DateError::Unparseable),
        Some(d) => {
            let later = now.seconds < d.at.seconds || (now.seconds == d.at.seconds && now.nanos < d.at.nanos);
            if !force && !later {
                let shown = format_with(&d, format.as_str());
                Err(DateError::InPast { shown })
            } else {
                Ok(d)
            }
        },
    }
}

} // verus!
