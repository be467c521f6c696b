//! Points in time and their text forms.

use vstd::prelude::*;
use vstd::string::*;

verus! {

/// The seconds since the epoch that a calendar date can stand for.
pub const FIRST_SECOND: i64 = -8334601228800;

pub const LAST_SECOND: i64 = 8210266876799;

/// A point in time: seconds since the Unix epoch and nanoseconds within the second,
/// of which there are up to two thousand million in the last second of a minute.
pub struct Instant {
    pub secs: int,
    pub nanos: int,
}

pub open spec fn is_instant(secs: int, nanos: int) -> bool {
    &&& FIRST_SECOND <= secs <= LAST_SECOND
    &&& 0 <= nanos < 2_000_000_000
    &&& nanos >= 1_000_000_000 ==> secs % 60 == 59
}

impl Instant {
    pub open spec fn before(self, other: Instant) -> bool {
        self.secs < other.secs || (self.secs == other.secs && self.nanos < other.nanos)
    }

    /// The same instant without what is below a millisecond.
    pub open spec fn millis(self) -> Instant {
        Instant { secs: self.secs, nanos: self.nanos - self.nanos % 1_000_000 }
    }
}

/// A point in time, in UTC.
#[derive(Debug, Clone, Copy, PartialEq, Eq, Structural)]
pub struct Timestamp {
    secs: i64,
    nanos: u32,
}

impl View for Timestamp {
    type V = Instant;

    closed spec fn view(&self) -> Instant {
        Instant { secs: self.secs as int, nanos: self.nanos as int }
    }
}

impl Timestamp {
    #[verifier::type_invariant]
    spec fn is_valid(self) -> bool {
        is_instant(self.secs as int, self.nanos as int)
    }

    /// The instant `nanos` nanoseconds into the second `secs` after the epoch, if
    /// there is one.
    pub fn new(secs: i64, nanos: u32) -> (r: Option<Timestamp>)
        ensures
            match r {
                Some(t) => is_instant(secs as int, nanos as int) && t@ == (Instant {
                    secs: secs as int,
                    nanos: nanos as int,
                }),
                None => !is_instant(secs as int, nanos as int),
            },
    {
        if secs < FIRST_SECOND || secs > LAST_SECOND || nanos >= 2_000_000_000 {
            return None;
        }
        if nanos >= 1_000_000_000 {
            let shifted: u64 = (secs - FIRST_SECOND) as u64;
            proof {
                assert(FIRST_SECOND as int % 60 == 0);
                assert((secs - FIRST_SECOND) % 60 == secs as int % 60) by (nonlinear_arith)
                    requires
                        FIRST_SECOND as int == -8334601228800,
                ;
            }
            if shifted % 60 != 59 {
                return None;
            }
        }
        Some(Timestamp { secs, nanos })
    }

    /// The instant `nanos` nanoseconds into the second `secs` after the epoch.
    pub(crate) fn at(secs: i64, nanos: u32) -> (r: Timestamp)
        requires
            is_instant(secs as int, nanos as int),
        ensures
            r@ == (Instant { secs: secs as int, nanos: nanos as int }),
    {
        Timestamp { secs, nanos }
    }

    /// Seconds since the epoch.
    pub fn seconds(&self) -> (r: i64)
        ensures
            r == self@.secs,
            is_instant(self@.secs, self@.nanos),
    {
        proof {
            use_type_invariant(self);
        }
        self.secs
    }

    /// Nanoseconds within the second.
    pub fn subsec_nanos(&self) -> (r: u32)
        ensures
            r == self@.nanos,
            is_instant(self@.secs, self@.nanos),
    {
        proof {
            use_type_invariant(self);
        }
        self.nanos
    }

    pub fn is_before(&self, other: &Timestamp) -> (r: bool)
        ensures
            r == self@.before(other@),
    {
        self.secs < other.secs || (self.secs == other.secs && self.nanos < other.nanos)
    }

    /// The instant as it is stored: without what is below a millisecond.
    pub fn to_millis(&self) -> (r: Timestamp)
        ensures
            r@ == self@.millis(),
    {
        proof {
            use_type_invariant(self);
        }
        Timestamp { secs: self.secs, nanos: self.nanos - self.nanos % 1_000_000 }
    }

    /// `minutes` minutes earlier, if that is still a date.
    pub fn earlier(&self, minutes: u32) -> (r: Option<Timestamp>)
        ensures
            match r {
                Some(t) => t@ == (Instant {
                    secs: self@.secs - 60 * minutes,
                    nanos: self@.nanos,
                }),
                None => self@.secs - 60 * minutes < FIRST_SECOND,
            },
    {
        proof {
            use_type_invariant(self);
        }
        let at: i64 = self.secs - 60 * minutes as i64;
        if at < FIRST_SECOND {
            return None;
        }
        Some(Timestamp { secs: at, nanos: self.nanos })
    }
}

pub proof fn lemma_before_total(a: Instant, b: Instant)
    ensures
        a.before(b) || b.before(a) || a == b,
        !(a.before(b) && b.before(a)),
{
}

// ---- text forms ----

/// The seconds and nanoseconds of what an RFC 3339 timestamp denotes, or why it
/// denotes nothing.
pub uninterp spec fn rfc3339(s: Seq<char>) -> Result<(i64, u32), Seq<char>>;

/// The instant that an RFC 3339 timestamp denotes, or why it denotes none.
pub open spec fn parsed_instant(s: Seq<char>) -> Result<Instant, Seq<char>> {
    match rfc3339(s) {
        Ok(at) => Ok(Instant { secs: at.0 as int, nanos: at.1 as int }),
        Err(e) => Err(e),
    }
}

/// The view of what a timestamp was read as.
pub open spec fn res_instant(r: Result<Timestamp, String>) -> Result<Instant, Seq<char>> {
    match r {
        Ok(t) => Ok(t@),
        Err(e) => Err(e@),
    }
}

/// Whether an RFC 3339 timestamp denotes the instant.
pub open spec fn denotes(s: Seq<char>, secs: int, nanos: int) -> bool {
    rfc3339(s) matches Ok(at) && at.0 == secs && at.1 == nanos
}

/// Whether an instant lies in the years 0 to 9999 and in no leap second.
pub open spec fn is_storable(secs: int, nanos: int) -> bool {
    -62167219200 <= secs <= 253402300799 && nanos < 1_000_000_000
}

/// The text of an instant under a `strftime` pattern.
pub uninterp spec fn strftime(secs: i64, nanos: u32, pattern: Seq<char>) -> Seq<char>;

/// The RFC 3339 text of an instant, with milliseconds and a `Z`.
pub uninterp spec fn rfc3339_millis(secs: i64, nanos: u32) -> Seq<char>;

pub const MINUTE_PATTERN: &'static str = "%Y-%m-%d %H:%M UTC";

pub const SECOND_PATTERN: &'static str = "%Y-%m-%d %H:%M:%S UTC";

/// `chrono::DateTime::parse_from_rfc3339`: the instant the timestamp denotes, in
/// seconds and nanoseconds, or the text of the error. What it gives is a date that
/// the calendar has.
#[verifier::external_body]
fn parse_instant(s: &str) -> (r: Result<(i64, u32), String>)
    ensures
        match r {
            Ok(at) => rfc3339(s@) == Ok::<(i64, u32), Seq<char>>(at) && is_instant(
                at.0 as int,
                at.1 as int,
            ),
            Err(e) => rfc3339(s@) == Err::<(i64, u32), Seq<char>>(e@),
        },
{
    match chrono::DateTime::parse_from_rfc3339(s) {
        Ok(at) => Ok((at.timestamp(), at.timestamp_subsec_nanos())),
        Err(e) => Err(e.to_string()),
    }
}

/// `chrono::DateTime::from_timestamp` and `DateTime::format`: the text of the
/// instant under the pattern. The pattern is one that `chrono` accepts.
#[verifier::external_body]
fn format_instant(secs: i64, nanos: u32, pattern: &str) -> (r: String)
    requires
        is_instant(secs as int, nanos as int),
        pattern@ == MINUTE_PATTERN@ || pattern@ == SECOND_PATTERN@,
    ensures
        r@ == strftime(secs, nanos, pattern@),
{
    chrono::DateTime::from_timestamp(secs, nanos).unwrap().format(pattern).to_string()
}

/// `chrono::DateTime::to_rfc3339_opts` with milliseconds and `Z`. For the years 0 to
/// 9999, outside leap seconds, parsing the text gives the instant back without what
/// is below a millisecond.
#[verifier::external_body]
fn write_instant(secs: i64, nanos: u32) -> (r: String)
    requires
        is_instant(secs as int, nanos as int),
    ensures
        r@ == rfc3339_millis(secs, nanos),
        is_storable(secs as int, nanos as int) ==> denotes(
            r@,
            secs as int,
            nanos - nanos % 1_000_000,
        ),
{
    chrono::DateTime::from_timestamp(secs, nanos)
        .unwrap()
        .to_rfc3339_opts(chrono::SecondsFormat::Millis, true)
}

pub open spec fn minute_text(at: Instant) -> Seq<char> {
    strftime(at.secs as i64, at.nanos as u32, MINUTE_PATTERN@)
}

pub open spec fn second_text(at: Instant) -> Seq<char> {
    strftime(at.secs as i64, at.nanos as u32, SECOND_PATTERN@)
}

impl Timestamp {
    /// The instant that an RFC 3339 timestamp denotes, or the text of the error.
    pub fn parse(s: &str) -> (r: Result<Timestamp, String>)
        ensures
            match r {
                Ok(t) => rfc3339(s@) == Ok::<(i64, u32), Seq<char>>(
                    (t@.secs as i64, t@.nanos as u32),
                ) && is_instant(t@.secs, t@.nanos),
                Err(e) => rfc3339(s@) == Err::<(i64, u32), Seq<char>>(e@),
            },
    {
        match parse_instant(s) {
            Ok(at) => Ok(Timestamp { secs: at.0, nanos: at.1 }),
            Err(e) => Err(e),
        }
    }

    /// The instant to the minute, e.g. `2026-03-01 09:00 UTC`.
    pub fn to_minute_text(&self) -> (r: String)
        ensures
            r@ == minute_text(self@),
    {
        proof {
            use_type_invariant(self);
        }
        format_instant(self.secs, self.nanos, MINUTE_PATTERN)
    }

    /// The instant to the second, e.g. `2026-03-01 09:00:00 UTC`.
    pub fn to_second_text(&self) -> (r: String)
        ensures
            r@ == second_text(self@),
    {
        proof {
            use_type_invariant(self);
        }
        format_instant(self.secs, self.nanos, SECOND_PATTERN)
    }

    /// The instant as it is stored, e.g. `2026-03-01T09:00:00.000Z`. In the years 0
    /// to 9999, outside leap seconds, reading it gives the instant back to the
    /// millisecond.
    pub fn to_stored_text(&self) -> (r: String)
        ensures
            r@ == rfc3339_millis(self@.secs as i64, self@.nanos as u32),
            is_storable(self@.secs, self@.nanos) ==> denotes(
                r@,
                self@.millis().secs,
                self@.millis().nanos,
            ),
    {
        proof {
            use_type_invariant(self);
        }
        write_instant(self.secs, self.nanos)
    }
}

/// An instant read from the database, or `bad timestamp in db` with the text and the
/// cause.
pub open spec fn stored_instant(s: Seq<char>) -> Result<Instant, Seq<char>> {
    match rfc3339(s) {
        Ok(at) => Ok(Instant { secs: at.0 as int, nanos: at.1 as int }),
        Err(e) => Err("bad timestamp in db: "@ + s + ": "@ + e),
    }
}

pub fn parse_stored(s: &str) -> (r: Result<Timestamp, String>)
    ensures
        match r {
            Ok(t) => stored_instant(s@) == Ok::<Instant, Seq<char>>(t@),
            Err(e) => stored_instant(s@) == Err::<Instant, Seq<char>>(e@),
        },
{
    match Timestamp::parse(s) {
        Ok(t) => Ok(t),
        Err(e) => Err("bad timestamp in db: ".to_owned().concat(s).concat(": ").concat(e.as_str())),
    }
}

} // verus!
