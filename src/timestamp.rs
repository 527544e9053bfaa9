use chrono::{DateTime, SecondsFormat, Utc};
use vstd::prelude::*;

use crate::error::ValidationError;

verus! {

/// Earliest whole second that chrono can hold: -262143-01-01T00:00:00Z.
pub const MIN_UNIX_SECONDS: i64 = -8334601228800;

/// Latest whole second that chrono can hold: +262142-12-31T23:59:59Z.
pub const MAX_UNIX_SECONDS: i64 = 8210266876799;

pub const NANOS_PER_SECOND: u32 = 1_000_000_000;

/// An instant given as seconds since the Unix epoch and nanoseconds past that
/// second. The nanoseconds reach past one second only for a leap second, which
/// chrono places at the last second of a minute.
pub open spec fn representable(secs: int, nanos: int) -> bool {
    &&& MIN_UNIX_SECONDS <= secs <= MAX_UNIX_SECONDS
    &&& 0 <= nanos
    &&& (nanos < NANOS_PER_SECOND || (nanos < 2 * NANOS_PER_SECOND && secs % 60 == 59))
}

/// The RFC 3339 text that chrono writes for an instant in UTC, with nine
/// fraction digits and the `Z` designator.
pub uninterp spec fn rfc3339_nanos_text(secs: int, nanos: int) -> Seq<char>;

/// What chrono's RFC 3339 reader makes of a text: the instant it denotes,
/// normalised to UTC, or the message of the error it reports.
pub uninterp spec fn rfc3339_reading(s: Seq<char>) -> Result<(int, int), Seq<char>>;

/// The canonical form of an RFC 3339 text: the instant it denotes, written in
/// UTC with nine fraction digits and `Z`.
pub open spec fn canonical_form(s: Seq<char>) -> Option<Seq<char>> {
    match rfc3339_reading(s) {
        Ok(p) => Some(rfc3339_nanos_text(p.0, p.1)),
        Err(_) => None,
    }
}

/// A parse of `s` gave `r`: the instant the reader found, or `InvalidFormat`
/// carrying the reader's message.
pub open spec fn parses_as(s: Seq<char>, r: Result<Timestamp, ValidationError>) -> bool {
    match rfc3339_reading(s) {
        Ok(p) => r matches Ok(t) && t@ == p,
        Err(m) => r matches Err(e) && e->message@ == m && m.len() > 0,
    }
}

/// The wire form `(seconds, nanos)` of an instant, where its nanoseconds fit
/// the signed 32-bit field.
pub open spec fn wire_of(v: (int, int)) -> Option<(int, int)> {
    if v.1 <= i32::MAX {
        Some(v)
    } else {
        None
    }
}

/// The instant that a wire message denotes, where its nanoseconds lie within
/// one second and the pair is an instant that chrono can hold.
pub open spec fn instant_of_wire(seconds: int, nanos: int) -> Option<(int, int)> {
    if 0 <= nanos < NANOS_PER_SECOND && representable(seconds, nanos) {
        Some((seconds, nanos))
    } else {
        None
    }
}

pub open spec fn is_invalid_format(e: ValidationError) -> bool {
    match e {
        ValidationError::InvalidFormat { message } => message@.len() > 0,
    }
}

/// Relies on chrono's `DateTime::<Utc>::from_timestamp`: `Some` exactly where
/// the day lies between the first and last `NaiveDate` and the nanoseconds
/// are below one second, or below two seconds at the last second of a minute.
#[verifier::external_body]
fn chrono_accepts(secs: i64, nanos: u32) -> (r: bool)
    ensures
        r == representable(secs as int, nanos as int),
{
    DateTime::<Utc>::from_timestamp(secs, nanos).is_some()
}

/// Relies on chrono's `DateTime::to_rfc3339_opts` with `SecondsFormat::Nanos`
/// and `use_z`; the instant is built by `from_timestamp`, which is `Some` on
/// every representable pair.
#[verifier::external_body]
fn format_rfc3339_nanos(secs: i64, nanos: u32) -> (r: String)
    requires
        representable(secs as int, nanos as int),
    ensures
        r@ == rfc3339_nanos_text(secs as int, nanos as int),
{
    DateTime::<Utc>::from_timestamp(secs, nanos).unwrap().to_rfc3339_opts(SecondsFormat::Nanos, true)
}

/// Relies on chrono's `DateTime::parse_from_rfc3339`: it reads RFC 3339 with any
/// offset and fraction precision. `timestamp` and `timestamp_subsec_nanos` give
/// the instant in UTC and always form a representable pair, and every
/// `ParseError` displays a non-empty message.
#[verifier::external_body]
fn parse_rfc3339(s: &str) -> (r: Result<(i64, u32), String>)
    ensures
        r matches Ok(p) ==> rfc3339_reading(s@) matches Ok(q) && q == (p.0 as int, p.1 as int),
        r matches Ok(p) ==> representable(p.0 as int, p.1 as int),
        r matches Err(m) ==> rfc3339_reading(s@) matches Err(n) && n == m@,
        r matches Err(m) ==> m@.len() > 0,
{
    match DateTime::parse_from_rfc3339(s) {
        Ok(d) => Ok((d.timestamp(), d.timestamp_subsec_nanos())),
        Err(e) => Err(e.to_string()),
    }
}

/// One instant in UTC with nanosecond resolution.
#[derive(Clone, Copy, Debug, PartialEq, Eq)]
pub struct Timestamp {
    secs: i64,
    nanos: u32,
}

impl View for Timestamp {
    type V = (int, int);

    /// Seconds since the Unix epoch and nanoseconds past that second.
    closed spec fn view(&self) -> (int, int) {
        (self.secs as int, self.nanos as int)
    }
}

fn invalid_format(message: &str) -> (e: ValidationError)
    requires
        message@.len() > 0,
    ensures
        e == (ValidationError::InvalidFormat { message: e->message }),
        e->message@ == message@,
{
    ValidationError::InvalidFormat { message: message.to_owned() }
}

impl Timestamp {
    #[verifier::type_invariant]
    closed spec fn inv(self) -> bool {
        representable(self.secs as int, self.nanos as int)
    }

    /// The canonical text of this instant.
    pub open spec fn canonical_text(self) -> Seq<char> {
        rfc3339_nanos_text(self@.0, self@.1)
    }

    pub(crate) fn from_representable(secs: i64, nanos: u32) -> (t: Timestamp)
        requires
            representable(secs as int, nanos as int),
        ensures
            t@ == (secs as int, nanos as int),
    {
        Timestamp { secs, nanos }
    }

    /// 1970-01-01T00:00:00.000000000Z.
    pub fn unix_epoch() -> (t: Timestamp)
        ensures
            t@ == (0int, 0int),
    {
        Timestamp { secs: 0, nanos: 0 }
    }

    /// The instant `secs` seconds and `nanos` nanoseconds after the Unix epoch,
    /// where chrono can hold it.
    pub fn from_unix(secs: i64, nanos: u32) -> (r: Option<Timestamp>)
        ensures
            r is Some <==> representable(secs as int, nanos as int),
            r matches Some(t) ==> t@ == (secs as int, nanos as int),
    {
        if chrono_accepts(secs, nanos) {
            Some(Timestamp { secs, nanos })
        } else {
            None
        }
    }

    /// Whole seconds since the Unix epoch, negative before it.
    pub fn unix_seconds(&self) -> (r: i64)
        ensures
            r == self@.0,
            representable(self@.0, self@.1),
    {
        proof {
            use_type_invariant(self);
        }
        self.secs
    }

    /// Nanoseconds past the whole second; one second or more only in a leap second.
    pub fn subsec_nanos(&self) -> (r: u32)
        ensures
            r == self@.1,
            representable(self@.0, self@.1),
    {
        proof {
            use_type_invariant(self);
        }
        self.nanos
    }

    /// The canonical RFC 3339 text: UTC, nine fraction digits, `Z`.
    pub fn to_string(&self) -> (r: String)
        ensures
            r@ == self.canonical_text(),
    {
        proof {
            use_type_invariant(self);
        }
        format_rfc3339_nanos(self.secs, self.nanos)
    }

    /// What a parse yields from the reader's outcome: the instant it found,
    /// or `InvalidFormat` carrying the reader's message.
    pub fn from_rfc3339_outcome(outcome: Result<(i64, u32), String>) -> (r: Result<
        Timestamp,
        ValidationError,
    >)
        requires
            outcome matches Ok(p) ==> representable(p.0 as int, p.1 as int),
        ensures
            outcome matches Ok(p) ==> r matches Ok(t) && t@ == (p.0 as int, p.1 as int),
            outcome matches Err(m) ==> r == Err::<Timestamp, ValidationError>(
                ValidationError::InvalidFormat { message: m },
            ),
    {
        match outcome {
            Ok(p) => Ok(Timestamp { secs: p.0, nanos: p.1 }),
            Err(m) => Err(ValidationError::InvalidFormat { message: m }),
        }
    }

    /// Reads an RFC 3339 text with any offset and any fraction precision.
    pub fn parse(s: &str) -> (r: Result<Timestamp, ValidationError>)
        ensures
            parses_as(s@, r),
            r matches Err(e) ==> is_invalid_format(e),
    {
        Self::from_rfc3339_outcome(parse_rfc3339(s))
    }

    /// The wire message for this instant; `InvalidFormat` where the nanoseconds
    /// do not fit its signed 32-bit field.
    pub fn to_wire(&self) -> (r: Result<WireTimestamp, ValidationError>)
        ensures
            r is Ok <==> wire_of(self@) is Some,
            r matches Ok(w) ==> wire_of(self@) == Some((w.seconds as int, w.nanos as int)),
            r matches Ok(w) ==> w.nanos >= 0,
            r matches Err(e) ==> is_invalid_format(e),
    {
        if self.nanos <= i32::MAX as u32 {
            Ok(WireTimestamp { seconds: self.secs, nanos: self.nanos as i32 })
        } else {
            proof {
                reveal_strlit("nanoseconds do not fit a signed 32-bit field");
            }
            Err(invalid_format("nanoseconds do not fit a signed 32-bit field"))
        }
    }

    /// The instant that a wire message denotes; `InvalidFormat` where its
    /// nanoseconds lie outside `0..1_000_000_000` or the instant is out of range.
    pub fn from_wire(w: WireTimestamp) -> (r: Result<Timestamp, ValidationError>)
        ensures
            r is Ok <==> instant_of_wire(w.seconds as int, w.nanos as int) is Some,
            r matches Ok(t) ==> instant_of_wire(w.seconds as int, w.nanos as int) == Some(t@),
            r matches Err(e) ==> is_invalid_format(e),
    {
        if w.nanos < 0 {
            proof {
                reveal_strlit("nanoseconds are negative");
            }
            return Err(invalid_format("nanoseconds are negative"));
        }
        let nanos = w.nanos as u32;
        if nanos >= NANOS_PER_SECOND {
            proof {
                reveal_strlit("nanoseconds reach a whole second");
            }
            return Err(invalid_format("nanoseconds reach a whole second"));
        }
        match Self::from_unix(w.seconds, nanos) {
            Some(t) => Ok(t),
            None => {
                proof {
                    reveal_strlit("seconds lie outside the calendar range");
                }
                Err(invalid_format("seconds lie outside the calendar range"))
            },
        }
    }
}

impl core::str::FromStr for Timestamp {
    type Err = ValidationError;

    fn from_str(s: &str) -> (r: Result<Timestamp, ValidationError>)
        ensures
            parses_as(s@, r),
            r matches Err(e) ==> is_invalid_format(e),
    {
        Timestamp::parse(s)
    }
}

impl TryFrom<String> for Timestamp {
    type Error = ValidationError;

    fn try_from(value: String) -> (r: Result<Timestamp, ValidationError>)
        ensures
            parses_as(value@, r),
            r matches Err(e) ==> is_invalid_format(e),
    {
        Timestamp::parse(value.as_str())
    }
}

impl vstd::std_specs::convert::TryFromSpecImpl<String> for Timestamp {
    /// The reader's message on failure is not modelled, so no spec function
    /// gives the result; `try_from` states it in its own `ensures`.
    open spec fn obeys_try_from_spec() -> bool {
        false
    }

    open spec fn try_from_spec(v: String) -> Result<Timestamp, ValidationError> {
        arbitrary()
    }
}

impl TryFrom<WireTimestamp> for Timestamp {
    type Error = ValidationError;

    fn try_from(w: WireTimestamp) -> (r: Result<Timestamp, ValidationError>)
        ensures
            r is Ok <==> instant_of_wire(w.seconds as int, w.nanos as int) is Some,
            r matches Ok(t) ==> instant_of_wire(w.seconds as int, w.nanos as int) == Some(t@),
            r matches Err(e) ==> is_invalid_format(e),
    {
        Timestamp::from_wire(w)
    }
}

impl vstd::std_specs::convert::TryFromSpecImpl<WireTimestamp> for Timestamp {
    /// `try_from` states its result in its own `ensures`.
    open spec fn obeys_try_from_spec() -> bool {
        false
    }

    open spec fn try_from_spec(v: WireTimestamp) -> Result<Timestamp, ValidationError> {
        arbitrary()
    }
}

impl TryFrom<Timestamp> for WireTimestamp {
    type Error = ValidationError;

    fn try_from(t: Timestamp) -> (r: Result<WireTimestamp, ValidationError>)
        ensures
            r is Ok <==> wire_of(t@) is Some,
            r matches Ok(w) ==> wire_of(t@) == Some((w.seconds as int, w.nanos as int)),
            r matches Ok(w) ==> w.nanos >= 0,
            r matches Err(e) ==> is_invalid_format(e),
    {
        t.to_wire()
    }
}

impl vstd::std_specs::convert::TryFromSpecImpl<Timestamp> for WireTimestamp {
    /// `try_from` states its result in its own `ensures`.
    open spec fn obeys_try_from_spec() -> bool {
        false
    }

    open spec fn try_from_spec(v: Timestamp) -> Result<WireTimestamp, ValidationError> {
        arbitrary()
    }
}

/// Parsing an RFC 3339 text and formatting the instant found gives the text's
/// canonical form: the same instant in UTC, nine fraction digits and `Z`.
pub proof fn lemma_parse_then_format(s: Seq<char>, t: Timestamp)
    requires
        rfc3339_reading(s) == Ok::<(int, int), Seq<char>>(t@),
    ensures
        canonical_form(s) == Some(t.canonical_text()),
{
}

/// An instant whose nanoseconds lie below one second comes back unchanged from
/// the wire message it converts to. Every `Timestamp` is representable: its
/// `unix_seconds` and `subsec_nanos` say so.
pub proof fn lemma_wire_round_trip(secs: int, nanos: int)
    requires
        representable(secs, nanos),
        nanos < NANOS_PER_SECOND,
    ensures
        wire_of((secs, nanos)) matches Some(w) && instant_of_wire(w.0, w.1) == Some((secs, nanos)),
{
}

/// A wire message whose nanoseconds lie outside `0..1_000_000_000` denotes no
/// instant.
pub proof fn lemma_wire_nanos_out_of_second(seconds: int, nanos: int)
    requires
        nanos < 0 || nanos >= NANOS_PER_SECOND,
    ensures
        instant_of_wire(seconds, nanos) is None,
{
}

/// The well-known timestamp message of RPC schemas: whole seconds since the
/// Unix epoch and a nanosecond remainder.
#[derive(Clone, Copy, Debug, PartialEq, Eq)]
pub struct WireTimestamp {
    pub seconds: i64,
    pub nanos: i32,
}

} // verus!
