use vstd::prelude::*;
use crate::error::CodecError;

verus! {

/// What bigdecimal reads from decimal text, written back in its own form:
/// `None` where it reads no number. It depends on the text alone.
pub uninterp spec fn bigdecimal_text(s: Seq<char>) -> Option<Seq<char>>;

/// Relies on bigdecimal's `BigDecimal::from_str` and its `Display`: the
/// number that the text stands for, written back, or `None` where the text
/// is no number.
#[verifier::external_body]
fn canonical_decimal(s: &str) -> (r: Option<String>)
    ensures
        match r {
            Some(t) => bigdecimal_text(s@) == Some(t@),
            None => bigdecimal_text(s@) is None,
        },
{
    match <bigdecimal::BigDecimal as std::str::FromStr>::from_str(s) {
        Ok(d) => Some(d.to_string()),
        Err(_) => None,
    }
}

/// An exact decimal number (a fee rate, a weight, a scaling factor), held
/// as the text that bigdecimal writes for it.
#[derive(Debug, Clone, PartialEq, Eq, Hash)]
pub struct Decimal {
    text: String,
}

impl Decimal {
    pub closed spec fn text(&self) -> Seq<char> {
        self.text@
    }

    /// Reads decimal wire text.
    pub fn from_wire(s: &str) -> (r: Result<Decimal, CodecError>)
        ensures
            match bigdecimal_text(s@) {
                Some(t) => r matches Ok(d) && d.text() == t,
                None => r == Err::<Decimal, CodecError>(CodecError::InvalidInteger),
            },
    {
        match canonical_decimal(s) {
            Some(t) => Ok(Decimal { text: t }),
            None => Err(CodecError::InvalidInteger),
        }
    }

    /// The wire text.
    pub fn to_wire(&self) -> (r: String)
        ensures
            r@ == self.text(),
    {
        self.text.clone()
    }
}

/// The instant, as seconds and nanoseconds since the Unix epoch, that
/// chrono reads from RFC 3339 text: `None` where it reads none. It depends
/// on the text alone.
pub uninterp spec fn rfc3339_instant(s: Seq<char>) -> Option<(i64, u32)>;

/// The RFC 3339 text in UTC that chrono writes for an instant.
pub uninterp spec fn rfc3339_text(seconds: i64, nanos: u32) -> Seq<char>;

/// Relies on chrono's `DateTime::parse_from_rfc3339`, `timestamp` and
/// `timestamp_subsec_nanos`.
#[verifier::external_body]
fn parse_rfc3339(s: &str) -> (r: Option<(i64, u32)>)
    ensures
        r == rfc3339_instant(s@),
{
    match chrono::DateTime::parse_from_rfc3339(s) {
        Ok(t) => Some((t.timestamp(), t.timestamp_subsec_nanos())),
        Err(_) => None,
    }
}

/// The largest distance in seconds from the Unix epoch, either way, of the
/// instants that are always written: about 253 000 years, well inside
/// chrono's years -262 143 to 262 142.
pub const WRITABLE_SECONDS: i64 = 8_000_000_000_000;

/// Whether an instant can always be written: within `WRITABLE_SECONDS` of
/// the epoch, with a fraction under one second, or of up to two seconds at
/// the last second of a minute (a leap second).
pub open spec fn is_writable(seconds: i64, nanos: u32) -> bool {
    -WRITABLE_SECONDS <= seconds <= WRITABLE_SECONDS && (nanos < 1_000_000_000 || (nanos
        < 2_000_000_000 && seconds % 60 == 59))
}

/// Relies on chrono's `DateTime::<Utc>::from_timestamp`, which is `None`
/// only for a day out of its years or a time of day it cannot hold, and
/// `to_rfc3339_opts` with automatic precision and a `Z` suffix.
#[verifier::external_body]
fn format_rfc3339(seconds: i64, nanos: u32) -> (r: Option<String>)
    ensures
        r matches Some(t) ==> t@ == rfc3339_text(seconds, nanos),
        is_writable(seconds, nanos) ==> r is Some,
{
    match chrono::DateTime::<chrono::Utc>::from_timestamp(seconds, nanos) {
        Some(t) => Some(t.to_rfc3339_opts(chrono::SecondsFormat::AutoSi, true)),
        None => None,
    }
}

/// An instant, as seconds and nanoseconds since the Unix epoch.
#[derive(Debug, Clone, Copy, PartialEq, Eq, Hash, Default, Structural)]
pub struct Timestamp {
    pub seconds: i64,
    pub nanos: u32,
}

impl Timestamp {
    /// Reads RFC 3339 wire text.
    pub fn from_wire(s: &str) -> (r: Result<Timestamp, CodecError>)
        ensures
            match rfc3339_instant(s@) {
                Some(p) => r == Ok::<Timestamp, CodecError>(Timestamp { seconds: p.0, nanos: p.1 }),
                None => r == Err::<Timestamp, CodecError>(CodecError::StructuralMismatch),
            },
    {
        match parse_rfc3339(s) {
            Some(p) => Ok(Timestamp { seconds: p.0, nanos: p.1 }),
            None => Err(CodecError::StructuralMismatch),
        }
    }

    /// The RFC 3339 wire text in UTC. It is there for every instant that
    /// `is_writable` admits, and `None` only for one beyond chrono's range.
    pub fn to_wire(&self) -> (r: Option<String>)
        ensures
            r matches Some(t) ==> t@ == rfc3339_text(self.seconds, self.nanos),
            is_writable(self.seconds, self.nanos) ==> r is Some,
    {
        format_rfc3339(self.seconds, self.nanos)
    }
}

} // verus!
