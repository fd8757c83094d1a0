//! Points in time for date filters, and their RFC 3339 renderings.

use vstd::prelude::*;

verus! {

/// The largest distance from the Unix epoch, in seconds, of a timestamp
/// (about 250,000 years).
pub const MAX_SECS: i64 = 7_900_000_000_000;

/// A point in time in whole seconds since the Unix epoch, UTC.
#[derive(Debug)]
pub struct Timestamp {
    secs: i64,
}

/// The RFC 3339 text of a time in whole seconds with a `Z` suffix
/// (`1970-01-01T00:00:00Z`).
pub uninterp spec fn rfc3339_z(secs: i64) -> Seq<char>;

/// The RFC 3339 text of a time with a numeric UTC offset
/// (`1970-01-01T00:00:00+00:00`).
pub uninterp spec fn rfc3339_offset(secs: i64) -> Seq<char>;

/// Relies on `chrono::DateTime::<Utc>::from_timestamp`, which succeeds within
/// the bound, and `to_rfc3339_opts(SecondsFormat::Secs, true)`: the text
/// depends on the time alone.
#[verifier::external_body]
fn format_z(secs: i64) -> (r: String)
    requires
        -MAX_SECS <= secs <= MAX_SECS,
    ensures
        r@ == rfc3339_z(secs),
{
    match chrono::DateTime::from_timestamp(secs, 0) {
        Some(t) => t.to_rfc3339_opts(chrono::SecondsFormat::Secs, true),
        None => String::new(),
    }
}

/// Relies on `chrono::DateTime::<Utc>::from_timestamp`, which succeeds within
/// the bound, and `to_rfc3339`: the text depends on the time alone.
#[verifier::external_body]
fn format_offset(secs: i64) -> (r: String)
    requires
        -MAX_SECS <= secs <= MAX_SECS,
    ensures
        r@ == rfc3339_offset(secs),
{
    match chrono::DateTime::from_timestamp(secs, 0) {
        Some(t) => t.to_rfc3339(),
        None => String::new(),
    }
}

impl Clone for Timestamp {
    fn clone(&self) -> (r: Self)
        ensures
            r.secs() == self.secs(),
    {
        proof {
            use_type_invariant(self);
        }
        Timestamp { secs: self.secs }
    }
}

impl Timestamp {
    /// A timestamp is within the representable range.
    #[verifier::type_invariant]
    spec fn wf(&self) -> bool {
        -MAX_SECS <= self.secs <= MAX_SECS
    }

    /// The seconds since the Unix epoch.
    pub closed spec fn secs(&self) -> i64 {
        self.secs
    }

    /// The timestamp `secs` seconds after the Unix epoch, where that is within
    /// `MAX_SECS` of it.
    pub fn from_unix(secs: i64) -> (r: Option<Timestamp>)
        ensures
            r is Some <==> -MAX_SECS <= secs <= MAX_SECS,
            r matches Some(t) ==> t.secs() == secs,
    {
        if -MAX_SECS <= secs && secs <= MAX_SECS {
            Some(Timestamp { secs })
        } else {
            None
        }
    }

    /// The seconds since the Unix epoch.
    pub fn unix(&self) -> (r: i64)
        ensures
            r == self.secs(),
    {
        self.secs
    }

    /// The RFC 3339 text in whole seconds with a `Z` suffix.
    pub fn to_rfc3339_z(&self) -> (r: String)
        ensures
            r@ == rfc3339_z(self.secs()),
    {
        proof {
            use_type_invariant(self);
        }
        format_z(self.secs)
    }

    /// The RFC 3339 text with a numeric UTC offset.
    pub fn to_rfc3339(&self) -> (r: String)
        ensures
            r@ == rfc3339_offset(self.secs()),
    {
        proof {
            use_type_invariant(self);
        }
        format_offset(self.secs)
    }
}

} // verus!
