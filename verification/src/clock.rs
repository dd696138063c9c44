//! Instants and their text.
use vstd::prelude::*;

verus! {

/// An instant: whole seconds since the start of 1970 in UTC, and nanoseconds beyond them.
#[derive(Debug, Clone, Copy, PartialEq, Eq, Structural)]
pub struct Timestamp {
    pub secs: i64,
    pub nanos: u32,
}

/// The first second that has a calendar date: the start of the year -262143.
pub const FIRST_SECOND: i64 = -8334601228800;

/// The last second that has a calendar date: the end of the year 262142.
pub const LAST_SECOND: i64 = 8210266876799;

impl Timestamp {
    /// Whether the instant has a calendar date.
    pub open spec fn dated(self) -> bool {
        FIRST_SECOND <= self.secs <= LAST_SECOND && self.nanos < 1_000_000_000
    }
}

/// The RFC 3339 text of an instant in UTC, as `chrono` writes it.
pub uninterp spec fn rfc3339_text(secs: i64, nanos: u32) -> Seq<char>;

/// `chrono::Utc::now`: what the machine's clock reads, an instant of 1970 or later that has a
/// calendar date. Nothing else is promised of it.
#[verifier::external_body]
pub(crate) fn utc_now() -> (res: Timestamp)
    ensures
        res.secs >= 0,
        res.dated(),
{
    let now = chrono::Utc::now();
    Timestamp { secs: now.timestamp(), nanos: now.timestamp_subsec_nanos() }
}

/// Whether an instant is one that the machine's clock was read to be at: a result of `utc_now`.
pub closed spec fn is_reading(t: Timestamp) -> bool {
    call_ensures(utc_now, (), t)
}

/// What `utc_now` hands out is a reading.
pub(crate) proof fn results_are_readings(t: Timestamp)
    requires
        call_ensures(utc_now, (), t),
    ensures
        is_reading(t),
{
}

/// `DateTime::to_rfc3339` on the instant in UTC: the text depends on the instant alone and is named
/// `rfc3339_text`.
#[verifier::external_body]
fn utc_rfc3339(t: Timestamp) -> (res: String)
    requires
        t.dated(),
    ensures
        res@ == rfc3339_text(t.secs, t.nanos),
{
    chrono::DateTime::from_timestamp(t.secs, t.nanos).unwrap().to_rfc3339()
}

impl Timestamp {
    /// The instant as RFC 3339 text.
    pub fn to_rfc3339(self) -> (res: String)
        requires
            self.dated(),
        ensures
            res@ == rfc3339_text(self.secs, self.nanos),
    {
        utc_rfc3339(self)
    }

    /// The instant `by` seconds earlier, where it has a calendar date.
    pub fn earlier(self, by: i64) -> (res: Option<Timestamp>)
        requires
            self.dated(),
        ensures
            res is Some <==> FIRST_SECOND <= self.secs - by <= LAST_SECOND,
            res matches Some(t) ==> t.secs == self.secs - by && t.nanos == self.nanos,
            res matches Some(t) ==> t.dated(),
    {
        match self.secs.checked_sub(by) {
            Some(secs) => if FIRST_SECOND <= secs && secs <= LAST_SECOND {
                Some(Timestamp { secs, nanos: self.nanos })
            } else {
                None
            },
            None => None,
        }
    }
}

/// Every second of the years 1 to 9999 has a calendar date.
pub proof fn four_digit_years_are_dated(t: Timestamp)
    requires
        -62_135_596_800 <= t.secs <= 253_402_300_799,
        t.nanos < 1_000_000_000,
    ensures
        t.dated(),
{
}

/// A reading is a result of the clock, and of nothing else.
pub(crate) proof fn readings_come_from_the_clock(t: Timestamp)
    requires
        is_reading(t),
    ensures
        call_ensures(utc_now, (), t),
        t.secs >= 0,
        t.dated(),
{
}

} // verus!
