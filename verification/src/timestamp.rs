//! Points in time as the server stores them: seconds and nanoseconds after the
//! Unix epoch, within the range of dates that `chrono` can represent.

use vstd::prelude::*;
use vstd::string::*;

verus! {

/// The earliest second that `chrono` represents: -262143-01-01 00:00:00.
pub const MIN_SECS: i64 = -8334601228800i64;

/// The last second that `chrono` represents: +262142-12-31 23:59:59.
pub const MAX_SECS: i64 = 8210266876799i64;

/// Whether `NaiveDateTime::from_timestamp_opt(secs, nanos)` gives a value:
/// the day lies within chrono's years -262143 to 262142, and the nanoseconds are below
/// one second, or below two seconds in the last second of a minute (a leap second).
pub open spec fn timestamp_in_range(secs: int, nanos: int) -> bool {
    &&& MIN_SECS <= secs <= MAX_SECS
    &&& 0 <= nanos < 2_000_000_000
    &&& (nanos < 1_000_000_000 || secs % 60 == 59)
}

/// The text that chrono's `Display` writes for the `NaiveDateTime` at `secs` seconds and
/// `nanos` nanoseconds after 1970-01-01 00:00:00, such as `2024-05-01 12:30:00` or
/// `2024-05-01 12:30:00.250`.
pub uninterp spec fn naive_datetime_text(secs: int, nanos: int) -> Seq<char>;

/// Calls chrono's `NaiveDateTime::from_timestamp_opt(secs, nanos)` and writes the value with
/// its `Display`. The contract claims that the text is a function of `secs` and `nanos`
/// alone; what that text is, calendar arithmetic and layout, is left to chrono.
#[verifier::external_body]
fn naive_datetime_display(secs: i64, nanos: u32) -> (text: String)
    requires
        timestamp_in_range(secs as int, nanos as int),
    ensures
        text@ == naive_datetime_text(secs as int, nanos as int),
{
    #[allow(deprecated)]
    match chrono::NaiveDateTime::from_timestamp_opt(secs, nanos) {
        Some(t) => t.to_string(),
        None => String::new(),
    }
}

/// The text of a point in time as chrono's `Display` writes a `NaiveDateTime`.
pub open spec fn datetime_text(t: Timestamp) -> Seq<char> {
    naive_datetime_text(t.seconds(), t.nanoseconds())
}

/// A date and time without time zone, held as the seconds and nanoseconds after
/// the Unix epoch that `chrono` turns into a `NaiveDateTime`.
#[derive(Clone, Copy, Debug)]
pub struct Timestamp {
    secs: i64,
    nanos: u32,
}

impl Timestamp {
    #[verifier::type_invariant]
    spec fn in_range(self) -> bool {
        timestamp_in_range(self.secs as int, self.nanos as int)
    }

    /// Seconds after the epoch.
    pub closed spec fn seconds(self) -> int {
        self.secs as int
    }

    /// Nanoseconds after the second.
    pub closed spec fn nanoseconds(self) -> int {
        self.nanos as int
    }

    /// The point `secs` seconds and `nanos` nanoseconds after the epoch; `None` exactly
    /// where chrono has no `NaiveDateTime` for it.
    pub fn new(secs: i64, nanos: u32) -> (t: Option<Timestamp>)
        ensures
            t is Some <==> timestamp_in_range(secs as int, nanos as int),
            t matches Some(t) ==> t.seconds() == secs && t.nanoseconds() == nanos,
    {
        if secs < MIN_SECS || secs > MAX_SECS || nanos >= 2_000_000_000 {
            return None;
        }
        // MIN_SECS is a multiple of 60, so the shift keeps the remainder.
        let shifted: u64 = (secs - MIN_SECS) as u64;
        let within_minute: u64 = shifted % 60;
        proof {
            assert((secs - MIN_SECS) % 60 == secs % 60);
        }
        if nanos >= 1_000_000_000 && within_minute != 59 {
            return None;
        }
        Some(Timestamp { secs, nanos })
    }

    /// The whole second `secs` after the epoch, as the JSON form of the server's
    /// dates (a Unix timestamp) gives it; `None` where chrono has no date for it.
    pub fn from_secs(secs: i64) -> (t: Option<Timestamp>)
        ensures
            t is Some <==> MIN_SECS <= secs <= MAX_SECS,
            t matches Some(t) ==> t.seconds() == secs && t.nanoseconds() == 0,
    {
        Timestamp::new(secs, 0)
    }

    /// Seconds after the epoch.
    pub fn secs(&self) -> (s: i64)
        ensures
            s == self.seconds(),
    {
        self.secs
    }

    /// Nanoseconds after the second.
    pub fn nanos(&self) -> (n: u32)
        ensures
            n == self.nanoseconds(),
    {
        self.nanos
    }

    /// The text of this point in time as chrono's `Display` writes a `NaiveDateTime`.
    pub fn text(&self) -> (s: String)
        ensures
            s@ == datetime_text(*self),
    {
        proof {
            use_type_invariant(self);
        }
        naive_datetime_display(self.secs, self.nanos)
    }
}


/// The points in time that exist: seconds from -8334601228800 (-262143-01-01 00:00:00)
/// to 8210266876799 (+262142-12-31 23:59:59); below one second of nanoseconds any such
/// second, and from one to two seconds of nanoseconds (a leap second) only the last second
/// of a minute.
pub proof fn lemma_timestamp_range(secs: int, nanos: int)
    ensures
        0 <= nanos < 1_000_000_000 ==> (timestamp_in_range(secs, nanos) <==> -8334601228800
            <= secs <= 8210266876799),
        1_000_000_000 <= nanos < 2_000_000_000 ==> (timestamp_in_range(secs, nanos) <==> (
        -8334601228800 <= secs <= 8210266876799 && secs % 60 == 59)),
        nanos < 0 || nanos >= 2_000_000_000 ==> !timestamp_in_range(secs, nanos),
{
}

/// The text of a point in time is chrono's text for its own seconds and nanoseconds.
pub proof fn lemma_datetime_text_of(t: Timestamp)
    ensures
        datetime_text(t) == naive_datetime_text(t.seconds(), t.nanoseconds()),
{
}

} // verus!
