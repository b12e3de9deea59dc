//! Instants in UTC, held as whole seconds since the Unix epoch and the
//! nanoseconds past that second (`DateTime::timestamp` and
//! `DateTime::timestamp_subsec_nanos`).

use vstd::prelude::*;

verus! {

/// Whether `chrono::DateTime::from_timestamp(secs, nanos)` returns a value:
/// the day must lie from -262143-01-01 to 262142-12-31 (chrono's year range),
/// and the nanoseconds must be below one second, or below two seconds on the
/// last second of a minute (a leap second).
pub open spec fn chrono_accepts(secs: i64, nanos: u32) -> bool {
    &&& -8_334_601_228_800 <= secs <= 8_210_266_876_799
    &&& (nanos < 1_000_000_000 || (nanos < 2_000_000_000 && secs % 60 == 59))
}

/// What `to_rfc3339` writes for the instant `from_timestamp(secs, nanos)`.
pub uninterp spec fn rfc3339_text(secs: i64, nanos: u32) -> Seq<char>;

/// The instant that `chrono::DateTime::parse_from_rfc3339` reads from a text,
/// as (seconds, nanoseconds), or `None` where it refuses the text.
pub uninterp spec fn rfc3339_instant(text: Seq<char>) -> Option<(i64, u32)>;

/// Asks `chrono::DateTime::from_timestamp` whether it accepts the parts.
///
/// Trusted: the answer is `chrono_accepts`, which restates the checks of
/// `from_timestamp`, `NaiveDate::from_num_days_from_ce_opt` and
/// `NaiveTime::from_num_seconds_from_midnight_opt`.
#[verifier::external_body]
fn chrono_accepts_parts(secs: i64, nanos: u32) -> (r: bool)
    ensures
        r == chrono_accepts(secs, nanos),
{
    chrono::DateTime::from_timestamp(secs, nanos).is_some()
}

/// Reads the clock with `chrono::Utc::now`.
///
/// Trusted: the result depends on the clock. `now` builds its value with
/// `from_timestamp` from a duration since the epoch, so its parts are
/// accepted and the nanoseconds are below one second.
#[verifier::external_body]
fn utc_now_parts() -> (r: (i64, u32))
    ensures
        chrono_accepts(r.0, r.1),
        r.1 < 1_000_000_000,
{
    let now = chrono::Utc::now();
    (now.timestamp(), now.timestamp_subsec_nanos())
}

/// Writes an instant with `chrono::DateTime::to_rfc3339`.
///
/// Trusted: the text is named `rfc3339_text`.
#[verifier::external_body]
fn rfc3339_of_parts(secs: i64, nanos: u32) -> (r: String)
    requires
        chrono_accepts(secs, nanos),
    ensures
        r@ == rfc3339_text(secs, nanos),
{
    chrono::DateTime::from_timestamp(secs, nanos).unwrap().to_rfc3339()
}

/// Whether an instant lies in the years 0 to 9999, which RFC 3339 writes
/// with four digits.
pub open spec fn in_rfc3339_years(secs: i64) -> bool {
    -62_167_219_200 <= secs <= 253_402_300_799
}

/// Reads an instant with `chrono::DateTime::parse_from_rfc3339`.
///
/// Trusted: the result is named `rfc3339_instant`; a parsed value is a
/// `DateTime`, whose parts `from_timestamp` takes back (chrono documents that
/// round trip). The text `to_rfc3339` writes for an instant in the years 0 to
/// 9999 is RFC 3339 (`write_rfc3339` in chrono's source) and reads back as
/// that instant, a leap second included.
#[verifier::external_body]
fn rfc3339_parse_parts(text: &str) -> (r: Option<(i64, u32)>)
    ensures
        r == rfc3339_instant(text@),
        r matches Some(p) ==> chrono_accepts(p.0, p.1),
        forall|secs: i64, nanos: u32|
            #[trigger] rfc3339_text(secs, nanos) == text@ && chrono_accepts(secs, nanos) && in_rfc3339_years(secs)
                ==> r == Some((secs, nanos)),
{
    match chrono::DateTime::parse_from_rfc3339(text) {
        Ok(d) => Some((d.timestamp(), d.timestamp_subsec_nanos())),
        Err(_) => None,
    }
}

/// An instant that `chrono::DateTime<Utc>` can hold.
#[derive(Clone, Copy, Debug, PartialEq, Eq)]
pub struct Timestamp {
    secs: i64,
    nanos: u32,
}

impl View for Timestamp {
    type V = (i64, u32);

    closed spec fn view(&self) -> (i64, u32) {
        (self.secs, self.nanos)
    }
}

impl Timestamp {
    #[verifier::type_invariant]
    spec fn representable(self) -> bool {
        chrono_accepts(self.secs, self.nanos)
    }

    /// The instant with these parts, where chrono can hold it.
    pub fn from_parts(secs: i64, nanos: u32) -> (r: Option<Timestamp>)
        ensures
            r is Some <==> chrono_accepts(secs, nanos),
            r matches Some(t) ==> t@ == (secs, nanos),
            nanos < 1_000_000_000 && -8_000_000_000_000 <= secs <= 8_000_000_000_000 ==> r is Some,
    {
        if chrono_accepts_parts(secs, nanos) {
            Some(Timestamp { secs, nanos })
        } else {
            None
        }
    }

    /// The Unix epoch, 1970-01-01T00:00:00Z (`DateTime::<Utc>::default()`).
    pub fn epoch() -> (r: Timestamp)
        ensures
            r@ == (0i64, 0u32),
    {
        let t = Self::from_parts(0, 0);
        t.unwrap()
    }

    /// The current instant (`chrono::Utc::now()`).
    pub fn now() -> (r: Timestamp)
        ensures
            chrono_accepts(r@.0, r@.1),
            r@.1 < 1_000_000_000,
    {
        let (secs, nanos) = utc_now_parts();
        Timestamp { secs, nanos }
    }

    /// Whole seconds since the Unix epoch.
    pub fn secs(&self) -> (r: i64)
        ensures
            r == self@.0,
    {
        self.secs
    }

    /// Nanoseconds past the whole second.
    pub fn nanos(&self) -> (r: u32)
        ensures
            r == self@.1,
    {
        self.nanos
    }

    /// The RFC 3339 text of this instant (`DateTime::to_rfc3339`).
    pub fn to_rfc3339(&self) -> (r: String)
        ensures
            r@ == rfc3339_text(self@.0, self@.1),
            chrono_accepts(self@.0, self@.1),
    {
        proof {
            use_type_invariant(self);
        }
        rfc3339_of_parts(self.secs, self.nanos)
    }

    /// Reads an RFC 3339 text, or gives the epoch where the text is not one
    /// (`parse_from_rfc3339(..).map(..).unwrap_or_default()`). The text of an
    /// instant in the years 0 to 9999 reads back as that instant.
    pub fn parse_rfc3339_or_epoch(text: &str) -> (r: Timestamp)
        ensures
            r@ == match rfc3339_instant(text@) {
                Some(p) => p,
                None => (0i64, 0u32),
            },
            forall|secs: i64, nanos: u32|
                #[trigger] rfc3339_text(secs, nanos) == text@ && chrono_accepts(secs, nanos) && in_rfc3339_years(secs)
                    ==> r@ == (secs, nanos),
    {
        Self::parsed_or_epoch(rfc3339_parse_parts(text))
    }

    /// The instant that a parse gave, or the epoch where it gave none.
    pub fn parsed_or_epoch(parsed: Option<(i64, u32)>) -> (r: Timestamp)
        requires
            parsed matches Some(p) ==> chrono_accepts(p.0, p.1),
        ensures
            r@ == match parsed {
                Some(p) => p,
                None => (0i64, 0u32),
            },
    {
        match parsed {
            Some((secs, nanos)) => Timestamp { secs, nanos },
            None => Self::epoch(),
        }
    }
}

} // verus!
