//! Server-assigned event times and their canonical text.

use chrono::{DateTime, SecondsFormat, Utc};
use vstd::prelude::*;

verus! {

/// Earliest instant a [`Timestamp`] can hold, in milliseconds since the Unix
/// epoch: midnight on the first day of the year -262143.
pub const MIN_MILLIS: i64 = -8_334_601_228_800_000;

/// Latest instant a [`Timestamp`] can hold, in milliseconds since the Unix
/// epoch: the last millisecond of the year 262142.
pub const MAX_MILLIS: i64 = 8_210_266_876_799_999;

/// Whether `millis` lies in the range of instants that a UTC date-time of
/// `chrono` can represent.
pub open spec fn representable(millis: int) -> bool {
    MIN_MILLIS <= millis <= MAX_MILLIS
}

/// The canonical text of the instant `millis` milliseconds after the Unix
/// epoch: what `chrono` writes for it in RFC 3339 form, in UTC with the `Z`
/// suffix, with no fractional digits when the instant falls on a whole second
/// and three otherwise.
pub uninterp spec fn canonical_text(millis: int) -> Seq<char>;

/// An instant at millisecond precision, as the upstream feed stamps its
/// messages.
#[derive(Clone, Copy, Debug, PartialEq, Eq)]
pub struct Timestamp {
    millis: i64,
}

impl View for Timestamp {
    type V = int;

    /// Milliseconds since the Unix epoch.
    closed spec fn view(&self) -> int {
        self.millis as int
    }
}

impl Timestamp {
    /// Every timestamp is representable.
    #[verifier::type_invariant]
    closed spec fn in_range(self) -> bool {
        representable(self.millis as int)
    }

    /// The timestamp `millis` milliseconds after the Unix epoch, or `None`
    /// when that instant is outside the representable range.
    pub fn from_millis(millis: i64) -> (timestamp: Option<Timestamp>)
        ensures
            representable(millis as int) <==> timestamp is Some,
            timestamp matches Some(t) ==> t@ == millis,
    {
        if MIN_MILLIS <= millis && millis <= MAX_MILLIS {
            Some(Timestamp { millis })
        } else {
            None
        }
    }

    /// Milliseconds since the Unix epoch.
    pub fn millis(&self) -> (millis: i64)
        ensures
            millis == self@,
            representable(millis as int),
    {
        proof {
            use_type_invariant(self);
        }
        self.millis
    }

    /// The canonical text of this instant.
    pub fn to_text(&self) -> (text: String)
        ensures
            text@ == canonical_text(self@),
    {
        proof {
            use_type_invariant(self);
        }
        rfc3339_utc(self.millis)
    }
}

/// Renders an instant with `chrono`: `DateTime::<Utc>::from_timestamp_millis`
/// builds the date-time, which exists for every representable `millis`, and
/// `DateTime::to_rfc3339_opts` with `SecondsFormat::AutoSi` and `use_z` set
/// writes it. The contract claims only that the text is a function of
/// `millis`, named [`canonical_text`].
#[verifier::external_body]
fn rfc3339_utc(millis: i64) -> (text: String)
    requires
        representable(millis as int),
    ensures
        text@ == canonical_text(millis as int),
{
    match DateTime::<Utc>::from_timestamp_millis(millis) {
        Some(instant) => instant.to_rfc3339_opts(SecondsFormat::AutoSi, true),
        None => String::new(),
    }
}

} // verus!
