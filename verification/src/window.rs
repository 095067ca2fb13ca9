//! Half-open time windows and the store's native range representation.
//!
//! A reservation claims the half-open interval `[start, end)`.  The store
//! keeps it as a range whose bounds may each be inclusive, exclusive or
//! unbounded; an unbounded bound can never come from a reservation, so its
//! appearance on the way back is stored-data corruption, not a default.
use vstd::prelude::*;
use crate::time::UtcTime;

verus! {

/// A half-open window `[start, end)` over the UTC timeline.
#[derive(Clone, Copy, Debug, PartialEq, Eq, Structural)]
pub struct TimeSpan {
    pub start: UtcTime,
    pub end: UtcTime,
}

impl TimeSpan {
    /// A window is well-formed when it is strictly forward: equal bounds
    /// are invalid, not zero-length.
    pub open spec fn wf(self) -> bool {
        self.start.spec_lt(self.end)
    }
}

/// One bound of the store's native range type.
#[derive(Clone, Copy, Debug, PartialEq, Eq, Structural)]
pub enum TimeBound {
    Included(UtcTime),
    Excluded(UtcTime),
    Unbounded,
}

/// The store's native range shape: two independent bounds.
#[derive(Clone, Copy, Debug, PartialEq, Eq, Structural)]
pub struct TimeRange {
    pub start: TimeBound,
    pub end: TimeBound,
}

/// A range with each bound flattened to the instant it names, if any.
#[derive(Clone, Copy, Debug, PartialEq, Eq, Structural)]
pub struct NativeRange {
    pub start: Option<UtcTime>,
    pub end: Option<UtcTime>,
}

/// The instant a native bound names; an unbounded bound names none.
pub open spec fn spec_flatten_bound(b: TimeBound) -> Option<UtcTime> {
    match b {
        TimeBound::Included(t) => Some(t),
        TimeBound::Excluded(t) => Some(t),
        TimeBound::Unbounded => None,
    }
}

/// The native range a half-open window maps to.
pub open spec fn spec_window_to_range(w: TimeSpan) -> TimeRange {
    TimeRange { start: TimeBound::Included(w.start), end: TimeBound::Excluded(w.end) }
}

/// The window a native range maps back to, when both bounds are present.
pub open spec fn spec_range_to_window(r: TimeRange) -> Option<TimeSpan> {
    match (spec_flatten_bound(r.start), spec_flatten_bound(r.end)) {
        (Some(s), Some(e)) => Some(TimeSpan { start: s, end: e }),
        _ => None,
    }
}

impl TimeSpan {
    /// Maps the window onto the store's native range: inclusive start,
    /// exclusive end, half-open semantics kept.
    pub fn to_range(&self) -> (r: TimeRange)
        ensures
            r == spec_window_to_range(*self),
    {
        TimeRange { start: TimeBound::Included(self.start), end: TimeBound::Excluded(self.end) }
    }

    /// Reads a native range back as a window.  `None` reports a range with
    /// an unbounded bound, which no reservation can have produced.
    pub fn from_range(r: TimeRange) -> (w: Option<TimeSpan>)
        ensures
            w == spec_range_to_window(r),
    {
        let nr = NativeRange::from(r);
        match (nr.start, nr.end) {
            (Some(s), Some(e)) => Some(TimeSpan { start: s, end: e }),
            _ => None,
        }
    }
}

impl From<TimeRange> for NativeRange {
    /// Flattens each bound of the native range, keeping the instant of an
    /// inclusive or exclusive bound and dropping an unbounded one.
    fn from(range: TimeRange) -> (r: NativeRange) {
        let start = match range.start {
            TimeBound::Included(t) => Some(t),
            TimeBound::Excluded(t) => Some(t),
            TimeBound::Unbounded => None,
        };
        let end = match range.end {
            TimeBound::Included(t) => Some(t),
            TimeBound::Excluded(t) => Some(t),
            TimeBound::Unbounded => None,
        };
        NativeRange { start, end }
    }
}

impl vstd::std_specs::convert::FromSpecImpl<TimeRange> for NativeRange {
    open spec fn obeys_from_spec() -> bool {
        true
    }

    open spec fn from_spec(range: TimeRange) -> NativeRange {
        NativeRange {
            start: spec_flatten_bound(range.start),
            end: spec_flatten_bound(range.end),
        }
    }
}

/// A well-formed half-open window survives the trip through the store's
/// native range representation unchanged.
pub proof fn lemma_window_range_round_trip(w: TimeSpan)
    ensures
        spec_range_to_window(spec_window_to_range(w)) == Some(w),
{
}

} // verus!
