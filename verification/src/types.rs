//! The reservation record, its validation and its window conversions.
use vstd::prelude::*;
use crate::error::Error;
use crate::error::StoreFault;
use crate::status::ReservationStatus;
use crate::status::spec_status_code;
use crate::status::spec_status_of_name;
use crate::time::Timestamp;
use crate::time::UtcTime;
use crate::time::convert_to_timestamp;
use crate::time::convert_to_utc_time;
use crate::time::spec_to_instant;
use crate::time::spec_to_wire;
use crate::window::TimeRange;
use crate::window::TimeSpan;
use crate::window::spec_flatten_bound;

verus! {

/// The reservation record as it crosses the boundary: the identifier is
/// empty until the store assigns one, the status is the wire code, and
/// the window bounds are wire timestamps, each possibly absent.
#[derive(Clone, Debug)]
pub struct Reservation {
    pub id: String,
    pub user_id: String,
    pub resource_id: String,
    pub status: i32,
    pub start: Option<Timestamp>,
    pub end: Option<Timestamp>,
    pub note: String,
}

impl Reservation {
    /// Whether the window bounds, where present, denote instants.  The
    /// validator and the window conversions read the bounds as instants
    /// and ask for this much.
    pub open spec fn bounds_convertible(self) -> bool {
        &&& (self.start matches Some(t) ==> t.convertible())
        &&& (self.end matches Some(t) ==> t.convertible())
    }

    /// The exact validation outcome: the first failing check in the
    /// documented order, or success.  An empty user rejects before an
    /// empty resource, both before the window checks; a missing bound
    /// and a backward or empty window both reject as InvalidTime.
    pub open spec fn spec_validate(self) -> Result<(), Error> {
        if self.user_id@.len() == 0 {
            Err(Error::InvalidUserId(self.user_id))
        } else if self.resource_id@.len() == 0 {
            Err(Error::InvalidResourceId(self.resource_id))
        } else if self.start is None || self.end is None {
            Err(Error::InvalidTime)
        } else if !spec_to_instant(self.start.unwrap()).spec_lt(
            spec_to_instant(self.end.unwrap()),
        ) {
            Err(Error::InvalidTime)
        } else {
            Ok(())
        }
    }

    /// Builds a record not yet persisted: empty identifier, Pending
    /// status, the window written in the wire shape.
    pub fn new_pending(
        uid: String,
        rid: String,
        start: UtcTime,
        end: UtcTime,
        note: String,
    ) -> (r: Reservation)
        requires
            start.wf(),
            end.wf(),
        ensures
            r.id@.len() == 0,
            r.user_id@ == uid@,
            r.resource_id@ == rid@,
            r.status as int == spec_status_code(ReservationStatus::Pending),
            r.start == Some(spec_to_wire(start)),
            r.end == Some(spec_to_wire(end)),
            r.note@ == note@,
            r.bounds_convertible(),
    {
        Reservation {
            id: String::new(),
            user_id: uid,
            resource_id: rid,
            status: ReservationStatus::Pending.code(),
            start: Some(convert_to_timestamp(start)),
            end: Some(convert_to_timestamp(end)),
            note,
        }
    }

    /// Checks the record before any store interaction; pure, and exact:
    /// precisely the malformed records are rejected, each with the error
    /// naming the first failing check.
    pub fn validate(&self) -> (r: Result<(), Error>)
        requires
            self.user_id@.len() > 0 && self.resource_id@.len() > 0 && self.start is Some
                && self.end is Some ==> self.bounds_convertible(),
        ensures
            r == self.spec_validate(),
    {
        if self.user_id.as_str().is_empty() {
            return Err(Error::InvalidUserId(self.user_id.clone()));
        }
        if self.resource_id.as_str().is_empty() {
            return Err(Error::InvalidResourceId(self.resource_id.clone()));
        }
        let (s, e) = match (self.start, self.end) {
            (Some(s), Some(e)) => (s, e),
            _ => {
                return Err(Error::InvalidTime);
            },
        };
        let st = convert_to_utc_time(s);
        let en = convert_to_utc_time(e);
        if !st.lt(&en) {
            return Err(Error::InvalidTime);
        }
        Ok(())
    }

    /// The record's window as a half-open span of instants.  Both bounds
    /// must be present and denote instants; validation checks that first.
    pub fn get_timespan(&self) -> (r: TimeSpan)
        requires
            self.start is Some,
            self.end is Some,
            self.bounds_convertible(),
        ensures
            r.start == spec_to_instant(self.start.unwrap()),
            r.end == spec_to_instant(self.end.unwrap()),
    {
        let s = match self.start {
            Some(s) => s,
            None => {
                unreached()
            },
        };
        let e = match self.end {
            Some(e) => e,
            None => {
                unreached()
            },
        };
        TimeSpan { start: convert_to_utc_time(s), end: convert_to_utc_time(e) }
    }

    /// Rebuilds a record from the columns of a fetched row.  A range with
    /// an unbounded bound cannot come from a stored reservation: it is
    /// reported as a store-layer fault, never defaulted.  The status
    /// arrives as the store's enumeration name and decodes defensively.
    pub fn from_row(
        id: String,
        user_id: String,
        resource_id: String,
        status_name: &str,
        range: TimeRange,
        note: String,
    ) -> (r: Result<Reservation, Error>)
        requires
            (spec_flatten_bound(range.start) matches Some(t) ==> t.wf()),
            (spec_flatten_bound(range.end) matches Some(t) ==> t.wf()),
        ensures
            (match (spec_flatten_bound(range.start), spec_flatten_bound(range.end)) {
                (Some(s), Some(e)) => (match r {
                    Ok(res) => {
                        &&& res.id@ == id@
                        &&& res.user_id@ == user_id@
                        &&& res.resource_id@ == resource_id@
                        &&& res.status as int == spec_status_code(
                            spec_status_of_name(status_name@),
                        )
                        &&& res.start == Some(spec_to_wire(s))
                        &&& res.end == Some(spec_to_wire(e))
                        &&& res.note@ == note@
                    },
                    Err(_) => false,
                }),
                _ => r == Err::<Reservation, Error>(Error::DbError(StoreFault::Other)),
            }),
    {
        let nr = crate::window::NativeRange::from(range);
        let (s, e) = match (nr.start, nr.end) {
            (Some(s), Some(e)) => (s, e),
            _ => {
                return Err(Error::DbError(StoreFault::Other));
            },
        };
        let status = ReservationStatus::from_name(status_name);
        Ok(
            Reservation {
                id,
                user_id,
                resource_id,
                status: status.code(),
                start: Some(convert_to_timestamp(s)),
                end: Some(convert_to_timestamp(e)),
                note,
            },
        )
    }
}

/// A record whose identifiers are non-empty and whose window is present
/// and strictly forward validates: nothing else about it is asked.
pub proof fn lemma_valid_reservation_accepted(r: Reservation)
    requires
        r.user_id@.len() > 0,
        r.resource_id@.len() > 0,
        r.start is Some,
        r.end is Some,
        spec_to_instant(r.start.unwrap()).spec_lt(spec_to_instant(r.end.unwrap())),
    ensures
        r.spec_validate() == Ok::<(), Error>(()),
{
}

/// A record with non-empty identifiers whose window has a missing bound
/// or is not strictly forward fails validation with InvalidTime, so a
/// create is decided before any store work.  (With an empty identifier
/// the identifier check rejects first.)
pub proof fn lemma_invalid_window_rejected(r: Reservation)
    requires
        r.user_id@.len() > 0,
        r.resource_id@.len() > 0,
        r.start is None || r.end is None || !spec_to_instant(r.start.unwrap()).spec_lt(
            spec_to_instant(r.end.unwrap()),
        ),
    ensures
        r.spec_validate() == Err::<(), Error>(Error::InvalidTime),
{
}

} // verus!
