//! The decision half of every reservation operation.
//!
//! Each operation is a single store round trip.  What the operation
//! decides — input validation, the parameters it hands the store, and how
//! the store's outcome is read back — lives here and is verified; the
//! round trip itself (connection handling, statement execution) stays
//! with the caller that owns the store handle.  No operation retries, and
//! every store failure is classified exactly once.
use vstd::prelude::*;
use vstd::string::StrSliceExecFns;
use crate::error::Error;
use crate::error::StoreFault;
use crate::error::classify_store_fault;
use crate::error::spec_classified;
use crate::status::ReservationStatus;
use crate::status::spec_status_name;
use crate::status::spec_status_of_code;
use crate::text::chars_of;
use crate::time::Timestamp;
use crate::time::spec_to_instant;
use crate::types::Reservation;
use crate::window::TimeBound;
use crate::window::TimeRange;
use crate::window::TimeSpan;

verus! {

/// An empty filter string means "unset": the filter is a wildcard, not a
/// match against the empty string.
pub fn str_to_option(s: &str) -> (r: Option<&str>)
    ensures
        (match r {
            None => s@.len() == 0,
            Some(t) => t@ == s@ && s@.len() > 0,
        }),
{
    if s.is_empty() {
        None
    } else {
        Some(s)
    }
}

// ---------------------------------------------------------------------------
// The identifier shape every keyed operation checks first.
// ---------------------------------------------------------------------------

pub open spec fn is_hex_char(c: char) -> bool {
    (48 <= c as u32 && c as u32 <= 57) || (97 <= c as u32 && c as u32 <= 102) || (65 <= c as u32
        && c as u32 <= 70)
}

pub open spec fn all_hex(s: Seq<char>) -> bool {
    forall|i: int| 0 <= i < s.len() ==> is_hex_char(#[trigger] s[i])
}

/// The 32-digit identifier form.
pub open spec fn spec_is_simple_uuid(s: Seq<char>) -> bool {
    s.len() == 32 && all_hex(s)
}

/// The hyphenated 8-4-4-4-12 identifier form.
pub open spec fn spec_is_hyphenated_uuid(s: Seq<char>) -> bool {
    &&& s.len() == 36
    &&& s[8] == '-'
    &&& s[13] == '-'
    &&& s[18] == '-'
    &&& s[23] == '-'
    &&& all_hex(s.subrange(0, 8))
    &&& all_hex(s.subrange(9, 13))
    &&& all_hex(s.subrange(14, 18))
    &&& all_hex(s.subrange(19, 23))
    &&& all_hex(s.subrange(24, 36))
}

/// The braced hyphenated form.
pub open spec fn spec_is_braced_uuid(s: Seq<char>) -> bool {
    &&& s.len() == 38
    &&& s[0] == '{'
    &&& s[37] == '}'
    &&& spec_is_hyphenated_uuid(s.subrange(1, 37))
}

/// The URN form: a case-insensitive `urn:uuid:` prefix before the
/// hyphenated form.
pub open spec fn spec_is_urn_uuid(s: Seq<char>) -> bool {
    &&& s.len() == 45
    &&& (s[0] == 'u' || s[0] == 'U')
    &&& (s[1] == 'r' || s[1] == 'R')
    &&& (s[2] == 'n' || s[2] == 'N')
    &&& s[3] == ':'
    &&& (s[4] == 'u' || s[4] == 'U')
    &&& (s[5] == 'u' || s[5] == 'U')
    &&& (s[6] == 'i' || s[6] == 'I')
    &&& (s[7] == 'd' || s[7] == 'D')
    &&& s[8] == ':'
    &&& spec_is_hyphenated_uuid(s.subrange(9, 45))
}

/// The textual identifier shapes the identifier parser accepts.
pub open spec fn spec_is_uuid(s: Seq<char>) -> bool {
    spec_is_simple_uuid(s) || spec_is_hyphenated_uuid(s) || spec_is_braced_uuid(s)
        || spec_is_urn_uuid(s)
}

fn is_hex_char_exec(c: char) -> (r: bool)
    ensures
        r == is_hex_char(c),
{
    let u = c as u32;
    (48 <= u && u <= 57) || (97 <= u && u <= 102) || (65 <= u && u <= 70)
}

fn all_hex_exec(v: &Vec<char>, from: usize, to: usize) -> (r: bool)
    requires
        from <= to <= v@.len(),
    ensures
        r == all_hex(v@.subrange(from as int, to as int)),
{
    let mut i = from;
    while i < to
        invariant
            from <= i <= to <= v@.len(),
            forall|j: int| from <= j < i ==> is_hex_char(#[trigger] v@[j]),
        decreases to - i,
    {
        if !is_hex_char_exec(v[i]) {
            proof {
                assert(v@.subrange(from as int, to as int)[i - from] == v@[i as int]);
            }
            return false;
        }
        i = i + 1;
    }
    proof {
        assert forall|k: int| 0 <= k < to - from implies is_hex_char(
            #[trigger] v@.subrange(from as int, to as int)[k],
        ) by {
            assert(v@.subrange(from as int, to as int)[k] == v@[from + k]);
        }
    }
    true
}

fn is_hyphenated_at(v: &Vec<char>, from: usize) -> (r: bool)
    requires
        from + 36 <= v@.len(),
    ensures
        r == spec_is_hyphenated_uuid(v@.subrange(from as int, from as int + 36)),
{
    let n = v.len();
    let ghost sub = v@.subrange(from as int, from as int + 36);
    proof {
        assert(from + 36 <= n);
        assert(sub[8] == v@[from as int + 8]);
        assert(sub[13] == v@[from as int + 13]);
        assert(sub[18] == v@[from as int + 18]);
        assert(sub[23] == v@[from as int + 23]);
        assert(sub.subrange(0, 8) =~= v@.subrange(from as int, from as int + 8));
        assert(sub.subrange(9, 13) =~= v@.subrange(from as int + 9, from as int + 13));
        assert(sub.subrange(14, 18) =~= v@.subrange(from as int + 14, from as int + 18));
        assert(sub.subrange(19, 23) =~= v@.subrange(from as int + 19, from as int + 23));
        assert(sub.subrange(24, 36) =~= v@.subrange(from as int + 24, from as int + 36));
    }
    if !(v[from + 8] == '-' && v[from + 13] == '-' && v[from + 18] == '-' && v[from + 23] == '-') {
        return false;
    }
    let hex_ok = all_hex_exec(v, from, from + 8) && all_hex_exec(v, from + 9, from + 13)
        && all_hex_exec(v, from + 14, from + 18) && all_hex_exec(v, from + 19, from + 23)
        && all_hex_exec(v, from + 24, from + 36);
    hex_ok
}

/// The identifier shape check every keyed operation makes before its
/// round trip: exactly the accepted shapes pass; anything else is
/// rejected as InvalidReservationId carrying the offending value.
pub fn check_reservation_id(id: &str) -> (r: Result<(), Error>)
    ensures
        (match r {
            Ok(_) => spec_is_uuid(id@),
            Err(e) => !spec_is_uuid(id@) && (match e {
                Error::InvalidReservationId(x) => x@ == id@,
                _ => false,
            }),
        }),
{
    let v = chars_of(id);
    let n = v.len();
    let ok: bool = if n == 32 {
        all_hex_exec(&v, 0, 32)
    } else if n == 36 {
        is_hyphenated_at(&v, 0)
    } else if n == 38 {
        v[0] == '{' && v[37] == '}' && is_hyphenated_at(&v, 1)
    } else if n == 45 {
        (v[0] == 'u' || v[0] == 'U') && (v[1] == 'r' || v[1] == 'R') && (v[2] == 'n' || v[2]
            == 'N') && v[3] == ':' && (v[4] == 'u' || v[4] == 'U') && (v[5] == 'u' || v[5] == 'U')
            && (v[6] == 'i' || v[6] == 'I') && (v[7] == 'd' || v[7] == 'D') && v[8] == ':'
            && is_hyphenated_at(&v, 9)
    } else {
        false
    };
    proof {
        if n == 32 {
            assert(v@.subrange(0, 32) =~= v@);
        }
        if n == 36 {
            assert(v@.subrange(0, 36) =~= v@);
        }
    }
    if ok {
        Ok(())
    } else {
        Err(Error::InvalidReservationId(id.to_owned()))
    }
}

// ---------------------------------------------------------------------------
// Create.
// ---------------------------------------------------------------------------

/// Everything the create hands the store in its single constrained
/// insert: the record's fields, the window as a half-open span, and the
/// status under its store-side name.
pub struct InsertParams {
    pub user_id: String,
    pub resource_id: String,
    pub timespan: TimeSpan,
    pub note: String,
    pub status_name: String,
}

/// What a create decides before its round trip: a malformed record is
/// rejected with the exact validation error and never reaches the store;
/// a well-formed one yields the insert parameters, the status name
/// falling back to pending on an unrecognized code.  Conflict detection
/// itself is not decided here: the store's non-overlap constraint is the
/// sole arbiter, because a check-then-insert read would race.
pub fn prepare_reserve(rsvp: &Reservation) -> (r: Result<InsertParams, Error>)
    requires
        rsvp.user_id@.len() > 0 && rsvp.resource_id@.len() > 0 && rsvp.start is Some
            && rsvp.end is Some ==> rsvp.bounds_convertible(),
    ensures
        (match rsvp.spec_validate() {
            Err(e) => (match r {
                Err(x) => x == e,
                Ok(_) => false,
            }),
            Ok(_) => (match r {
                Ok(p) => {
                    &&& p.user_id@ == rsvp.user_id@
                    &&& p.resource_id@ == rsvp.resource_id@
                    &&& p.timespan.start == spec_to_instant(rsvp.start.unwrap())
                    &&& p.timespan.end == spec_to_instant(rsvp.end.unwrap())
                    &&& p.timespan.wf()
                    &&& p.note@ == rsvp.note@
                    &&& p.status_name@ == spec_status_name(
                        (match spec_status_of_code(rsvp.status as int) {
                            Some(s) => s,
                            None => ReservationStatus::Pending,
                        }),
                    )
                },
                Err(_) => false,
            }),
        }),
{
    if let Err(e) = rsvp.validate() {
        return Err(e);
    }
    let timespan = rsvp.get_timespan();
    let status = ReservationStatus::from_code_or_pending(rsvp.status);
    Ok(
        InsertParams {
            user_id: rsvp.user_id.clone(),
            resource_id: rsvp.resource_id.clone(),
            timespan,
            note: rsvp.note.clone(),
            status_name: status.name(),
        },
    )
}

/// Completes a successful create: the record is returned as submitted,
/// now carrying the store-assigned identifier.
pub fn complete_reserve(rsvp: Reservation, id: String) -> (r: Reservation)
    ensures
        r.id@ == id@,
        r.user_id@ == rsvp.user_id@,
        r.resource_id@ == rsvp.resource_id@,
        r.status == rsvp.status,
        r.start == rsvp.start,
        r.end == rsvp.end,
        r.note@ == rsvp.note@,
{
    let mut r = rsvp;
    r.id = id;
    r
}

// ---------------------------------------------------------------------------
// Reading a round trip's outcome back.
// ---------------------------------------------------------------------------

/// Classifies the outcome of a round trip that was to return exactly one
/// row: the fetched row passes through; the store's no-row signal
/// becomes NotFound; any other fault is classified once.  The confirm,
/// note-update and fetch operations all read their outcome this way — in
/// particular, a confirm whose conditional update matched no Pending row
/// surfaces as NotFound, never as silent success.
pub fn finish_fetch_one(outcome: Result<Reservation, StoreFault>) -> (r: Result<
    Reservation,
    Error,
>)
    ensures
        (match outcome {
            Ok(res) => r == Ok::<Reservation, Error>(res),
            Err(f) => (match r {
                Err(e) => spec_classified(f, e),
                Ok(_) => false,
            }),
        }),
{
    match outcome {
        Ok(res) => Ok(res),
        Err(f) => Err(classify_store_fault(f)),
    }
}

/// Classifies the outcome of the delete round trip.  Deleting a missing
/// identifier is success: the store reports no fault for zero affected
/// rows, and delete does not distinguish "already gone" from "just
/// removed".
pub fn finish_delete(outcome: Result<(), StoreFault>) -> (r: Result<(), Error>)
    ensures
        (match outcome {
            Ok(_) => r is Ok,
            Err(f) => (match r {
                Err(e) => spec_classified(f, e),
                Ok(_) => false,
            }),
        }),
{
    match outcome {
        Ok(_) => Ok(()),
        Err(f) => Err(classify_store_fault(f)),
    }
}

// ---------------------------------------------------------------------------
// Query.
// ---------------------------------------------------------------------------

/// The filter a caller hands `query`: empty strings are wildcards, a
/// missing window bound leaves that side unbounded.
#[derive(Clone, Debug)]
pub struct ReservationQuery {
    pub user_id: String,
    pub resource_id: String,
    pub status: i32,
    pub start: Option<Timestamp>,
    pub end: Option<Timestamp>,
    pub page: u32,
    pub page_size: u32,
    pub desc: bool,
}

/// The seven parameters the store's query entry point takes.
pub struct QueryParams {
    pub user_id: Option<String>,
    pub resource_id: Option<String>,
    pub range: TimeRange,
    pub status_name: String,
    pub page: u32,
    pub page_size: u32,
    pub desc: bool,
}

/// Resolves a filter for the store: empty identifier filters become
/// wildcards, the window becomes a half-open range with missing bounds
/// left unbounded, the status falls back to pending on an unrecognized
/// code, and paging and ordering pass through unchanged.
pub fn prepare_query(q: &ReservationQuery) -> (r: QueryParams)
    requires
        (q.start matches Some(t) ==> t.convertible()),
        (q.end matches Some(t) ==> t.convertible()),
    ensures
        (match r.user_id {
            Some(u) => u@ == q.user_id@ && q.user_id@.len() > 0,
            None => q.user_id@.len() == 0,
        }),
        (match r.resource_id {
            Some(u) => u@ == q.resource_id@ && q.resource_id@.len() > 0,
            None => q.resource_id@.len() == 0,
        }),
        r.range.start == (match q.start {
            Some(t) => TimeBound::Included(spec_to_instant(t)),
            None => TimeBound::Unbounded,
        }),
        r.range.end == (match q.end {
            Some(t) => TimeBound::Excluded(spec_to_instant(t)),
            None => TimeBound::Unbounded,
        }),
        r.status_name@ == spec_status_name(
            (match spec_status_of_code(q.status as int) {
                Some(s) => s,
                None => ReservationStatus::Pending,
            }),
        ),
        r.page == q.page,
        r.page_size == q.page_size,
        r.desc == q.desc,
{
    let user_id = match str_to_option(q.user_id.as_str()) {
        Some(_) => Some(q.user_id.clone()),
        None => None,
    };
    let resource_id = match str_to_option(q.resource_id.as_str()) {
        Some(_) => Some(q.resource_id.clone()),
        None => None,
    };
    let start = match q.start {
        Some(t) => TimeBound::Included(crate::time::convert_to_utc_time(t)),
        None => TimeBound::Unbounded,
    };
    let end = match q.end {
        Some(t) => TimeBound::Excluded(crate::time::convert_to_utc_time(t)),
        None => TimeBound::Unbounded,
    };
    let status = ReservationStatus::from_code_or_pending(q.status);
    QueryParams {
        user_id,
        resource_id,
        range: TimeRange { start, end },
        status_name: status.name(),
        page: q.page,
        page_size: q.page_size,
        desc: q.desc,
    }
}

} // verus!
