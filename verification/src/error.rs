//! The closed error taxonomy and the one place store failures are
//! classified into it.
//!
//! Classification keys off the structural identifier triple of a database
//! fault (code, schema, table), never off message text; the diagnostic
//! text is parsed only once the fault is already known to be the
//! non-overlap constraint.
use vstd::prelude::*;
use crate::conflict::ConflictView;
use crate::conflict::ReservationConflictInfo;
use crate::conflict::spec_conflict_of;
use crate::text::str_eq;

verus! {

/// A store-layer failure as the boundary hands it in: a database fault
/// with its structural identifier triple and diagnostic text, the no-row
/// signal, or anything else, kept opaque.
#[derive(Clone, Debug)]
pub enum StoreFault {
    Database {
        code: String,
        schema: Option<String>,
        table: Option<String>,
        detail: Option<String>,
    },
    RowNotFound,
    Other,
}

/// Everything that can go wrong, closed and matchable.
#[derive(Clone, Debug)]
pub enum Error {
    DbError(StoreFault),
    NotFound,
    InvalidTime,
    ConflictReservation(ReservationConflictInfo),
    InvalidUserId(String),
    InvalidReservationId(String),
    InvalidResourceId(String),
    Unknown,
}

/// The error surface of the operations layer.
#[derive(Clone, Debug)]
pub enum ReservationError {
    DbError(StoreFault),
    InvalidTime,
    Unknown,
}

impl From<StoreFault> for ReservationError {
    /// Wraps a store fault unchanged.
    fn from(f: StoreFault) -> (r: ReservationError) {
        ReservationError::DbError(f)
    }
}

impl vstd::std_specs::convert::FromSpecImpl<StoreFault> for ReservationError {
    open spec fn obeys_from_spec() -> bool {
        true
    }

    open spec fn from_spec(f: StoreFault) -> ReservationError {
        ReservationError::DbError(f)
    }
}

/// Whether a fault's identifier triple names the non-overlap constraint
/// on the reservations table.
pub open spec fn spec_is_overlap_fault(
    code: Seq<char>,
    schema: Option<Seq<char>>,
    table: Option<Seq<char>>,
) -> bool {
    &&& code == "23P01"@
    &&& schema == Some("rsvp"@)
    &&& table == Some("reservations"@)
}

pub open spec fn spec_opt_view(o: Option<String>) -> Option<Seq<char>> {
    match o {
        Some(s) => Some(s@),
        None => None,
    }
}

/// The diagnostic text a database fault carries; a missing detail parses
/// as the empty text.
pub open spec fn spec_detail_view(o: Option<String>) -> Seq<char> {
    match o {
        Some(s) => s@,
        None => ""@,
    }
}

/// Whether `info` is what parsing the diagnostic `s` yields: the
/// structured conflict when `s` matches the grammar, else `s` itself.
pub open spec fn spec_info_of(info: ReservationConflictInfo, s: Seq<char>) -> bool {
    match spec_conflict_of(s) {
        Some(cv) => (match info {
            ReservationConflictInfo::Parsed(c) => c@ == cv,
            ReservationConflictInfo::Unparsed(_) => false,
        }),
        None => (match info {
            ReservationConflictInfo::Parsed(_) => false,
            ReservationConflictInfo::Unparsed(u) => u@ == s,
        }),
    }
}

/// Whether `e` is the classification of the store fault `f`: the no-row
/// signal becomes NotFound; a database fault carrying the non-overlap
/// triple becomes a conflict with its diagnostic parsed; every other
/// fault is wrapped opaque.
pub open spec fn spec_classified(f: StoreFault, e: Error) -> bool {
    match f {
        StoreFault::RowNotFound => e == Error::NotFound,
        StoreFault::Database { code, schema, table, detail } => {
            if spec_is_overlap_fault(code@, spec_opt_view(schema), spec_opt_view(table)) {
                match e {
                    Error::ConflictReservation(info) => spec_info_of(info, spec_detail_view(detail)),
                    _ => false,
                }
            } else {
                e == Error::DbError(f)
            }
        },
        StoreFault::Other => e == Error::DbError(f),
    }
}

/// Classifies a store failure, exactly once, at the boundary.
pub fn classify_store_fault(f: StoreFault) -> (r: Error)
    ensures
        spec_classified(f, r),
{
    match f {
        StoreFault::RowNotFound => Error::NotFound,
        StoreFault::Database { code, schema, table, detail } => {
            let schema_ok = match &schema {
                Some(s) => str_eq(s.as_str(), "rsvp"),
                None => false,
            };
            let table_ok = match &table {
                Some(t) => str_eq(t.as_str(), "reservations"),
                None => false,
            };
            if str_eq(code.as_str(), "23P01") && schema_ok && table_ok {
                let d = match &detail {
                    Some(d) => d.as_str(),
                    None => "",
                };
                Error::ConflictReservation(ReservationConflictInfo::from_str(d))
            } else {
                Error::DbError(StoreFault::Database { code, schema, table, detail })
            }
        },
        StoreFault::Other => Error::DbError(StoreFault::Other),
    }
}

/// A store round trip that finds no row classifies as NotFound: a confirm
/// of an identifier that is no longer pending, and a get or a note update
/// of a missing one, all surface the same way.
pub proof fn lemma_no_row_is_not_found(e: Error)
    requires
        spec_classified(StoreFault::RowNotFound, e),
    ensures
        e == Error::NotFound,
{
}

/// A fault that carries the non-overlap identifier triple and a
/// diagnostic of the documented grammar classifies as a structured
/// conflict: the diagnostic's first key is the rejected new window, its
/// second the pre-existing old one.
pub proof fn lemma_overlap_fault_structured(f: StoreFault, e: Error, cv: ConflictView)
    requires
        spec_classified(f, e),
        (f matches StoreFault::Database { code, schema, table, detail } ==> {
            &&& spec_is_overlap_fault(code@, spec_opt_view(schema), spec_opt_view(table))
            &&& spec_conflict_of(spec_detail_view(detail)) == Some(cv)
        }),
        f is Database,
    ensures
        (match e {
            Error::ConflictReservation(info) => (match info {
                ReservationConflictInfo::Parsed(c) => c@ == cv,
                ReservationConflictInfo::Unparsed(_) => false,
            }),
            _ => false,
        }),
{
}

/// Equality as callers compare errors: database faults compare equal
/// whatever they carry; conflicts and the shape rejections compare by
/// their carried value; NotFound compares by kind.
impl PartialEq for Error {
    fn eq(&self, other: &Self) -> (r: bool) {
        match (self, other) {
            (Error::DbError(_), Error::DbError(_)) => true,
            (Error::ConflictReservation(a), Error::ConflictReservation(b)) => *a == *b,
            (Error::InvalidUserId(x), Error::InvalidUserId(y)) => *x == *y,
            (Error::InvalidReservationId(x), Error::InvalidReservationId(y)) => *x == *y,
            (Error::InvalidResourceId(x), Error::InvalidResourceId(y)) => *x == *y,
            (Error::NotFound, Error::NotFound) => true,
            _ => false,
        }
    }
}

impl vstd::std_specs::cmp::PartialEqSpecImpl for Error {
    open spec fn obeys_eq_spec() -> bool {
        true
    }

    open spec fn eq_spec(&self, other: &Self) -> bool {
        match (self, other) {
            (Error::DbError(_), Error::DbError(_)) => true,
            (Error::ConflictReservation(a), Error::ConflictReservation(b)) => crate::conflict::spec_conflict_info_eq(*a, *b),
            (Error::InvalidUserId(x), Error::InvalidUserId(y)) => x@ == y@,
            (Error::InvalidReservationId(x), Error::InvalidReservationId(y)) => x@ == y@,
            (Error::InvalidResourceId(x), Error::InvalidResourceId(y)) => x@ == y@,
            (Error::NotFound, Error::NotFound) => true,
            _ => false,
        }
    }
}

} // verus!
