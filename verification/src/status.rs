//! The closed lifecycle states of a reservation and their wire encodings.
use vstd::prelude::*;
use crate::text::str_eq;
use vstd::string::StringExecFns;

verus! {

/// Lifecycle state of a reservation.  A record is created Pending and moves
/// to Confirmed only from Pending; Blocked is a terminal administrative
/// state; Unknown is accepted defensively on decoding and never produced.
#[derive(Clone, Copy, Debug, PartialEq, Eq, Structural)]
pub enum ReservationStatus {
    Pending,
    Blocked,
    Confirmed,
    Unknown,
}

/// The integer code of a status on the wire.
pub open spec fn spec_status_code(s: ReservationStatus) -> int {
    match s {
        ReservationStatus::Pending => 0,
        ReservationStatus::Blocked => 1,
        ReservationStatus::Confirmed => 2,
        ReservationStatus::Unknown => 3,
    }
}

/// The status a wire code denotes, if any.
pub open spec fn spec_status_of_code(code: int) -> Option<ReservationStatus> {
    if code == 0 {
        Some(ReservationStatus::Pending)
    } else if code == 1 {
        Some(ReservationStatus::Blocked)
    } else if code == 2 {
        Some(ReservationStatus::Confirmed)
    } else if code == 3 {
        Some(ReservationStatus::Unknown)
    } else {
        None
    }
}

/// The lowercase name a status carries in the store's native enumeration.
pub open spec fn spec_status_name(s: ReservationStatus) -> Seq<char> {
    match s {
        ReservationStatus::Pending => "pending"@,
        ReservationStatus::Blocked => "blocked"@,
        ReservationStatus::Confirmed => "confirmed"@,
        ReservationStatus::Unknown => "unknown"@,
    }
}

/// The status a store-side name denotes; unrecognized names decode
/// defensively to Unknown.
pub open spec fn spec_status_of_name(s: Seq<char>) -> ReservationStatus {
    if s == "pending"@ {
        ReservationStatus::Pending
    } else if s == "blocked"@ {
        ReservationStatus::Blocked
    } else if s == "confirmed"@ {
        ReservationStatus::Confirmed
    } else {
        ReservationStatus::Unknown
    }
}

impl ReservationStatus {
    pub fn code(self) -> (r: i32)
        ensures
            r as int == spec_status_code(self),
    {
        match self {
            ReservationStatus::Pending => 0,
            ReservationStatus::Blocked => 1,
            ReservationStatus::Confirmed => 2,
            ReservationStatus::Unknown => 3,
        }
    }

    /// Reads a wire code; codes outside the closed set are refused.
    pub fn try_from_code(code: i32) -> (r: Option<ReservationStatus>)
        ensures
            r == spec_status_of_code(code as int),
    {
        if code == 0 {
            Some(ReservationStatus::Pending)
        } else if code == 1 {
            Some(ReservationStatus::Blocked)
        } else if code == 2 {
            Some(ReservationStatus::Confirmed)
        } else if code == 3 {
            Some(ReservationStatus::Unknown)
        } else {
            None
        }
    }

    /// Reads a wire code as the operations do before talking to the store:
    /// an unrecognized code falls back to Pending.
    pub fn from_code_or_pending(code: i32) -> (r: ReservationStatus)
        ensures
            r == (match spec_status_of_code(code as int) {
                Some(s) => s,
                None => ReservationStatus::Pending,
            }),
    {
        match Self::try_from_code(code) {
            Some(s) => s,
            None => ReservationStatus::Pending,
        }
    }

    /// The lowercase name used by the store's native enumeration.
    pub fn name(self) -> (r: String)
        ensures
            r@ == spec_status_name(self),
    {
        match self {
            ReservationStatus::Pending => String::from_str("pending"),
            ReservationStatus::Blocked => String::from_str("blocked"),
            ReservationStatus::Confirmed => String::from_str("confirmed"),
            ReservationStatus::Unknown => String::from_str("unknown"),
        }
    }

    /// Decodes a store-side name; unrecognized names decode to Unknown.
    pub fn from_name(s: &str) -> (r: ReservationStatus)
        ensures
            r == spec_status_of_name(s@),
    {
        if str_eq(s, "pending") {
            ReservationStatus::Pending
        } else if str_eq(s, "blocked") {
            ReservationStatus::Blocked
        } else if str_eq(s, "confirmed") {
            ReservationStatus::Confirmed
        } else {
            ReservationStatus::Unknown
        }
    }
}

} // verus!
