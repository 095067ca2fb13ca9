//! Core of a booking service: time-bounded claims on resources, with
//! conflict detection delegated to a store-enforced non-overlap
//! constraint.
//!
//! The crate carries the decision half of every operation: validation of
//! a reservation before it is submitted, the parameters of each single
//! store round trip, the classification of store failures into a closed
//! taxonomy, and — at the centre — the parser that turns the store's
//! unstructured constraint-violation diagnostic into the two time windows
//! that collided, falling back to the untouched text on any deviation.
//! The store round trips themselves are left to the caller that owns the
//! connection handle.
pub mod conflict;
pub mod error;
pub mod manager;
pub mod status;
pub mod text;
pub mod time;
pub mod types;
pub mod window;
