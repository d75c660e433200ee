//! Admission decisions for authenticated rail-association barcode tickets.
//!
//! Given a ticket container that an external decoder has already parsed and
//! authenticated, this library decides whether the holder may be admitted —
//! or, for an exit scan, allowed to leave — under a check-in policy: the
//! event identity must match, the record's validity window must be
//! well-formed and current, and the product and sub-event must be allowed.
//!
//! The decision engine (`engine::evaluate`) is a pure, verified function
//! over plain values, with the precedence among rejection reasons pinned
//! down by `engine::scan_status`; `clock::scan` runs it at the present
//! moment. `laws` states and proves the engine's guarantees: exit scans
//! bypass exactly the temporal checks, identity, product and sub-event
//! checks are never bypassed, and evaluation is deterministic.

pub mod anchor;
pub mod clock;
pub mod container;
pub mod engine;
pub mod laws;
pub mod outcome;
pub mod policy;
pub mod time;
