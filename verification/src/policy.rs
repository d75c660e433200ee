use vstd::prelude::*;

verus! {

/// The check-in list a scan point enforces: what is being scanned against.
/// Immutable for the duration of one scan.
#[derive(Debug)]
pub struct ScanPolicy {
    /// An exit scan relaxes the temporal checks (record window and
    /// container expiry) so holders can leave after their validity lapsed.
    /// Identity, product and sub-event checks are never relaxed.
    pub is_exit: bool,
    /// The venue/event identifier tickets must carry, byte for byte.
    pub event_identity: String,
    /// When true, every product is admitted and `allowed_product_ids` is
    /// ignored.
    pub all_products_allowed: bool,
    /// The finite set of admitted product ids, consulted only when
    /// `all_products_allowed` is false.
    pub allowed_product_ids: Vec<i64>,
    /// When present, the record must carry exactly this sub-event id; a
    /// record without a sub-event id then fails the check.
    pub sub_event_constraint: Option<i64>,
}

} // verus!
