use vstd::prelude::*;

verus! {

/// The five-way classification of a scan.
#[derive(Clone, Copy, Debug, PartialEq, Eq, Structural)]
pub enum ScanStatus {
    /// The ticket is fundamentally unusable here: unsupported container,
    /// failed decode or signature, missing embedded record, identity
    /// mismatch, or a malformed validity window.
    Invalid,
    /// The ticket is outside its validity window (entry scans only).
    InvalidTime,
    /// The ticket's product is not on the list of admitted products.
    InvalidProduct,
    /// The ticket's sub-event does not match the required one.
    InvalidSubEvent,
    /// The holder may pass.
    Valid,
}

/// The result of one scan. Payload fields are populated only on a `Valid`
/// status; every rejection carries an empty identifier and zero ids.
#[derive(Debug)]
pub struct ScanOutcome {
    pub status: ScanStatus,
    /// The ticket instance's globally distinguishing identifier.
    pub unique_id: String,
    pub product_id: i64,
    /// 0 when the record carries no sub-event id.
    pub sub_event_id: i64,
    /// 0 when the record carries no variation id.
    pub variation_id: i64,
}

impl ScanOutcome {
    /// Only a `Valid` outcome carries a populated payload.
    pub open spec fn wf(self) -> bool {
        self.status != ScanStatus::Valid ==> {
            &&& self.unique_id@ == Seq::<char>::empty()
            &&& self.product_id == 0
            &&& self.sub_event_id == 0
            &&& self.variation_id == 0
        }
    }

    /// A rejection: the given status with an empty payload.
    pub fn empty(status: ScanStatus) -> (r: ScanOutcome)
        requires
            status != ScanStatus::Valid,
        ensures
            r.wf(),
            r.status == status,
    {
        ScanOutcome {
            status,
            unique_id: String::new(),
            product_id: 0,
            sub_event_id: 0,
            variation_id: 0,
        }
    }
}

} // verus!
