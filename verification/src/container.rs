use vstd::prelude::*;
use crate::time::Instant;

verus! {

/// The vendor-specific record embedded in an authenticated ticket
/// container, as plain values. Produced by the external decoder; this
/// engine only reads it.
///
/// Each validity bound is a triple (year, day of year, minutes of day)
/// whose three parts must be jointly present or jointly absent; a partial
/// triple marks the record malformed.
#[derive(Debug)]
pub struct TicketRecord {
    /// The venue/event identifier as encoded on the ticket.
    pub event_identity: String,
    pub product_id: i64,
    pub sub_event_id: Option<i64>,
    pub variation_id: Option<i64>,
    /// Globally distinguishing identifier for this ticket instance.
    pub unique_id: String,
    pub valid_from_year: Option<u16>,
    pub valid_from_day: Option<u16>,
    pub valid_from_time: Option<u16>,
    pub valid_until_year: Option<u16>,
    pub valid_until_day: Option<u16>,
    pub valid_until_time: Option<u16>,
}

/// What the decode-and-verify step handed over: the container format and,
/// for a supported format, the embedded vendor record if one was found.
#[derive(Debug)]
pub enum TicketContainer {
    /// A container of an unknown format, or one that failed to decode or
    /// to authenticate. Treated as an unusable ticket.
    Unsupported,
    /// The TLB container format.
    Tlb { record: Option<TicketRecord> },
    /// The DOSIPAS container format, which may carry a container-level
    /// end of validity, distinct from the record-level window.
    Dosipas { end_of_validity: Option<Instant>, record: Option<TicketRecord> },
}

/// The embedded vendor record of a container, if any.
pub open spec fn container_record(c: TicketContainer) -> Option<TicketRecord> {
    match c {
        TicketContainer::Unsupported => None,
        TicketContainer::Tlb { record } => record,
        TicketContainer::Dosipas { record, .. } => record,
    }
}

/// One entry of a container's record list, after the decoder's records
/// have been brought over one by one: either a record of some other
/// system, or this system's own record — `None` inside `Vendor` when its
/// fields did not fit the engine's plain types, which marks the ticket
/// unusable just like a missing record.
#[derive(Debug)]
pub enum ContainerRecord {
    Other,
    Vendor(Option<TicketRecord>),
}

/// The record the engine evaluates: what the first vendor entry of the
/// list carries, or nothing when no entry is a vendor entry.
pub open spec fn spec_embedded_record(s: Seq<ContainerRecord>) -> Option<TicketRecord>
    decreases s.len(),
{
    if s.len() == 0 {
        None
    } else {
        match s[0] {
            ContainerRecord::Vendor(rec) => rec,
            ContainerRecord::Other => spec_embedded_record(s.drop_first()),
        }
    }
}

/// Walks a container's record list and takes the first vendor entry's
/// record.
#[verifier::loop_isolation(false)]
pub fn embedded_record(entries: Vec<ContainerRecord>) -> (r: Option<TicketRecord>)
    ensures
        r == spec_embedded_record(entries@),
{
    let ghost orig: Seq<ContainerRecord> = entries@;
    let mut rest = entries;
    while rest.len() > 0
        invariant
            spec_embedded_record(orig) == spec_embedded_record(rest@),
        decreases rest@.len(),
    {
        let ghost before: Seq<ContainerRecord> = rest@;
        let head = rest.remove(0);
        match head {
            ContainerRecord::Vendor(rec) => {
                proof {
                    assert(before[0] == ContainerRecord::Vendor(rec));
                    assert(spec_embedded_record(before) == rec);
                }
                return rec;
            },
            ContainerRecord::Other => {
                proof {
                    assert(before.remove(0) =~= before.drop_first());
                }
            },
        }
    }
    None
}

} // verus!
