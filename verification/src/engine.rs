use vstd::prelude::*;
use crate::container::{container_record, TicketContainer, TicketRecord};
use crate::outcome::{ScanOutcome, ScanStatus};
use crate::policy::ScanPolicy;
use crate::time::{instant_before, instant_lt, days_in_year, spec_days_in_year, Instant};

verus! {

/// A validity-bound triple is consistent when its three parts are jointly
/// present or jointly absent.
pub open spec fn triple_consistent(y: Option<u16>, d: Option<u16>, t: Option<u16>) -> bool {
    ||| (y is Some && d is Some && t is Some)
    ||| (y is None && d is None && t is None)
}

/// A present triple is in range when the day names an actual day of the
/// year and the minutes fit in a day.
pub open spec fn triple_in_range(y: u16, d: u16, t: u16) -> bool {
    &&& 1 <= d
    &&& d as int <= spec_days_in_year(y as int)
    &&& t < 1440
}

/// The instant a validity-bound triple names, interpreted in UTC.
pub open spec fn triple_instant(y: u16, d: u16, t: u16) -> Instant {
    Instant { year: y as i32, day: d as u32, sec: (t * 60) as u32 }
}

/// A validity bound is acceptable when it is consistent and, if present,
/// in range; anything else marks the record malformed.
pub open spec fn bound_ok(y: Option<u16>, d: Option<u16>, t: Option<u16>) -> bool {
    &&& triple_consistent(y, d, t)
    &&& match (y, d, t) {
        (Some(yy), Some(dd), Some(tt)) => triple_in_range(yy, dd, tt),
        _ => true,
    }
}

/// The instant an acceptable validity bound names, if the bound is present.
pub open spec fn bound_instant(y: Option<u16>, d: Option<u16>, t: Option<u16>) -> Option<Instant> {
    match (y, d, t) {
        (Some(yy), Some(dd), Some(tt)) => Some(triple_instant(yy, dd, tt)),
        _ => None,
    }
}

/// Both validity bounds of a record are acceptable.
pub open spec fn windows_ok(r: TicketRecord) -> bool {
    &&& bound_ok(r.valid_from_year, r.valid_from_day, r.valid_from_time)
    &&& bound_ok(r.valid_until_year, r.valid_until_day, r.valid_until_time)
}

/// The start of a record's validity window, if one is stated.
pub open spec fn from_instant(r: TicketRecord) -> Option<Instant> {
    bound_instant(r.valid_from_year, r.valid_from_day, r.valid_from_time)
}

/// The end of a record's validity window, if one is stated.
pub open spec fn until_instant(r: TicketRecord) -> Option<Instant> {
    bound_instant(r.valid_until_year, r.valid_until_day, r.valid_until_time)
}

/// The record's event identity equals the policy's, character for
/// character.
pub open spec fn identity_ok(r: TicketRecord, p: ScanPolicy) -> bool {
    r.event_identity@ == p.event_identity@
}

/// The record's product is admitted by the policy.
pub open spec fn product_ok(r: TicketRecord, p: ScanPolicy) -> bool {
    p.all_products_allowed || p.allowed_product_ids@.contains(r.product_id)
}

/// The record satisfies the policy's sub-event constraint; a record
/// without a sub-event id fails a stated constraint.
pub open spec fn sub_event_ok(r: TicketRecord, p: ScanPolicy) -> bool {
    match p.sub_event_constraint {
        None => true,
        Some(c) => r.sub_event_id == Some(c),
    }
}

/// The record-level checks, in their precedence order: identity, then
/// window well-formedness, then the temporal window (entry scans only),
/// then product, then sub-event.
pub open spec fn record_status(r: TicketRecord, p: ScanPolicy, now: Instant) -> ScanStatus {
    if !identity_ok(r, p) {
        ScanStatus::Invalid
    } else if !windows_ok(r) {
        ScanStatus::Invalid
    } else if !p.is_exit && (from_instant(r) matches Some(f) && instant_lt(now, f)) {
        ScanStatus::InvalidTime
    } else if !p.is_exit && (until_instant(r) matches Some(u) && instant_lt(u, now)) {
        ScanStatus::InvalidTime
    } else if !product_ok(r, p) {
        ScanStatus::InvalidProduct
    } else if !sub_event_ok(r, p) {
        ScanStatus::InvalidSubEvent
    } else {
        ScanStatus::Valid
    }
}

/// A DOSIPAS container whose container-level end of validity lies strictly
/// before `now`.
pub open spec fn container_expired(c: TicketContainer, now: Instant) -> bool {
    c matches TicketContainer::Dosipas { end_of_validity: Some(e), .. } && instant_lt(e, now)
}

/// The status one scan yields, in the full precedence order: an
/// unsupported container or a missing embedded record is `Invalid`; an
/// expired DOSIPAS container fails an entry scan with `InvalidTime`; the
/// record-level checks decide the rest.
pub open spec fn scan_status(c: TicketContainer, p: ScanPolicy, now: Instant) -> ScanStatus {
    match container_record(c) {
        None => ScanStatus::Invalid,
        Some(r) => {
            if container_expired(c, now) && !p.is_exit {
                ScanStatus::InvalidTime
            } else {
                record_status(r, p, now)
            }
        },
    }
}

/// A `Valid` outcome carries exactly the record's payload, with absent ids
/// reported as 0.
pub open spec fn valid_payload(r: TicketRecord, out: ScanOutcome) -> bool {
    &&& out.unique_id == r.unique_id
    &&& out.product_id == r.product_id
    &&& out.sub_event_id == (match r.sub_event_id {
        Some(s) => s,
        None => 0,
    })
    &&& out.variation_id == (match r.variation_id {
        Some(v) => v,
        None => 0,
    })
}

/// Everything `evaluate` promises of its outcome: the status follows the
/// precedence order, rejections carry an empty payload, and a `Valid`
/// outcome carries the record's payload.
pub open spec fn evaluate_post(
    c: TicketContainer,
    p: ScanPolicy,
    now: Instant,
    out: ScanOutcome,
) -> bool {
    &&& out.wf()
    &&& out.status == scan_status(c, p, now)
    &&& (out.status == ScanStatus::Valid ==> {
        &&& container_record(c) matches Some(r)
        &&& valid_payload(r, out)
    })
}

/// Whether `x` occurs in `v`.
fn contains_i64(v: &Vec<i64>, x: i64) -> (r: bool)
    ensures
        r == v@.contains(x),
{
    let mut i: usize = 0;
    while i < v.len()
        invariant
            i <= v.len(),
            forall|k: int| 0 <= k < i ==> v@[k] != x,
        decreases v.len() - i,
    {
        if v[i] == x {
            proof {
                assert(v@.contains(x)) by { assert(v@[i as int] == x) };
            }
            return true;
        }
        i += 1;
    }
    false
}

/// Checks one validity bound: `Err` when the triple is partial or out of
/// range, otherwise the instant it names, if present.
fn check_bound(y: Option<u16>, d: Option<u16>, t: Option<u16>) -> (r: Result<Option<Instant>, ()>)
    ensures
        r is Ok <==> bound_ok(y, d, t),
        r matches Ok(w) ==> w == bound_instant(y, d, t),
{
    match (y, d, t) {
        (Some(yy), Some(dd), Some(tt)) => {
            if 1 <= dd && dd <= days_in_year(yy) && tt < 1440 {
                Ok(Some(Instant { year: yy as i32, day: dd as u32, sec: (tt as u32) * 60 }))
            } else {
                Err(())
            }
        },
        (None, None, None) => Ok(None),
        _ => Err(()),
    }
}

/// Runs the record-level checks of one scan.
fn evaluate_record(record: &TicketRecord, policy: &ScanPolicy, now: Instant) -> (out: ScanOutcome)
    ensures
        out.wf(),
        out.status == record_status(*record, *policy, now),
        out.status == ScanStatus::Valid ==> valid_payload(*record, out),
{
    if !(record.event_identity == policy.event_identity) {
        return ScanOutcome::empty(ScanStatus::Invalid);
    }
    let from = check_bound(record.valid_from_year, record.valid_from_day, record.valid_from_time);
    let until = check_bound(
        record.valid_until_year,
        record.valid_until_day,
        record.valid_until_time,
    );
    match (from, until) {
        (Ok(from_bound), Ok(until_bound)) => {
            let not_yet_valid = match from_bound {
                Some(f) => instant_before(now, f),
                None => false,
            };
            if not_yet_valid && !policy.is_exit {
                return ScanOutcome::empty(ScanStatus::InvalidTime);
            }
            let expired = match until_bound {
                Some(u) => instant_before(u, now),
                None => false,
            };
            if expired && !policy.is_exit {
                return ScanOutcome::empty(ScanStatus::InvalidTime);
            }
            if !policy.all_products_allowed && !contains_i64(
                &policy.allowed_product_ids,
                record.product_id,
            ) {
                return ScanOutcome::empty(ScanStatus::InvalidProduct);
            }
            let sub_event_matches = match policy.sub_event_constraint {
                None => true,
                Some(c) => match record.sub_event_id {
                    Some(s) => s == c,
                    None => false,
                },
            };
            if !sub_event_matches {
                return ScanOutcome::empty(ScanStatus::InvalidSubEvent);
            }
            ScanOutcome {
                status: ScanStatus::Valid,
                unique_id: record.unique_id.clone(),
                product_id: record.product_id,
                sub_event_id: match record.sub_event_id {
                    Some(s) => s,
                    None => 0,
                },
                variation_id: match record.variation_id {
                    Some(v) => v,
                    None => 0,
                },
            }
        },
        _ => ScanOutcome::empty(ScanStatus::Invalid),
    }
}

/// Decides one scan: converts an authenticated ticket container plus a
/// check-in policy and the present moment into an outcome, by the strict
/// precedence order of `scan_status`. Pure: nothing is mutated, and the
/// outcome is a function of the three arguments alone.
pub fn evaluate(container: &TicketContainer, policy: &ScanPolicy, now: Instant) -> (out:
    ScanOutcome)
    ensures
        evaluate_post(*container, *policy, now, out),
{
    match container {
        TicketContainer::Unsupported => ScanOutcome::empty(ScanStatus::Invalid),
        TicketContainer::Tlb { record: None } => ScanOutcome::empty(ScanStatus::Invalid),
        TicketContainer::Dosipas { record: None, .. } => ScanOutcome::empty(ScanStatus::Invalid),
        TicketContainer::Tlb { record: Some(r) } => evaluate_record(r, policy, now),
        TicketContainer::Dosipas { end_of_validity, record: Some(r) } => {
            let past_container_validity = match end_of_validity {
                Some(e) => instant_before(*e, now),
                None => false,
            };
            if past_container_validity && !policy.is_exit {
                ScanOutcome::empty(ScanStatus::InvalidTime)
            } else {
                evaluate_record(r, policy, now)
            }
        },
    }
}

} // verus!
