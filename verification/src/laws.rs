use vstd::prelude::*;
use crate::container::{container_record, TicketContainer, TicketRecord};
use crate::engine::{
    container_expired, evaluate_post, from_instant, identity_ok, product_ok, scan_status,
    sub_event_ok, windows_ok,
};
use crate::outcome::{ScanOutcome, ScanStatus};
use crate::policy::ScanPolicy;
use crate::time::{instant_lt, Instant};

verus! {

/// An entry scan never admits a holder before the window opens: when the
/// scan is not an exit scan, the container carries a record whose identity
/// matches and whose validity bounds are well-formed, and the window's
/// start lies strictly after `now`, the scan yields `InvalidTime`.
pub proof fn lemma_entry_rejects_future_valid_from(
    c: TicketContainer,
    p: ScanPolicy,
    now: Instant,
)
    requires
        !p.is_exit,
        container_record(c) matches Some(r) && {
            &&& identity_ok(r, p)
            &&& windows_ok(r)
            &&& from_instant(r) matches Some(f) && instant_lt(now, f)
        },
    ensures
        scan_status(c, p, now) == ScanStatus::InvalidTime,
{
}

/// The record-level checks that remain once time is set aside: identity,
/// product, sub-event, in that order.
pub open spec fn timeless_status(r: TicketRecord, p: ScanPolicy) -> ScanStatus {
    if !identity_ok(r, p) {
        ScanStatus::Invalid
    } else if !product_ok(r, p) {
        ScanStatus::InvalidProduct
    } else if !sub_event_ok(r, p) {
        ScanStatus::InvalidSubEvent
    } else {
        ScanStatus::Valid
    }
}

/// An exit scan bypasses every temporal check: for a container carrying a
/// record with well-formed validity bounds, the result is decided solely
/// by the identity, product and sub-event checks, whatever `now` is.
pub proof fn lemma_exit_ignores_time(c: TicketContainer, p: ScanPolicy, now: Instant)
    requires
        p.is_exit,
        container_record(c) matches Some(r) && windows_ok(r),
    ensures
        container_record(c) matches Some(r) && scan_status(c, p, now) == timeless_status(r, p),
{
}

/// A mismatched event identity is rejected as `Invalid` whatever the other
/// record fields hold — unless the container itself already failed an
/// entry scan's expiry check, which takes precedence with `InvalidTime`.
pub proof fn lemma_identity_mismatch_rejected(c: TicketContainer, p: ScanPolicy, now: Instant)
    requires
        container_record(c) matches Some(r) && !identity_ok(r, p),
        p.is_exit || !container_expired(c, now),
    ensures
        scan_status(c, p, now) == ScanStatus::Invalid,
{
}

/// The product check is never bypassed: whenever the policy limits the
/// admitted products and the record's product is not among them, no scan —
/// entry or exit — yields `Valid`.
pub proof fn lemma_product_check_not_bypassed(c: TicketContainer, p: ScanPolicy, now: Instant)
    requires
        !p.all_products_allowed,
        container_record(c) matches Some(r) ==> !p.allowed_product_ids@.contains(r.product_id),
    ensures
        scan_status(c, p, now) != ScanStatus::Valid,
{
}

/// The sub-event check is never bypassed: whenever the policy requires a
/// sub-event and the record does not carry exactly it, no scan — entry or
/// exit — yields `Valid`.
pub proof fn lemma_sub_event_check_not_bypassed(c: TicketContainer, p: ScanPolicy, now: Instant)
    requires
        container_record(c) matches Some(r) ==> !sub_event_ok(r, p),
    ensures
        scan_status(c, p, now) != ScanStatus::Valid,
{
}

/// Evaluation is deterministic: two outcomes that `evaluate` may yield for
/// the same container, policy and instant agree on the status and on every
/// payload field.
pub proof fn lemma_evaluate_deterministic(
    c: TicketContainer,
    p: ScanPolicy,
    now: Instant,
    out1: ScanOutcome,
    out2: ScanOutcome,
)
    requires
        evaluate_post(c, p, now, out1),
        evaluate_post(c, p, now, out2),
    ensures
        out1.status == out2.status,
        out1.unique_id@ == out2.unique_id@,
        out1.product_id == out2.product_id,
        out1.sub_event_id == out2.sub_event_id,
        out1.variation_id == out2.variation_id,
{
}

} // verus!
