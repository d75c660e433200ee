use uic_scan::container::{TicketContainer, TicketRecord};
use uic_scan::engine::evaluate;
use uic_scan::outcome::ScanStatus;
use uic_scan::policy::ScanPolicy;
use uic_scan::time::Instant;

fn demo_record() -> TicketRecord {
    TicketRecord {
        event_identity: "demo".to_string(),
        product_id: 7,
        sub_event_id: None,
        variation_id: None,
        unique_id: "TICKET-1".to_string(),
        valid_from_year: None,
        valid_from_day: None,
        valid_from_time: None,
        valid_until_year: None,
        valid_until_day: None,
        valid_until_time: None,
    }
}

fn demo_policy() -> ScanPolicy {
    ScanPolicy {
        is_exit: false,
        event_identity: "demo".to_string(),
        all_products_allowed: true,
        allowed_product_ids: vec![],
        sub_event_constraint: None,
    }
}

fn noon() -> Instant {
    Instant { year: 2026, day: 100, sec: 43200 }
}

fn tlb(record: TicketRecord) -> TicketContainer {
    TicketContainer::Tlb { record: Some(record) }
}

#[test]
fn scenario_all_products_valid() {
    let out = evaluate(&tlb(demo_record()), &demo_policy(), noon());
    assert_eq!(out.status, ScanStatus::Valid);
    assert_eq!(out.unique_id, "TICKET-1");
    assert_eq!(out.product_id, 7);
    assert_eq!(out.sub_event_id, 0);
    assert_eq!(out.variation_id, 0);
}

#[test]
fn scenario_product_not_in_list() {
    let policy = ScanPolicy {
        all_products_allowed: false,
        allowed_product_ids: vec![1, 2, 3],
        ..demo_policy()
    };
    let out = evaluate(&tlb(demo_record()), &policy, noon());
    assert_eq!(out.status, ScanStatus::InvalidProduct);
    assert_eq!(out.unique_id, "");
    assert_eq!(out.product_id, 0);
}

#[test]
fn scenario_expired_entry_rejected_exit_allowed() {
    let record = TicketRecord {
        valid_until_year: Some(2026),
        valid_until_day: Some(99),
        valid_until_time: Some(0),
        ..demo_record()
    };
    let out = evaluate(&tlb(record), &demo_policy(), noon());
    assert_eq!(out.status, ScanStatus::InvalidTime);

    let record = TicketRecord {
        valid_until_year: Some(2026),
        valid_until_day: Some(99),
        valid_until_time: Some(0),
        ..demo_record()
    };
    let exit_policy = ScanPolicy { is_exit: true, ..demo_policy() };
    let out = evaluate(&tlb(record), &exit_policy, noon());
    assert_eq!(out.status, ScanStatus::Valid);
    assert_eq!(out.unique_id, "TICKET-1");
}

#[test]
fn scenario_partial_triple_is_malformed() {
    let record = TicketRecord { valid_from_year: Some(2026), ..demo_record() };
    let out = evaluate(&tlb(record), &demo_policy(), noon());
    assert_eq!(out.status, ScanStatus::Invalid);
}

#[test]
fn scenario_required_sub_event_absent() {
    let policy = ScanPolicy { sub_event_constraint: Some(42), ..demo_policy() };
    let out = evaluate(&tlb(demo_record()), &policy, noon());
    assert_eq!(out.status, ScanStatus::InvalidSubEvent);
}

#[test]
fn sub_event_match_admitted() {
    let record = TicketRecord { sub_event_id: Some(42), ..demo_record() };
    let policy = ScanPolicy { sub_event_constraint: Some(42), ..demo_policy() };
    let out = evaluate(&tlb(record), &policy, noon());
    assert_eq!(out.status, ScanStatus::Valid);
    assert_eq!(out.sub_event_id, 42);
}

#[test]
fn entry_rejects_future_valid_from() {
    let record = TicketRecord {
        valid_from_year: Some(2026),
        valid_from_day: Some(200),
        valid_from_time: Some(0),
        ..demo_record()
    };
    let out = evaluate(&tlb(record), &demo_policy(), noon());
    assert_eq!(out.status, ScanStatus::InvalidTime);
}

#[test]
fn exit_bypasses_future_valid_from() {
    let record = TicketRecord {
        valid_from_year: Some(2026),
        valid_from_day: Some(200),
        valid_from_time: Some(0),
        ..demo_record()
    };
    let exit_policy = ScanPolicy { is_exit: true, ..demo_policy() };
    let out = evaluate(&tlb(record), &exit_policy, noon());
    assert_eq!(out.status, ScanStatus::Valid);
}

#[test]
fn identity_mismatch_beats_everything_else() {
    let record = TicketRecord { event_identity: "demo2".to_string(), ..demo_record() };
    let policy = ScanPolicy {
        all_products_allowed: false,
        allowed_product_ids: vec![],
        sub_event_constraint: Some(42),
        ..demo_policy()
    };
    let out = evaluate(&tlb(record), &policy, noon());
    assert_eq!(out.status, ScanStatus::Invalid);
}

#[test]
fn identity_differs_by_one_character() {
    let record = TicketRecord { event_identity: "dema".to_string(), ..demo_record() };
    let out = evaluate(&tlb(record), &demo_policy(), noon());
    assert_eq!(out.status, ScanStatus::Invalid);
}

#[test]
fn product_check_not_bypassed_on_exit() {
    let policy = ScanPolicy {
        is_exit: true,
        all_products_allowed: false,
        allowed_product_ids: vec![1, 2, 3],
        ..demo_policy()
    };
    let out = evaluate(&tlb(demo_record()), &policy, noon());
    assert_eq!(out.status, ScanStatus::InvalidProduct);
}

#[test]
fn sub_event_check_not_bypassed_on_exit() {
    let policy = ScanPolicy {
        is_exit: true,
        sub_event_constraint: Some(42),
        ..demo_policy()
    };
    let out = evaluate(&tlb(demo_record()), &policy, noon());
    assert_eq!(out.status, ScanStatus::InvalidSubEvent);
}

#[test]
fn evaluation_is_deterministic() {
    let container = tlb(demo_record());
    let policy = demo_policy();
    let out1 = evaluate(&container, &policy, noon());
    let out2 = evaluate(&container, &policy, noon());
    assert_eq!(out1.status, out2.status);
    assert_eq!(out1.unique_id, out2.unique_id);
    assert_eq!(out1.product_id, out2.product_id);
    assert_eq!(out1.sub_event_id, out2.sub_event_id);
    assert_eq!(out1.variation_id, out2.variation_id);
}

#[test]
fn valid_from_equal_to_now_is_not_future() {
    let record = TicketRecord {
        valid_from_year: Some(2026),
        valid_from_day: Some(100),
        valid_from_time: Some(720),
        ..demo_record()
    };
    let out = evaluate(&tlb(record), &demo_policy(), noon());
    assert_eq!(out.status, ScanStatus::Valid);
}

#[test]
fn unsupported_container_is_invalid() {
    let out = evaluate(&TicketContainer::Unsupported, &demo_policy(), noon());
    assert_eq!(out.status, ScanStatus::Invalid);
    assert_eq!(out.unique_id, "");
}

#[test]
fn missing_record_is_invalid() {
    let out = evaluate(&TicketContainer::Tlb { record: None }, &demo_policy(), noon());
    assert_eq!(out.status, ScanStatus::Invalid);

    let out = evaluate(
        &TicketContainer::Dosipas { end_of_validity: None, record: None },
        &demo_policy(),
        noon(),
    );
    assert_eq!(out.status, ScanStatus::Invalid);
}

#[test]
fn missing_record_beats_container_expiry() {
    let expired = Instant { year: 2026, day: 99, sec: 0 };
    let out = evaluate(
        &TicketContainer::Dosipas { end_of_validity: Some(expired), record: None },
        &demo_policy(),
        noon(),
    );
    assert_eq!(out.status, ScanStatus::Invalid);
}

#[test]
fn container_expiry_rejects_entry_not_exit() {
    let expired = Instant { year: 2026, day: 99, sec: 0 };
    let container =
        TicketContainer::Dosipas { end_of_validity: Some(expired), record: Some(demo_record()) };
    let out = evaluate(&container, &demo_policy(), noon());
    assert_eq!(out.status, ScanStatus::InvalidTime);

    let exit_policy = ScanPolicy { is_exit: true, ..demo_policy() };
    let out = evaluate(&container, &exit_policy, noon());
    assert_eq!(out.status, ScanStatus::Valid);
}

#[test]
fn container_expiry_in_future_is_fine() {
    let ahead = Instant { year: 2026, day: 101, sec: 0 };
    let container =
        TicketContainer::Dosipas { end_of_validity: Some(ahead), record: Some(demo_record()) };
    let out = evaluate(&container, &demo_policy(), noon());
    assert_eq!(out.status, ScanStatus::Valid);
}

#[test]
fn day_366_only_in_leap_years() {
    let record = TicketRecord {
        valid_from_year: Some(2024),
        valid_from_day: Some(366),
        valid_from_time: Some(0),
        ..demo_record()
    };
    let out = evaluate(&tlb(record), &demo_policy(), noon());
    assert_eq!(out.status, ScanStatus::Valid);

    let record = TicketRecord {
        valid_from_year: Some(2023),
        valid_from_day: Some(366),
        valid_from_time: Some(0),
        ..demo_record()
    };
    let out = evaluate(&tlb(record), &demo_policy(), noon());
    assert_eq!(out.status, ScanStatus::Invalid);
}

#[test]
fn day_zero_is_out_of_range() {
    let record = TicketRecord {
        valid_from_year: Some(2026),
        valid_from_day: Some(0),
        valid_from_time: Some(0),
        ..demo_record()
    };
    let out = evaluate(&tlb(record), &demo_policy(), noon());
    assert_eq!(out.status, ScanStatus::Invalid);
}

#[test]
fn minutes_of_day_bounds() {
    let record = TicketRecord {
        valid_from_year: Some(2026),
        valid_from_day: Some(1),
        valid_from_time: Some(1439),
        ..demo_record()
    };
    let out = evaluate(&tlb(record), &demo_policy(), noon());
    assert_eq!(out.status, ScanStatus::Valid);

    let record = TicketRecord {
        valid_from_year: Some(2026),
        valid_from_day: Some(1),
        valid_from_time: Some(1440),
        ..demo_record()
    };
    let out = evaluate(&tlb(record), &demo_policy(), noon());
    assert_eq!(out.status, ScanStatus::Invalid);
}

#[test]
fn variation_id_carried_through() {
    let record = TicketRecord { variation_id: Some(9), sub_event_id: Some(5), ..demo_record() };
    let out = evaluate(&tlb(record), &demo_policy(), noon());
    assert_eq!(out.status, ScanStatus::Valid);
    assert_eq!(out.variation_id, 9);
    assert_eq!(out.sub_event_id, 5);
}
