use vstd::prelude::*;
use crate::container::{container_record, TicketContainer};
use crate::engine::{evaluate, evaluate_post};
use crate::outcome::{ScanOutcome, ScanStatus};
use crate::policy::ScanPolicy;
use crate::time::Instant;

verus! {

/// Relies on chrono's `Utc::now`, `Datelike::year`, `Datelike::ordinal` and
/// `Timelike::num_seconds_from_midnight` for the present UTC moment: the
/// ordinal is a day of the year in 1..=366 and the seconds past midnight
/// are in 0..=86399. `Utc::now` itself demands a system clock at or after
/// the Unix epoch, so the year is at least 1970.
#[verifier::external_body]
pub fn now_instant() -> (now: Instant)
    ensures
        now.wf(),
        now.year >= 1970,
{
    let dt = chrono::Utc::now();
    Instant {
        year: chrono::Datelike::year(&dt),
        day: chrono::Datelike::ordinal(&dt),
        sec: chrono::Timelike::num_seconds_from_midnight(&dt),
    }
}

/// Decides one scan at the present moment: reads the clock once and hands
/// it to `evaluate`. The outcome is exactly what `evaluate` yields for
/// some well-formed instant — which one depends on when the call runs.
pub fn scan(container: &TicketContainer, policy: &ScanPolicy) -> (out: ScanOutcome)
    ensures
        exists|now: Instant|
            #[trigger] evaluate_post(*container, *policy, now, out) && now.wf(),
        out.status == ScanStatus::Valid ==> container_record(*container) is Some,
{
    let now = now_instant();
    evaluate(container, policy, now)
}

} // verus!
