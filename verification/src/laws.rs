//! Properties of the substituter health model that hold across operations.

use vstd::arithmetic::power2::{lemma_pow2_unfold, lemma2_to64, pow2};
use vstd::prelude::*;

use crate::lifecycle::{
    spec_error_update, spec_failure_outcome, spec_offline_update, spec_probing_update,
    SubstituterLifecycleEvent,
};
use crate::substituter::{
    spec_retry_backoff_ms, Availability, ProbeSubstituterError, MAX_RETRY_DURATION_MS,
};

verus! {

/// Becoming normal is idempotent: a second success changes nothing.
pub proof fn law_normal_is_idempotent(a: Availability)
    ensures
        a.spec_try_change_to_normal().spec_try_change_to_normal() == a.spec_try_change_to_normal(),
{
}

/// An unavailable substituter ignores further failure reports: neither an offline
/// detection nor a service error changes it, and no event is emitted.
pub proof fn law_unavailable_absorbs_failures(a: Availability, now: u64, retry_at: u64)
    requires
        a.spec_is_unavailable(),
    ensures
        a.spec_try_change_to_offline(now) == a,
        a.spec_try_change_to_service_error(now) == a,
        spec_failure_outcome(a, a, retry_at) == Seq::<SubstituterLifecycleEvent>::empty(),
{
}

/// A failure report makes an available substituter unavailable, detected at the report's
/// instant, and the proxy is told so and told when to retry.
pub proof fn law_failure_makes_unavailable(a: Availability, now: u64, retry_at: u64)
    requires
        !a.spec_is_unavailable(),
        a.spec_prev_failures() < usize::MAX,
    ensures
        a.spec_try_change_to_offline(now) == (Availability::Offline { detected_at: now }),
        a.spec_try_change_to_service_error(now) matches Availability::ServiceError {
            detected_at,
            ..
        } && detected_at == now,
        spec_failure_outcome(a, a.spec_try_change_to_offline(now), retry_at) == seq![
            SubstituterLifecycleEvent::NotifyUnavailable,
            SubstituterLifecycleEvent::ScheduleRetryReady(retry_at),
        ],
{
}

/// Each service error after a retry counts one more failure than before, and the count
/// survives the following retry.
pub proof fn law_failures_accumulate(k: usize, now: u64)
    requires
        k < usize::MAX,
    ensures
        (Availability::MaybeReady { prev_failures: k }).spec_try_change_to_service_error(now)
            == (Availability::ServiceError { detected_at: now, prev_failures: (k + 1) as usize }),
        (Availability::MaybeReady { prev_failures: k }).spec_try_change_to_service_error(
            now,
        ).spec_try_change_to_maybe_ready() == (Availability::MaybeReady {
            prev_failures: (k + 1) as usize,
        }),
{
}

/// After the retry time an unavailable substituter may be ready again; a substituter that
/// was offline starts over with no counted failure.
pub proof fn law_retry_reopens(a: Availability)
    requires
        a.spec_is_unavailable(),
    ensures
        a.spec_try_change_to_maybe_ready() is MaybeReady,
        !a.spec_try_change_to_maybe_ready().spec_is_unavailable(),
        a.spec_try_change_to_maybe_ready().spec_prev_failures() == a.spec_prev_failures(),
{
}

/// The full recovery cycle: a normal substituter that fails at `now`, reaches its retry
/// time and is then probed successfully is normal again.
pub proof fn law_recovery_cycle(now: u64, offline: bool)
    ensures
        ({
            let failed = if offline {
                Availability::Normal.spec_try_change_to_offline(now)
            } else {
                Availability::Normal.spec_try_change_to_service_error(now)
            };
            &&& failed.spec_is_unavailable()
            &&& failed.spec_try_change_to_maybe_ready().spec_try_change_to_normal()
                == Availability::Normal
        }),
{
}

/// The back-off starts at 500 ms, doubles with each counted failure up to the tenth,
/// and never exceeds 512 s.
pub proof fn law_backoff_doubles_then_caps(n: nat)
    ensures
        spec_retry_backoff_ms(0) == 500,
        n < 10 ==> spec_retry_backoff_ms(n + 1) == 2 * spec_retry_backoff_ms(n),
        n >= 10 ==> spec_retry_backoff_ms(n + 1) == spec_retry_backoff_ms(n),
        spec_retry_backoff_ms(n) <= MAX_RETRY_DURATION_MS,
{
    lemma2_to64();
    if n < 10 {
        lemma_pow2_unfold(n + 1);
    }
    lemma_backoff_bounded(n);
}

proof fn lemma_backoff_bounded(n: nat)
    ensures
        spec_retry_backoff_ms(n) <= MAX_RETRY_DURATION_MS,
        spec_retry_backoff_ms(n) >= 500,
{
    lemma2_to64();
    let e: nat = if n < 10 { n } else { 10 };
    if e < 10 {
        vstd::arithmetic::power2::lemma_pow2_strictly_increases(e, 10);
    }
    vstd::arithmetic::power2::lemma_pow2_pos(e);
}

/// Offline substituters are retried after 30 s, failing ones after their back-off, and
/// available ones have nothing to retry.
pub proof fn law_retry_duration_by_state(a: Availability)
    ensures
        a is Offline ==> a.spec_retry_duration() == Some(30_000u64),
        a is ServiceError ==> a.spec_retry_duration() == Some(
            spec_retry_backoff_ms(a.spec_prev_failures() as nat) as u64,
        ),
        !a.spec_is_unavailable() <==> a.spec_retry_duration() is None,
{
}

/// A failed probe is handled as the failure it found: an offline probe as an offline
/// report, a service error as a service-error report, at the same instant.
pub proof fn law_failed_probe_is_a_failure_report(a: Availability, e: ProbeSubstituterError, now: u64)
    ensures
        spec_probing_update(a, Err(e), now) == match e {
            ProbeSubstituterError::Offline { .. } => spec_offline_update(a, now),
            ProbeSubstituterError::Service { .. } => spec_error_update(a, now),
        },
{
}

/// A failure report is idempotent: reporting a failure again, at any later instant, to a
/// substituter that a failure report left behind changes nothing and emits nothing.
pub proof fn law_failure_report_is_idempotent(a: Availability, now: u64, later: u64)
    ensures
        spec_offline_update(spec_offline_update(a, now).0, later) == (
            spec_offline_update(a, now).0,
            Seq::<SubstituterLifecycleEvent>::empty(),
        ),
        spec_error_update(spec_offline_update(a, now).0, later) == (
            spec_offline_update(a, now).0,
            Seq::<SubstituterLifecycleEvent>::empty(),
        ),
        spec_offline_update(spec_error_update(a, now).0, later) == (
            spec_error_update(a, now).0,
            Seq::<SubstituterLifecycleEvent>::empty(),
        ),
        spec_error_update(spec_error_update(a, now).0, later) == (
            spec_error_update(a, now).0,
            Seq::<SubstituterLifecycleEvent>::empty(),
        ),
{
}

/// Success restores a substituter that waits to be tried again, whatever its count of
/// failures: it becomes normal, and a successful probe announces it available, exactly
/// once. Success leaves every other state as it was, and a successful probe announces
/// only a substituter that is normal.
pub proof fn law_success_restores_after_any_failures(k: usize, now: u64, a: Availability)
    ensures
        (Availability::MaybeReady { prev_failures: k }).spec_try_change_to_normal()
            == Availability::Normal,
        spec_probing_update(Availability::MaybeReady { prev_failures: k }, Ok(()), now) == (
            Availability::Normal,
            seq![SubstituterLifecycleEvent::NotifyAvailable],
        ),
        !(a is MaybeReady) ==> a.spec_try_change_to_normal() == a,
        a is Normal ==> spec_probing_update(a, Ok(()), now) == (
            Availability::Normal,
            seq![SubstituterLifecycleEvent::NotifyAvailable],
        ),
        a.spec_is_unavailable() ==> spec_probing_update(a, Ok(()), now) == (
            a,
            Seq::<SubstituterLifecycleEvent>::empty(),
        ),
{
}

/// Each report moves a substituter to the state it names, at the report's instant: an
/// offline report to offline, a first service error to a failing state with no earlier
/// failure counted, the retry time of an offline substituter to a fresh retry with no
/// failure counted and of a failing one to a retry that keeps its count.
pub proof fn law_reports_name_their_state(now: u64, t: u64, k: usize)
    ensures
        Availability::Normal.spec_try_change_to_offline(now) == (Availability::Offline {
            detected_at: now,
        }),
        Availability::Normal.spec_try_change_to_service_error(now) == (Availability::ServiceError {
            detected_at: now,
            prev_failures: 0,
        }),
        (Availability::Offline { detected_at: t }).spec_try_change_to_maybe_ready() == (
        Availability::MaybeReady { prev_failures: 0 }),
        (Availability::ServiceError { detected_at: t, prev_failures: k }).spec_try_change_to_maybe_ready()
            == (Availability::MaybeReady { prev_failures: k }),
        Availability::Normal.spec_try_change_to_maybe_ready() == Availability::Normal,
        (Availability::MaybeReady { prev_failures: k }).spec_try_change_to_maybe_ready() == (
        Availability::MaybeReady { prev_failures: k }),
{
}

} // verus!
