//! Decisions on the health of substituters: how each observation changes a substituter
//! and what the proxy must do next.

use vstd::prelude::*;

use crate::substituter::{
    spec_retry_backoff_ms, Availability, ProbeSubstituterError, Substituter,
    SubstituterMetaView, OFFLINE_RETRY_PERIOD_MS,
};

verus! {

/// What the proxy must do after a substituter changed. Instants are milliseconds on the
/// same monotonic clock as the `now` that was passed in.
#[derive(Debug, Clone, Copy, PartialEq, Eq, Hash, Structural)]
pub enum SubstituterLifecycleEvent {
    /// Call `update_on_next_retry_ready` at this instant.
    ScheduleRetryReady(u64),
    /// Probe the substituter, at this instant or right away.
    ScheduleProbing(Option<u64>),
    /// Stop sending requests to the substituter.
    NotifyUnavailable,
    /// The substituter may be used again.
    NotifyAvailable,
}

/// The outcome of a service error or offline detection on a substituter with the given
/// availability: unchanged when it was already unavailable.
pub open spec fn spec_failure_outcome(
    before: Availability,
    after: Availability,
    retry_at: u64,
) -> Seq<SubstituterLifecycleEvent> {
    if before.spec_is_unavailable() {
        seq![]
    } else {
        seq![
            SubstituterLifecycleEvent::NotifyUnavailable,
            SubstituterLifecycleEvent::ScheduleRetryReady(retry_at),
        ]
    }
}

/// The next availability and the events when the substituter is found offline at `now`.
pub open spec fn spec_offline_update(a: Availability, now: u64) -> (Availability, Seq<SubstituterLifecycleEvent>) {
    let after = a.spec_try_change_to_offline(now);
    (after, spec_failure_outcome(a, after, (now + OFFLINE_RETRY_PERIOD_MS) as u64))
}

/// The next availability and the events when the substituter answers with a service error
/// at `now`.
pub open spec fn spec_error_update(a: Availability, now: u64) -> (Availability, Seq<SubstituterLifecycleEvent>) {
    let after = a.spec_try_change_to_service_error(now);
    (
        after,
        spec_failure_outcome(
            a,
            after,
            (now + spec_retry_backoff_ms(after.spec_prev_failures() as nat)) as u64,
        ),
    )
}

/// The next availability and the events when probing finished at `now` with `result`.
pub open spec fn spec_probing_update(
    a: Availability,
    result: Result<(), ProbeSubstituterError>,
    now: u64,
) -> (Availability, Seq<SubstituterLifecycleEvent>) {
    match result {
        Ok(()) => {
            let after = a.spec_try_change_to_normal();
            (
                after,
                if after is Normal {
                    seq![SubstituterLifecycleEvent::NotifyAvailable]
                } else {
                    seq![]
                },
            )
        },
        Err(ProbeSubstituterError::Offline { .. }) => spec_offline_update(a, now),
        Err(ProbeSubstituterError::Service { .. }) => spec_error_update(a, now),
    }
}

/// The requirement on `now` for recording a failure: the retry instant must be representable.
pub open spec fn failure_time_fits(a: Availability, now: u64, offline: bool) -> bool {
    if offline {
        now + OFFLINE_RETRY_PERIOD_MS <= u64::MAX
    } else {
        a.spec_prev_failures() < usize::MAX && now + spec_retry_backoff_ms(
            a.spec_try_change_to_service_error(now).spec_prev_failures() as nat,
        ) <= u64::MAX
    }
}

/// Turns observations of a substituter into its next state and the actions to take.
pub struct SubstituterLifecycleService;

impl SubstituterLifecycleService {
    pub fn new() -> (r: Self) {
        SubstituterLifecycleService
    }

    /// A request to the substituter succeeded.
    pub fn update_on_service_successful(&self, substituter: Substituter) -> (r: (
        Substituter,
        Vec<SubstituterLifecycleEvent>,
    ))
        ensures
            r.0.spec_meta() == substituter.spec_meta(),
            r.0.spec_availability() == substituter.spec_availability().spec_try_change_to_normal(),
            r.1@ == Seq::<SubstituterLifecycleEvent>::empty(),
    {
        (substituter.on_detected_normal(), Vec::new())
    }

    /// The substituter was found offline at `now`.
    pub fn update_on_service_offline(&self, substituter: Substituter, now: u64) -> (r: (
        Substituter,
        Vec<SubstituterLifecycleEvent>,
    ))
        requires
            substituter.spec_availability().spec_is_unavailable() || failure_time_fits(
                substituter.spec_availability(),
                now,
                true,
            ),
        ensures
            r.0.spec_meta() == substituter.spec_meta(),
            r.0.spec_availability() == substituter.spec_availability().spec_try_change_to_offline(
                now,
            ),
            r.1@ == spec_failure_outcome(
                substituter.spec_availability(),
                r.0.spec_availability(),
                (now + OFFLINE_RETRY_PERIOD_MS) as u64,
            ),
            (r.0.spec_availability(), r.1@) == spec_offline_update(substituter.spec_availability(), now),
    {
        if substituter.is_unavailable() {
            (substituter, Vec::new())
        } else {
            let (retry_instant, substituter) = substituter.on_detected_offline(now);
            let mut events = Vec::new();
            events.push(SubstituterLifecycleEvent::NotifyUnavailable);
            events.push(SubstituterLifecycleEvent::ScheduleRetryReady(retry_instant));
            assert(events@ =~= spec_failure_outcome(
                Availability::Normal,
                Availability::Normal,
                retry_instant,
            ));
            (substituter, events)
        }
    }

    /// The substituter answered with a service error at `now`.
    pub fn update_on_service_error(&self, substituter: Substituter, now: u64) -> (r: (
        Substituter,
        Vec<SubstituterLifecycleEvent>,
    ))
        requires
            substituter.spec_availability().spec_is_unavailable() || failure_time_fits(
                substituter.spec_availability(),
                now,
                false,
            ),
        ensures
            r.0.spec_meta() == substituter.spec_meta(),
            r.0.spec_availability()
                == substituter.spec_availability().spec_try_change_to_service_error(now),
            r.1@ == spec_failure_outcome(
                substituter.spec_availability(),
                r.0.spec_availability(),
                (now + spec_retry_backoff_ms(
                    r.0.spec_availability().spec_prev_failures() as nat,
                )) as u64,
            ),
            (r.0.spec_availability(), r.1@) == spec_error_update(substituter.spec_availability(), now),
    {
        if substituter.is_unavailable() {
            (substituter, Vec::new())
        } else {
            let (retry_instant, substituter) = substituter.on_detected_service_error(now);
            let mut events = Vec::new();
            events.push(SubstituterLifecycleEvent::NotifyUnavailable);
            events.push(SubstituterLifecycleEvent::ScheduleRetryReady(retry_instant));
            assert(events@ =~= spec_failure_outcome(
                Availability::Normal,
                Availability::Normal,
                retry_instant,
            ));
            (substituter, events)
        }
    }

    /// The retry time of an unavailable substituter has come: it may be ready again and
    /// is probed right away.
    pub fn update_on_next_retry_ready(&self, substituter: Substituter) -> (r: (
        Substituter,
        Vec<SubstituterLifecycleEvent>,
    ))
        ensures
            r.0.spec_meta() == substituter.spec_meta(),
            r.0.spec_availability()
                == substituter.spec_availability().spec_try_change_to_maybe_ready(),
            r.1@ == seq![SubstituterLifecycleEvent::ScheduleProbing(None)],
    {
        let mut events = Vec::new();
        events.push(SubstituterLifecycleEvent::ScheduleProbing(None));
        assert(events@ =~= seq![SubstituterLifecycleEvent::ScheduleProbing(None)]);
        (substituter.on_next_retry_ready(), events)
    }

    /// Probing the substituter finished at `now` with `result`.
    pub fn update_on_probing_finished(
        &self,
        substituter: Substituter,
        result: Result<(), ProbeSubstituterError>,
        now: u64,
    ) -> (r: (Substituter, Vec<SubstituterLifecycleEvent>))
        requires
            result is Err ==> (substituter.spec_availability().spec_is_unavailable()
                || failure_time_fits(
                substituter.spec_availability(),
                now,
                result->Err_0 is Offline,
            )),
        ensures
            r.0.spec_meta() == substituter.spec_meta(),
            match result {
                Ok(()) => {
                    &&& r.0.spec_availability()
                        == substituter.spec_availability().spec_try_change_to_normal()
                    &&& r.1@ == if r.0.spec_availability() is Normal {
                        seq![SubstituterLifecycleEvent::NotifyAvailable]
                    } else {
                        seq![]
                    }
                },
                Err(ProbeSubstituterError::Offline { .. }) => {
                    &&& r.0.spec_availability()
                        == substituter.spec_availability().spec_try_change_to_offline(now)
                    &&& r.1@ == spec_failure_outcome(
                        substituter.spec_availability(),
                        r.0.spec_availability(),
                        (now + OFFLINE_RETRY_PERIOD_MS) as u64,
                    )
                },
                Err(ProbeSubstituterError::Service { .. }) => {
                    &&& r.0.spec_availability()
                        == substituter.spec_availability().spec_try_change_to_service_error(now)
                    &&& r.1@ == spec_failure_outcome(
                        substituter.spec_availability(),
                        r.0.spec_availability(),
                        (now + spec_retry_backoff_ms(
                            r.0.spec_availability().spec_prev_failures() as nat,
                        )) as u64,
                    )
                },
            },
            (r.0.spec_availability(), r.1@) == spec_probing_update(
                substituter.spec_availability(),
                result,
                now,
            ),
    {
        match result {
            Ok(()) => {
                let substituter = substituter.on_detected_normal();
                let mut events = Vec::new();
                if substituter.is_normal() {
                    events.push(SubstituterLifecycleEvent::NotifyAvailable);
                    assert(events@ =~= seq![SubstituterLifecycleEvent::NotifyAvailable]);
                } else {
                    assert(events@ =~= Seq::<SubstituterLifecycleEvent>::empty());
                }
                (substituter, events)
            },
            Err(ProbeSubstituterError::Offline { .. }) => self.update_on_service_offline(
                substituter,
                now,
            ),
            Err(ProbeSubstituterError::Service { .. }) => self.update_on_service_error(
                substituter,
                now,
            ),
        }
    }
}

} // verus!
