use selector4nix::lifecycle::{SubstituterLifecycleEvent, SubstituterLifecycleService};
use selector4nix::substituter::{Availability, ProbeSubstituterError, Substituter, SubstituterMeta};
use selector4nix::url::Url;

fn make_substituter(availability: Availability) -> Substituter {
    let url = Url::new("https://cache.nixos.org").unwrap();
    let meta = SubstituterMeta::new(url, 40);
    Substituter::new(meta, availability)
}

#[test]
fn change_to_service_error_succeeds_from_normal() {
    let now = 1_000;
    let result = Availability::Normal.try_change_to_service_error(now);
    assert_eq!(
        result,
        Availability::ServiceError {
            detected_at: now,
            prev_failures: 0,
        }
    );
}

#[test]
fn change_to_service_error_doesnt_change_prev_failures() {
    let now = 1_000;
    let state = Availability::ServiceError {
        detected_at: now,
        prev_failures: 1,
    };
    let result = state.try_change_to_service_error(now);
    assert_eq!(
        result,
        Availability::ServiceError {
            detected_at: now,
            prev_failures: 1,
        }
    );
}

#[test]
fn update_on_service_successful_succeeds() {
    let service = SubstituterLifecycleService::new();
    let sub = make_substituter(Availability::MaybeReady { prev_failures: 0 });
    let (result, events) = service.update_on_service_successful(sub);
    assert!(!result.is_unavailable());
    assert!(events.is_empty());
}

#[test]
fn update_on_service_failed_succeeds() {
    let service = SubstituterLifecycleService::new();
    let sub = make_substituter(Availability::Normal);
    let now = 10_000;

    let (result, events) = service.update_on_service_error(sub, now);

    assert!(result.is_unavailable());
    assert_eq!(events.len(), 2);
    assert!(matches!(
        events[0],
        SubstituterLifecycleEvent::NotifyUnavailable
    ));
    assert!(matches!(
        events[1],
        SubstituterLifecycleEvent::ScheduleRetryReady(t) if t == now + 500
    ));
}

#[test]
fn update_on_service_failed_increments_backoff_given_repeated() {
    let service = SubstituterLifecycleService::new();
    let sub = make_substituter(Availability::MaybeReady { prev_failures: 2 });
    let now = 10_000;

    let (result, events) = service.update_on_service_error(sub, now);

    assert!(result.is_unavailable());
    assert_eq!(events.len(), 2);
    assert!(matches!(
        result.availability(),
        Availability::ServiceError {
            prev_failures: 3,
            ..
        }
    ));
    assert!(matches!(
        events[1],
        SubstituterLifecycleEvent::ScheduleRetryReady(t) if t == now + 4_000
    ));
}

#[test]
fn update_on_next_retry_ready_succeeds() {
    let service = SubstituterLifecycleService::new();
    let sub = make_substituter(Availability::ServiceError {
        detected_at: 5,
        prev_failures: 0,
    });

    let (result, events) = service.update_on_next_retry_ready(sub);

    assert!(!result.is_unavailable());
    assert_eq!(events.len(), 1);
    assert!(matches!(
        events[0],
        SubstituterLifecycleEvent::ScheduleProbing(None),
    ));
}

#[test]
fn update_on_probing_finished_succeeds_given_ok() {
    let service = SubstituterLifecycleService::new();
    let sub = make_substituter(Availability::MaybeReady { prev_failures: 0 });
    let now = 10_000;

    let (result, events) = service.update_on_probing_finished(sub, Ok(()), now);

    assert!(result.is_normal());
    assert_eq!(events.len(), 1);
    assert!(matches!(
        events[0],
        SubstituterLifecycleEvent::NotifyAvailable,
    ));
}

#[test]
fn update_on_probing_finished_emits_unavailable_given_offline() {
    let service = SubstituterLifecycleService::new();
    let sub = make_substituter(Availability::MaybeReady { prev_failures: 0 });
    let now = 10_000;
    let err = ProbeSubstituterError::Offline {
        source: "test".to_string(),
    };

    let (result, events) = service.update_on_probing_finished(sub, Err(err), now);

    assert!(result.is_unavailable());
    assert_eq!(events.len(), 2);
    assert!(matches!(
        events[0],
        SubstituterLifecycleEvent::NotifyUnavailable,
    ));
    assert!(matches!(
        events[1],
        SubstituterLifecycleEvent::ScheduleRetryReady(_),
    ));
}

#[test]
fn update_on_probing_finished_emits_unavailable_given_service_error() {
    let service = SubstituterLifecycleService::new();
    let sub = make_substituter(Availability::MaybeReady { prev_failures: 2 });
    let now = 10_000;
    let err = ProbeSubstituterError::Service {
        source: "test".to_string(),
    };

    let (result, events) = service.update_on_probing_finished(sub, Err(err), now);

    assert!(result.is_unavailable());
    assert_eq!(events.len(), 2);
    assert!(matches!(
        events[0],
        SubstituterLifecycleEvent::NotifyUnavailable,
    ));
    assert!(matches!(
        events[1],
        SubstituterLifecycleEvent::ScheduleRetryReady(_),
    ));
}

#[test]
fn offline_retry_after_thirty_seconds() {
    let service = SubstituterLifecycleService::new();
    let (result, events) = service.update_on_service_offline(make_substituter(Availability::Normal), 7);
    assert_eq!(result.availability(), Availability::Offline { detected_at: 7 });
    assert_eq!(
        events,
        vec![
            SubstituterLifecycleEvent::NotifyUnavailable,
            SubstituterLifecycleEvent::ScheduleRetryReady(30_007)
        ]
    );
}

#[test]
fn unavailable_substituter_ignores_failures() {
    let service = SubstituterLifecycleService::new();
    let sub = make_substituter(Availability::Offline { detected_at: 1 });
    let (result, events) = service.update_on_service_error(sub, 99);
    assert_eq!(result.availability(), Availability::Offline { detected_at: 1 });
    assert!(events.is_empty());
}

#[test]
fn retry_durations_by_state() {
    assert_eq!(Availability::Normal.retry_duration(), None);
    assert_eq!(Availability::MaybeReady { prev_failures: 3 }.retry_duration(), None);
    assert_eq!(Availability::Offline { detected_at: 0 }.retry_duration(), Some(30_000));
    let err = |n| Availability::ServiceError { detected_at: 0, prev_failures: n };
    assert_eq!(err(0).retry_duration(), Some(500));
    assert_eq!(err(1).retry_duration(), Some(1_000));
    assert_eq!(err(10).retry_duration(), Some(512_000));
    assert_eq!(err(11).retry_duration(), Some(512_000));
    assert_eq!(err(usize::MAX).retry_duration(), Some(512_000));
}

#[test]
fn recovery_cycle_returns_to_normal() {
    let service = SubstituterLifecycleService::new();
    let (sub, _) = service.update_on_service_error(make_substituter(Availability::Normal), 0);
    let (sub, _) = service.update_on_next_retry_ready(sub);
    assert_eq!(sub.availability(), Availability::MaybeReady { prev_failures: 0 });
    let (sub, events) = service.update_on_probing_finished(sub, Ok(()), 100);
    assert_eq!(sub.availability(), Availability::Normal);
    assert_eq!(events, vec![SubstituterLifecycleEvent::NotifyAvailable]);
}

#[test]
fn prev_failures_by_state() {
    assert_eq!(Availability::Normal.prev_failures(), 0);
    assert_eq!(Availability::Offline { detected_at: 3 }.prev_failures(), 0);
    assert_eq!(Availability::MaybeReady { prev_failures: 4 }.prev_failures(), 4);
    assert_eq!(
        Availability::Offline { detected_at: 3 }.try_change_to_maybe_ready(),
        Availability::MaybeReady { prev_failures: 0 }
    );
    assert_eq!(
        Availability::Normal.try_change_to_maybe_ready(),
        Availability::Normal
    );
    assert_eq!(
        Availability::ServiceError { detected_at: 1, prev_failures: 2 }.try_change_to_normal(),
        Availability::ServiceError { detected_at: 1, prev_failures: 2 }
    );
}

#[test]
fn failed_probe_is_handled_as_the_failure_it_found() {
    let service = SubstituterLifecycleService::new();
    for (availability, offline) in [
        (Availability::MaybeReady { prev_failures: 0 }, true),
        (Availability::MaybeReady { prev_failures: 2 }, false),
        (Availability::Normal, false),
    ] {
        let err = if offline {
            ProbeSubstituterError::Offline { source: "probe".to_string() }
        } else {
            ProbeSubstituterError::Service { source: "probe".to_string() }
        };
        let (probed, probe_events) =
            service.update_on_probing_finished(make_substituter(availability), Err(err), 7_000);
        let (reported, report_events) = if offline {
            service.update_on_service_offline(make_substituter(availability), 7_000)
        } else {
            service.update_on_service_error(make_substituter(availability), 7_000)
        };
        assert_eq!(probed.availability(), reported.availability());
        assert_eq!(probe_events, report_events);
    }
}

#[test]
fn failure_report_twice_changes_nothing_more() {
    let service = SubstituterLifecycleService::new();
    let (once, events) = service.update_on_service_offline(make_substituter(Availability::Normal), 1_000);
    assert_eq!(events.len(), 2);
    let (twice, again) = service.update_on_service_offline(once.clone(), 9_000);
    assert_eq!(twice.availability(), once.availability());
    assert!(again.is_empty());
    let (thrice, more) = service.update_on_service_error(twice, 20_000);
    assert_eq!(thrice.availability(), once.availability());
    assert!(more.is_empty());
}
