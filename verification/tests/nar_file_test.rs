use std::time::Duration;

use selector4nix::nar_file::{
    exists_available, first_nar_stream_step, NarStreamStep,
    build_candidates, cached_location_check, locate_candidate,
    CachedLocationCheck, FetchDecision, FetchOutcome, NarFetchConclusion, NarFetchTally,
    NarFileLocation,
};
use selector4nix::substituter::{Availability, Substituter, SubstituterMeta};
use selector4nix::url::Url;

const NAR_FILE: &str = "1w1fff338fvdw53sqgamddn1b2xgds473pv6y13gizdbqjv4i5p3.nar.xz";

fn location(meta: &SubstituterMeta) -> NarFileLocation {
    let source = meta.storage_url().as_dir().join(NAR_FILE).unwrap();
    NarFileLocation::new(source, meta.duplicate(), None)
}

#[test]
fn cached_location_with_own_storage_needs_availability() {
    let meta = SubstituterMeta::new(Url::new("https://cache-a.example.com").unwrap(), 40);
    assert_eq!(cached_location_check(&location(&meta)), CachedLocationCheck::RequireAvailable);
}

#[test]
fn cached_location_with_separate_storage_is_tried_directly() {
    let meta = SubstituterMeta::new(Url::new("https://cache-a.example.com").unwrap(), 40)
        .with_storage_url(Url::new("https://storage-a.example.com/nar").unwrap());
    let loc = location(&meta);
    assert_eq!(
        loc.source_url().value(),
        "https://storage-a.example.com/nar/1w1fff338fvdw53sqgamddn1b2xgds473pv6y13gizdbqjv4i5p3.nar.xz"
    );
    assert_eq!(cached_location_check(&loc), CachedLocationCheck::TryDirectly);
}

#[test]
fn candidate_is_found_by_source_url() {
    let a = SubstituterMeta::new(Url::new("https://cache-a.example.com").unwrap(), 40);
    let b = SubstituterMeta::new(Url::new("https://cache-b.example.com").unwrap(), 10);
    let candidates = vec![location(&a), location(&b)];
    let found = locate_candidate(&candidates, location(&b).source_url());
    assert_eq!(found, Some(1));
    assert_eq!(candidates[1].substituter().priority(), 10);
    let other = Url::new("https://cache-c.example.com/nar/x").unwrap();
    assert_eq!(locate_candidate(&candidates, &other), None);
}

#[test]
fn all_not_found_concludes_not_found() {
    let mut t = NarFetchTally::new(2);
    assert_eq!(t.on_outcome(FetchOutcome::Status(404)), FetchDecision::Continue);
    assert_eq!(t.on_outcome(FetchOutcome::Status(403)), FetchDecision::Continue);
    assert_eq!(t.conclude(), NarFetchConclusion::NotFound);
}

#[test]
fn any_other_failure_concludes_failed() {
    let mut t = NarFetchTally::new(2);
    t.on_outcome(FetchOutcome::Status(404));
    t.on_outcome(FetchOutcome::TimedOut);
    assert_eq!(t.conclude(), NarFetchConclusion::Failed);
    let mut t = NarFetchTally::new(1);
    assert_eq!(t.on_outcome(FetchOutcome::Status(200)), FetchDecision::Serve);
}

#[test]
fn no_candidates_means_not_found() {
    assert_eq!(NarFetchTally::new(0).conclude(), NarFetchConclusion::NotFound);
}

#[test]
fn candidates_come_from_available_substituters_in_order() {
    let a = SubstituterMeta::new(Url::new("https://cache-a.example.com").unwrap(), 40)
        .with_nar_timeout(Some(Duration::from_secs(7)));
    let b = SubstituterMeta::new(Url::new("https://cache-b.example.com/mirror").unwrap(), 10);
    let c = SubstituterMeta::new(Url::new("https://cache-c.example.com").unwrap(), 20);
    let subs = vec![
        Substituter::new(a, Availability::Normal),
        Substituter::new(b, Availability::MaybeReady { prev_failures: 2 }),
        Substituter::new(c, Availability::Offline { detected_at: 5 }),
    ];
    let candidates = build_candidates(&subs, NAR_FILE);
    assert_eq!(candidates.len(), 2);
    assert_eq!(
        candidates[0].source_url().value(),
        "https://cache-a.example.com/nar/1w1fff338fvdw53sqgamddn1b2xgds473pv6y13gizdbqjv4i5p3.nar.xz"
    );
    assert_eq!(candidates[0].timeout(), Some(Duration::from_secs(7)));
    assert_eq!(candidates[0].substituter().priority(), 40);
    assert_eq!(
        candidates[1].source_url().value(),
        "https://cache-b.example.com/mirror/nar/1w1fff338fvdw53sqgamddn1b2xgds473pv6y13gizdbqjv4i5p3.nar.xz"
    );
    assert_eq!(candidates[1].timeout(), None);
}

#[test]
fn no_available_substituter_gives_no_candidate() {
    let a = SubstituterMeta::new(Url::new("https://cache-a.example.com").unwrap(), 40);
    let subs = vec![Substituter::new(a, Availability::ServiceError { detected_at: 1, prev_failures: 0 })];
    assert!(build_candidates(&subs, NAR_FILE).is_empty());
    assert!(build_candidates(&Vec::new(), NAR_FILE).is_empty());
}


#[test]
fn cached_location_is_tried_when_its_substituter_is_available_or_storage_is_separate() {
    let a = SubstituterMeta::new(Url::new("https://cache-a.example.com").unwrap(), 40);
    let up = vec![Substituter::new(a.duplicate(), Availability::Normal)];
    let down = vec![Substituter::new(a.duplicate(), Availability::Offline { detected_at: 3 })];
    let cached = location(&a);
    assert!(exists_available(&up, a.url()));
    assert!(!exists_available(&down, a.url()));
    assert!(!exists_available(&Vec::new(), a.url()));
    assert_eq!(first_nar_stream_step(Some(&cached), &up), NarStreamStep::TryCached);
    assert_eq!(first_nar_stream_step(Some(&cached), &down), NarStreamStep::QueryAll);
    assert_eq!(first_nar_stream_step(None, &up), NarStreamStep::QueryAll);
    let separate = a.with_storage_url(Url::new("https://storage-a.example.com/nar").unwrap());
    assert_eq!(first_nar_stream_step(Some(&location(&separate)), &down), NarStreamStep::TryCached);
}
