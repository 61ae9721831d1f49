use selector4nix::error::{AppError, AppErrorKind};
use std::time::Duration;

use selector4nix::resolution::{
    conclude_nar_info, plan_event, ResolutionCommand, ResolveNarInfoEvent, ResolveNarInfoResponse,
    SubstituterRequest,
};
use selector4nix::substituter::SubstituterMeta;
use selector4nix::url::Url;

#[test]
fn resolved_nar_info_is_answered() {
    assert_eq!(conclude_nar_info(Ok(Some(7u32))).unwrap(), 7);
}

#[test]
fn missing_nar_info_is_not_found() {
    let e = conclude_nar_info::<u32>(Ok(None)).unwrap_err();
    assert_eq!(e.kind(), AppErrorKind::NotFound);
    assert_eq!(e.description(), "could not resolve non-existent nar info");
}

#[test]
fn failed_resolution_keeps_its_error() {
    let failure = AppError::infrastructure("could not fetch nar info".to_string());
    let e = conclude_nar_info::<u32>(Err(failure)).unwrap_err();
    assert_eq!(e.kind(), AppErrorKind::Infrastructure);
    assert_eq!(e.description(), "could not fetch nar info");
}

#[test]
fn response_keeps_result_and_events() {
    let url = Url::new("https://cache.nixos.org").unwrap();
    let response: ResolveNarInfoResponse<u32, String> = ResolveNarInfoResponse::new(
        Ok(Some(3)),
        vec![ResolveNarInfoEvent::SubstituterSucceeded(url)],
    );
    assert_eq!(response.result, Ok(Some(3)));
    assert_eq!(response.events.len(), 1);
    assert!(matches!(&response.events[0], ResolveNarInfoEvent::SubstituterSucceeded(u) if u.value() == "https://cache.nixos.org/"));
}

#[test]
fn substituter_events_are_told_to_their_substituter() {
    let url = || Url::new("https://cache.nixos.org").unwrap();
    for (event, expected) in [
        (ResolveNarInfoEvent::SubstituterSucceeded(url()), SubstituterRequest::ServiceSuccessful),
        (ResolveNarInfoEvent::SubstituterOffline(url()), SubstituterRequest::ServiceOffline),
        (ResolveNarInfoEvent::SubstituterError(url()), SubstituterRequest::ServiceError),
    ] {
        match plan_event(event) {
            ResolutionCommand::TellSubstituter { url, request } => {
                assert_eq!(url.value(), "https://cache.nixos.org/");
                assert_eq!(request, expected);
            }
            _ => panic!("expected a message for the substituter"),
        }
    }
}

#[test]
fn located_nar_file_gets_its_location_with_the_nar_timeout() {
    let meta = SubstituterMeta::new(Url::new("https://cache.nixos.org").unwrap(), 40)
        .with_nar_timeout(Some(Duration::from_secs(9)));
    let source = Url::new("https://cache.nixos.org/nar/abc.nar.xz").unwrap();
    let event = ResolveNarInfoEvent::NarFileLocated {
        nar_file: "abc.nar.xz".to_string(),
        substituter: meta,
        source_url: source,
        store_path_hash: Some("zj64jfhbxbync50az13gxr6k7bnqhcb3".to_string()),
    };
    match plan_event(event) {
        ResolutionCommand::SetNarFileLocation { nar_file, location, store_path_hash } => {
            assert_eq!(nar_file, "abc.nar.xz");
            assert_eq!(location.source_url().value(), "https://cache.nixos.org/nar/abc.nar.xz");
            assert_eq!(location.substituter().priority(), 40);
            assert_eq!(location.timeout(), Some(Duration::from_secs(9)));
            assert_eq!(store_path_hash.as_deref(), Some("zj64jfhbxbync50az13gxr6k7bnqhcb3"));
        }
        _ => panic!("expected a location for the nar file"),
    }
}

#[test]
fn linked_nar_file_gets_its_store_path_hash() {
    let event = ResolveNarInfoEvent::NarFileLinked {
        nar_file: "abc.nar.xz".to_string(),
        store_path_hash: "zj64jfhbxbync50az13gxr6k7bnqhcb3".to_string(),
    };
    match plan_event(event) {
        ResolutionCommand::SetStorePathHash { nar_file, store_path_hash } => {
            assert_eq!(nar_file, "abc.nar.xz");
            assert_eq!(store_path_hash, "zj64jfhbxbync50az13gxr6k7bnqhcb3");
        }
        _ => panic!("expected the store path hash for the nar file"),
    }
}
