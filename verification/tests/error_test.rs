use selector4nix::error::{
    AppError, AppErrorKind, AppResultExt, ErrorSource, HasIntoAnyhowError, HasOption,
};
use selector4nix::streaming::StreamHttpBodyError;
use selector4nix::nar_file::{nar_stream_error, NarFetchConclusion};
use selector4nix::url::TryNewUrlError;

#[test]
fn constructors_set_kind_and_message() {
    let e = AppError::input("bad".to_string());
    assert_eq!(e.kind(), AppErrorKind::Input);
    assert_eq!(e.description(), "bad");
    assert_eq!(e.source_description(), None);
    assert_eq!(AppError::rule("r".to_string()).kind(), AppErrorKind::Rule);
    assert_eq!(AppError::catastrophic("c".to_string()).kind(), AppErrorKind::Catastrophic);
    assert_eq!(AppError::message(AppErrorKind::NotFound, "m".to_string()).kind(), AppErrorKind::NotFound);
}

#[test]
fn chained_error_keeps_source() {
    let e = AppError::chain_infrastructure("disk".to_string(), "saving".to_string());
    assert_eq!(e.kind(), AppErrorKind::Infrastructure);
    assert_eq!(e.description(), "saving");
    assert_eq!(e.source_description(), Some("disk"));
}

#[test]
fn result_extensions() {
    let r: Result<u8, ()> = Err(());
    let e = r.throw_infrastructure("x".to_string()).unwrap_err();
    assert_eq!(e.kind(), AppErrorKind::Infrastructure);
    let ok: Result<u8, ()> = Ok(3);
    assert_eq!(ok.throw_catastrophic("x".to_string()).unwrap(), 3);

    let r: Result<u8, TryNewUrlError> = Err(TryNewUrlError::Malformed);
    let e = r.chain_catastrophic("parsing".to_string()).unwrap_err();
    assert_eq!(e.kind(), AppErrorKind::Catastrophic);
    assert_eq!(e.source_description(), Some("malformed URL"));

    let none: Result<Option<u8>, AppError> = Ok(None);
    let e = none.throw_not_found("missing".to_string()).unwrap_err();
    assert_eq!(e.kind(), AppErrorKind::NotFound);
    let some: Result<Option<u8>, AppError> = Ok(Some(1));
    assert_eq!(some.throw_not_found("missing".to_string()).unwrap(), 1);
}

#[test]
fn url_error_is_a_rule_violation() {
    let e = TryNewUrlError::UnsupportedScheme.into_app_error();
    assert_eq!(e.kind(), AppErrorKind::Rule);
    assert_eq!(e.description(), "unsupported URL scheme");
}

#[test]
fn nar_stream_errors() {
    let e = nar_stream_error(NarFetchConclusion::NotFound);
    assert_eq!(e.kind(), AppErrorKind::NotFound);
    let e = nar_stream_error(NarFetchConclusion::Failed);
    assert_eq!(e.kind(), AppErrorKind::Infrastructure);
    assert_eq!(e.description(), "failed to acquire nar stream from substituters");
    assert_eq!(e.source_description(), Some("could not fetch nar from any substituter"));
}

#[test]
fn chained_errors_display_their_whole_chain() {
    let e = AppError::chain_infrastructure("disk full".to_string(), "saving".to_string());
    assert_eq!(e.description(), "saving");
    assert_eq!(e.chained_description(), "saving: disk full");
    let outer = AppError::chain_catastrophic(e, "shutting down".to_string());
    assert_eq!(outer.kind(), AppErrorKind::Catastrophic);
    assert_eq!(outer.description(), "shutting down");
    assert_eq!(outer.source_description(), Some("saving"));
    assert_eq!(outer.chained_description(), "shutting down: saving: disk full");
    assert_eq!(AppError::input("bad".to_string()).chained_description(), "bad");
}

#[test]
fn chaining_keeps_the_causes_of_the_source() {
    let r: Result<u8, StreamHttpBodyError> =
        Err(StreamHttpBodyError::Transport { source: "connection reset".to_string() });
    let e = r.chain_infrastructure("fetching".to_string()).unwrap_err();
    assert_eq!(e.chained_description(), "fetching: HTTP transport error: connection reset");

    let r: Result<u8, TryNewUrlError> = Err(TryNewUrlError::Malformed);
    let e = r.convert_err(|err| AppError::new(AppErrorKind::Rule, err)).unwrap_err();
    assert_eq!(e.kind(), AppErrorKind::Rule);
    assert_eq!(e.description(), "malformed URL");
}

#[test]
fn unexpected_status_shows_its_reason_phrase() {
    assert_eq!(
        StreamHttpBodyError::InvalidStatus { status: 500 }.describe(),
        "unexpected HTTP status 500 Internal Server Error"
    );
    assert_eq!(
        StreamHttpBodyError::InvalidStatus { status: 599 }.describe(),
        "unexpected HTTP status 599 <unknown status code>"
    );
}
