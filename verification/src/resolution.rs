//! What the resolution of a NAR info asks of the other actors.

use vstd::prelude::*;

use crate::error::{spec_app_error, AppError, AppErrorKind};
use crate::nar_file::NarFileLocation;
use crate::substituter::{SubstituterMeta, SubstituterMetaView};
use crate::url::Url;

verus! {

/// What a substituter actor is told about its substituter.
#[derive(Debug, Clone, Copy, PartialEq, Eq, Structural)]
pub enum SubstituterRequest {
    ServiceSuccessful,
    ServiceOffline,
    ServiceError,
}

/// Something learnt while resolving a NAR info.
pub enum ResolveNarInfoEvent {
    /// The substituter at this URL answered.
    SubstituterSucceeded(Url),
    /// The substituter at this URL could not be reached.
    SubstituterOffline(Url),
    /// The substituter at this URL answered with an error.
    SubstituterError(Url),
    /// The NAR file named `nar_file` is served by `substituter` at `source_url`.
    NarFileLocated {
        nar_file: String,
        substituter: SubstituterMeta,
        source_url: Url,
        store_path_hash: Option<String>,
    },
    /// The NAR file named `nar_file` belongs to the store path with this hash.
    NarFileLinked { nar_file: String, store_path_hash: String },
}

/// A message for another actor.
pub enum ResolutionCommand {
    /// Tell the substituter actor of `url`.
    TellSubstituter { url: Url, request: SubstituterRequest },
    /// Give the NAR file actor of `nar_file` its location.
    SetNarFileLocation { nar_file: String, location: NarFileLocation, store_path_hash: Option<String> },
    /// Give the NAR file actor of `nar_file` the hash of its store path.
    SetStorePathHash { nar_file: String, store_path_hash: String },
}

/// An optional text, by value.
pub open spec fn opt_view(s: Option<String>) -> Option<Seq<char>> {
    match s {
        Some(v) => Some(v@),
        None => None,
    }
}

/// The message that carries `event` to the actor it concerns. A located NAR file is
/// fetched from `source_url` with its substituter's NAR timeout.
pub fn plan_event(event: ResolveNarInfoEvent) -> (r: ResolutionCommand)
    ensures
        match event {
            ResolveNarInfoEvent::SubstituterSucceeded(u) => r matches ResolutionCommand::TellSubstituter { url, request }
                && url@ == u@ && request == SubstituterRequest::ServiceSuccessful,
            ResolveNarInfoEvent::SubstituterOffline(u) => r matches ResolutionCommand::TellSubstituter { url, request }
                && url@ == u@ && request == SubstituterRequest::ServiceOffline,
            ResolveNarInfoEvent::SubstituterError(u) => r matches ResolutionCommand::TellSubstituter { url, request }
                && url@ == u@ && request == SubstituterRequest::ServiceError,
            ResolveNarInfoEvent::NarFileLocated { nar_file, substituter, source_url, store_path_hash } => {
                r matches ResolutionCommand::SetNarFileLocation { nar_file: f, location, store_path_hash: h }
                    && f@ == nar_file@ && location.spec_source_url() == source_url@
                    && location.spec_substituter() == substituter@ && location.spec_timeout()
                    == substituter@.nar_timeout && opt_view(h) == opt_view(store_path_hash)
            },
            ResolveNarInfoEvent::NarFileLinked { nar_file, store_path_hash } => {
                r matches ResolutionCommand::SetStorePathHash { nar_file: f, store_path_hash: h }
                    && f@ == nar_file@ && h@ == store_path_hash@
            },
        },
{
    match event {
        ResolveNarInfoEvent::SubstituterSucceeded(url) => ResolutionCommand::TellSubstituter {
            url,
            request: SubstituterRequest::ServiceSuccessful,
        },
        ResolveNarInfoEvent::SubstituterOffline(url) => ResolutionCommand::TellSubstituter {
            url,
            request: SubstituterRequest::ServiceOffline,
        },
        ResolveNarInfoEvent::SubstituterError(url) => ResolutionCommand::TellSubstituter {
            url,
            request: SubstituterRequest::ServiceError,
        },
        ResolveNarInfoEvent::NarFileLocated { nar_file, substituter, source_url, store_path_hash } => {
            let timeout = substituter.nar_timeout();
            let location = NarFileLocation::new(source_url, substituter, timeout);
            ResolutionCommand::SetNarFileLocation { nar_file, location, store_path_hash }
        },
        ResolveNarInfoEvent::NarFileLinked { nar_file, store_path_hash } => {
            ResolutionCommand::SetStorePathHash { nar_file, store_path_hash }
        },
    }
}

/// The reply of a NAR info actor: the result of the resolution (`None` when no
/// substituter has the NAR info) and what was learnt meanwhile.
pub struct ResolveNarInfoResponse<D, E> {
    pub result: Result<Option<D>, E>,
    pub events: Vec<ResolveNarInfoEvent>,
}

impl<D, E> ResolveNarInfoResponse<D, E> {
    pub fn new(result: Result<Option<D>, E>, events: Vec<ResolveNarInfoEvent>) -> (r: Self)
        ensures
            r.result == result,
            r.events == events,
    {
        ResolveNarInfoResponse { result, events }
    }
}

/// The answer to a NAR info query from the result of its resolution: the NAR info when
/// one was found, a not-found error when none exists, the resolution's error otherwise.
pub fn conclude_nar_info<D>(result: Result<Option<D>, AppError>) -> (r: Result<D, AppError>)
    ensures
        match result {
            Ok(Some(d)) => r == Ok::<D, AppError>(d),
            Ok(None) => r is Err && r->Err_0@ == spec_app_error(
                AppErrorKind::NotFound,
                "could not resolve non-existent nar info"@,
            ),
            Err(e) => r is Err && r->Err_0 == e,
        },
{
    match result {
        Ok(Some(data)) => Ok(data),
        Ok(None) => Err(AppError::not_found(String::from_str("could not resolve non-existent nar info"))),
        Err(err) => Err(err),
    }
}

} // verus!
