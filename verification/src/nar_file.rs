//! NAR file locations and the decisions made while fetching a NAR file.

use vstd::prelude::*;

use crate::error::{spec_app_error, spec_chained_error, AppError, AppErrorKind};
use crate::substituter::{Substituter, SubstituterMeta, SubstituterMetaView};
use crate::url::{dir_text, url_join_serialization, Url};

verus! {

/// Where a NAR file can be fetched: its URL, the substituter serving it and the timeout
/// of the request.
#[derive(Debug, Clone)]
pub struct NarFileLocation {
    source_url: Url,
    substituter: SubstituterMeta,
    timeout: Option<std::time::Duration>,
}

impl NarFileLocation {
    pub closed spec fn spec_source_url(&self) -> Seq<char> {
        self.source_url@
    }

    pub closed spec fn spec_substituter(&self) -> SubstituterMetaView {
        self.substituter@
    }

    pub closed spec fn spec_timeout(&self) -> Option<std::time::Duration> {
        self.timeout
    }

    pub fn new(source_url: Url, substituter: SubstituterMeta, timeout: Option<std::time::Duration>) -> (r: Self)
        ensures
            r.spec_source_url() == source_url@,
            r.spec_substituter() == substituter@,
            r.spec_timeout() == timeout,
    {
        NarFileLocation { source_url, substituter, timeout }
    }

    pub fn source_url(&self) -> (r: &Url)
        ensures
            r@ == self.spec_source_url(),
    {
        &self.source_url
    }

    pub fn substituter(&self) -> (r: &SubstituterMeta)
        ensures
            r@ == self.spec_substituter(),
    {
        &self.substituter
    }

    pub fn timeout(&self) -> (r: Option<std::time::Duration>)
        ensures
            r == self.spec_timeout(),
    {
        self.timeout
    }

    /// A copy of this location.
    pub fn duplicate(&self) -> (r: Self)
        ensures
            r.spec_source_url() == self.spec_source_url(),
            r.spec_substituter() == self.spec_substituter(),
            r.spec_timeout() == self.spec_timeout(),
    {
        NarFileLocation {
            source_url: self.source_url.duplicate(),
            substituter: self.substituter.duplicate(),
            timeout: self.timeout,
        }
    }
}

/// The headers passed on with a NAR stream.
#[derive(Debug, Clone, PartialEq, Eq, Hash)]
pub struct NarStreamHeaders {
    pub content_length: Option<u64>,
    pub content_type: Option<String>,
    pub content_encoding: Option<String>,
}

/// How a cached location is checked before use.
#[derive(Debug, Clone, Copy, PartialEq, Eq, Structural)]
pub enum CachedLocationCheck {
    /// Try it whatever the health of its substituter: its storage lies elsewhere and its
    /// health is not known.
    TryDirectly,
    /// Try it only when its substituter is available.
    RequireAvailable,
}

/// How a cached location is checked: only a substituter serving NAR files from its own
/// `{url}/nar` can be judged by its health.
pub fn cached_location_check(location: &NarFileLocation) -> (r: CachedLocationCheck)
    ensures
        r == if location.spec_substituter().has_custom_storage_url {
            CachedLocationCheck::TryDirectly
        } else {
            CachedLocationCheck::RequireAvailable
        },
{
    if location.substituter().has_custom_storage_url() {
        CachedLocationCheck::TryDirectly
    } else {
        CachedLocationCheck::RequireAvailable
    }
}

/// The first candidate whose source URL is `source_url`.
pub fn locate_candidate(candidates: &Vec<NarFileLocation>, source_url: &Url) -> (r: Option<usize>)
    ensures
        match r {
            Some(i) => i < candidates@.len() && candidates@[i as int].spec_source_url() == source_url@
                && forall|j: int|
                0 <= j < i ==> (#[trigger] candidates@[j]).spec_source_url() != source_url@,
            None => forall|j: int|
                0 <= j < candidates@.len() ==> (#[trigger] candidates@[j]).spec_source_url()
                    != source_url@,
        },
{
    let n = candidates.len();
    let mut i: usize = 0;
    while i < n
        invariant
            n == candidates@.len(),
            i <= n,
            forall|j: int| 0 <= j < i ==> (#[trigger] candidates@[j]).spec_source_url() != source_url@,
        decreases n - i,
    {
        if candidates[i].source_url().same_as(source_url) {
            return Some(i);
        }
        i = i + 1;
    }
    None
}

/// A substituter with URL `url` is among `subs` and available.
pub open spec fn spec_exists_available(subs: Seq<Substituter>, url: Seq<char>) -> bool {
    exists|i: int|
        0 <= i < subs.len() && (#[trigger] subs[i]).spec_meta().url == url
            && !subs[i].spec_availability().spec_is_unavailable()
}

/// Whether a substituter with URL `url` is among `substituters` and available.
pub fn exists_available(substituters: &Vec<Substituter>, url: &Url) -> (r: bool)
    ensures
        r == spec_exists_available(substituters@, url@),
{
    let n = substituters.len();
    let mut i: usize = 0;
    while i < n
        invariant
            n == substituters@.len(),
            i <= n,
            forall|j: int|
                0 <= j < i ==> !((#[trigger] substituters@[j]).spec_meta().url == url@
                    && !substituters@[j].spec_availability().spec_is_unavailable()),
        decreases n - i,
    {
        let sub = &substituters[i];
        if sub.url().same_as(url) && !sub.is_unavailable() {
            return true;
        }
        i = i + 1;
    }
    false
}

/// The first step of streaming a NAR file.
#[derive(Debug, Clone, Copy, PartialEq, Eq, Structural)]
pub enum NarStreamStep {
    /// Ask the cached location alone; on any failure, fall back to all substituters.
    TryCached,
    /// Ask every available substituter.
    QueryAll,
}

/// Where streaming a NAR file whose cached location is `cached` starts: at the cached
/// location when its substituter stores NAR files elsewhere than `{url}/nar` (its health
/// says nothing of that storage) or is available; else, and when nothing is cached, at
/// all substituters.
pub fn first_nar_stream_step(cached: Option<&NarFileLocation>, substituters: &Vec<Substituter>) -> (r:
    NarStreamStep)
    ensures
        r == match cached {
            Some(l) => if l.spec_substituter().has_custom_storage_url || spec_exists_available(
                substituters@,
                l.spec_substituter().url,
            ) {
                NarStreamStep::TryCached
            } else {
                NarStreamStep::QueryAll
            },
            None => NarStreamStep::QueryAll,
        },
{
    match cached {
        Some(location) => {
            let meta = location.substituter();
            if meta.has_custom_storage_url() || exists_available(substituters, meta.url()) {
                NarStreamStep::TryCached
            } else {
                NarStreamStep::QueryAll
            }
        },
        None => NarStreamStep::QueryAll,
    }
}

/// A NAR file location, by value.
pub struct NarFileLocationView {
    pub source_url: Seq<char>,
    pub substituter: SubstituterMetaView,
    pub timeout: Option<std::time::Duration>,
}

/// The value of a location.
pub open spec fn location_view(l: NarFileLocation) -> NarFileLocationView {
    NarFileLocationView {
        source_url: l.spec_source_url(),
        substituter: l.spec_substituter(),
        timeout: l.spec_timeout(),
    }
}

/// Where the NAR file `name` is asked for when no location is known: under the storage URL
/// of every available substituter, in their order, with the substituter's NAR timeout. A
/// substituter whose storage URL cannot be joined with `name` is left out.
pub open spec fn candidate_locations(subs: Seq<Substituter>, name: Seq<char>) -> Seq<NarFileLocationView>
    decreases subs.len(),
{
    if subs.len() == 0 {
        Seq::empty()
    } else {
        let rest = candidate_locations(subs.drop_last(), name);
        let m = subs.last().spec_meta();
        if subs.last().spec_availability().spec_is_unavailable() {
            rest
        } else {
            match url_join_serialization(dir_text(m.storage_url), name) {
                Some(v) => rest.push(
                    NarFileLocationView { source_url: v, substituter: m, timeout: m.nar_timeout },
                ),
                None => rest,
            }
        }
    }
}

/// The candidate locations of the NAR file `nar_file` among `substituters`.
pub fn build_candidates(substituters: &Vec<Substituter>, nar_file: &str) -> (r: Vec<NarFileLocation>)
    ensures
        r@.map_values(|l: NarFileLocation| location_view(l)) == candidate_locations(
            substituters@,
            nar_file@,
        ),
{
    let n = substituters.len();
    let mut out: Vec<NarFileLocation> = Vec::new();
    let mut i: usize = 0;
    while i < n
        invariant
            n == substituters@.len(),
            i <= n,
            out@.map_values(|l: NarFileLocation| location_view(l)) == candidate_locations(
                substituters@.take(i as int),
                nar_file@,
            ),
        decreases n - i,
    {
        let ghost before = out@;
        let sub = &substituters[i];
        if !sub.is_unavailable() {
            let meta = sub.meta();
            match meta.storage_url().as_dir().join(nar_file) {
                Some(source) => {
                    out.push(NarFileLocation::new(source, meta.duplicate(), meta.nar_timeout()));
                    assert(out@.map_values(|l: NarFileLocation| location_view(l)) =~= before.map_values(
                        |l: NarFileLocation| location_view(l),
                    ).push(location_view(out@.last())));
                },
                None => {},
            }
        }
        assert(substituters@.take(i + 1).drop_last() =~= substituters@.take(i as int));
        i = i + 1;
    }
    assert(substituters@.take(n as int) =~= substituters@);
    out
}

/// The outcome of one request for a NAR file.
#[derive(Debug, Clone, Copy, PartialEq, Eq, Structural)]
pub enum FetchOutcome {
    /// The substituter answered with this HTTP status.
    Status(u16),
    /// The request failed.
    RequestFailed,
    /// The request's timeout elapsed.
    TimedOut,
    /// The task making the request failed.
    TaskFailed,
}

/// What to do with one outcome.
#[derive(Debug, Clone, Copy, PartialEq, Eq, Structural)]
pub enum FetchDecision {
    /// Serve the NAR file from this response.
    Serve,
    /// Wait for the other requests.
    Continue,
}

/// The result when no request could be served.
#[derive(Debug, Clone, Copy, PartialEq, Eq, Structural)]
pub enum NarFetchConclusion {
    /// Every substituter said the NAR file does not exist (or may not be read).
    NotFound,
    /// Some substituter failed otherwise.
    Failed,
}

/// The outcome says the NAR file is not there: 404 or 403.
pub open spec fn is_not_found_outcome(o: FetchOutcome) -> bool {
    o matches FetchOutcome::Status(s) && (s == 404 || s == 403)
}

/// The number of not-found outcomes in `os`.
pub open spec fn count_not_found(os: Seq<FetchOutcome>) -> nat
    decreases os.len(),
{
    if os.len() == 0 {
        0
    } else {
        count_not_found(os.drop_last()) + if is_not_found_outcome(os.last()) {
            1nat
        } else {
            0nat
        }
    }
}

proof fn lemma_count_not_found_all(os: Seq<FetchOutcome>)
    ensures
        count_not_found(os) <= os.len(),
        count_not_found(os) == os.len() <==> forall|i: int|
            0 <= i < os.len() ==> is_not_found_outcome(#[trigger] os[i]),
    decreases os.len(),
{
    if os.len() > 0 {
        lemma_count_not_found_all(os.drop_last());
        assert forall|i: int| 0 <= i < os.len() - 1 implies os[i] == os.drop_last()[i] by {}
    }
}

/// The requests for one NAR file sent to several substituters at once, counted as they end.
pub struct NarFetchTally {
    total: usize,
    seen: usize,
    not_found: usize,
    /// The outcomes so far, in the order they came.
    outcomes: Ghost<Seq<FetchOutcome>>,
}

impl NarFetchTally {
    pub closed spec fn spec_total(&self) -> nat {
        self.total as nat
    }

    pub closed spec fn spec_seen(&self) -> nat {
        self.seen as nat
    }

    pub closed spec fn spec_not_found(&self) -> nat {
        self.not_found as nat
    }

    /// The outcomes so far, in the order they came.
    pub closed spec fn spec_outcomes(&self) -> Seq<FetchOutcome> {
        self.outcomes@
    }

    pub closed spec fn wf(&self) -> bool {
        &&& self.not_found <= self.seen <= self.total
        &&& self.seen == self.outcomes@.len()
        &&& self.not_found == count_not_found(self.outcomes@)
    }

    /// A tally for `total` requests.
    pub fn new(total: usize) -> (r: Self)
        ensures
            r.wf(),
            r.spec_total() == total,
            r.spec_seen() == 0,
            r.spec_not_found() == 0,
            r.spec_outcomes() == Seq::<FetchOutcome>::empty(),
    {
        NarFetchTally { total, seen: 0, not_found: 0, outcomes: Ghost(Seq::empty()) }
    }

    /// One request ended with `outcome`: a 200 is served, a 404 or 403 is counted, anything
    /// else is ignored.
    pub fn on_outcome(&mut self, outcome: FetchOutcome) -> (r: FetchDecision)
        requires
            old(self).wf(),
            old(self).spec_seen() < old(self).spec_total(),
        ensures
            final(self).wf(),
            final(self).spec_total() == old(self).spec_total(),
            final(self).spec_seen() == old(self).spec_seen() + 1,
            final(self).spec_outcomes() == old(self).spec_outcomes().push(outcome),
            r == if outcome == FetchOutcome::Status(200) {
                FetchDecision::Serve
            } else {
                FetchDecision::Continue
            },
            final(self).spec_not_found() == old(self).spec_not_found() + if is_not_found_outcome(
                outcome,
            ) {
                1nat
            } else {
                0nat
            },
    {
        self.seen = self.seen + 1;
        self.outcomes = Ghost(self.outcomes@.push(outcome));
        proof {
            assert(self.outcomes@.drop_last() =~= old(self).outcomes@);
        }
        match outcome {
            FetchOutcome::Status(200) => FetchDecision::Serve,
            FetchOutcome::Status(404) | FetchOutcome::Status(403) => {
                self.not_found = self.not_found + 1;
                FetchDecision::Continue
            },
            _ => FetchDecision::Continue,
        }
    }

    /// The result once every request ended without one to serve: not found when all of
    /// them said so.
    pub fn conclude(&self) -> (r: NarFetchConclusion)
        requires
            self.wf(),
        ensures
            r == if self.spec_not_found() == self.spec_total() {
                NarFetchConclusion::NotFound
            } else {
                NarFetchConclusion::Failed
            },
    {
        if self.not_found == self.total {
            NarFetchConclusion::NotFound
        } else {
            NarFetchConclusion::Failed
        }
    }
}

/// The error reported when no substituter served a NAR file.
pub fn nar_stream_error(conclusion: NarFetchConclusion) -> (r: AppError)
    ensures
        r@ == match conclusion {
            NarFetchConclusion::NotFound => spec_app_error(
                AppErrorKind::NotFound,
                "failed to acquire stream for non-existent nar file"@,
            ),
            NarFetchConclusion::Failed => spec_chained_error(
                AppErrorKind::Infrastructure,
                seq!["could not fetch nar from any substituter"@],
                "failed to acquire nar stream from substituters"@,
            ),
        },
{
    match conclusion {
        NarFetchConclusion::NotFound => AppError::not_found(
            String::from_str("failed to acquire stream for non-existent nar file"),
        ),
        NarFetchConclusion::Failed => AppError::chain_infrastructure(
            String::from_str("could not fetch nar from any substituter"),
            String::from_str("failed to acquire nar stream from substituters"),
        ),
    }
}

/// Once every request ended, the NAR file is reported missing exactly when every
/// substituter answered 404 or 403; otherwise the fetch failed.
pub proof fn law_not_found_iff_all_missing(t: &NarFetchTally)
    requires
        t.wf(),
        t.spec_seen() == t.spec_total(),
    ensures
        (t.spec_not_found() == t.spec_total()) <==> forall|i: int|
            0 <= i < t.spec_outcomes().len() ==> is_not_found_outcome(#[trigger] t.spec_outcomes()[i]),
{
    let os = t.outcomes@;
    lemma_count_not_found_all(os);
    assert(t.spec_outcomes() == os);
    if forall|i: int| 0 <= i < os.len() ==> is_not_found_outcome(#[trigger] os[i]) {
        assert(t.spec_not_found() == t.spec_total());
    }
}

/// Candidates are built substituter by substituter, in order: none for no substituter;
/// an available substituter whose storage URL can be joined with the file name adds
/// exactly one candidate, at the joined URL, with its description and its NAR timeout,
/// whatever its custom-storage flag; an unavailable one, or one whose storage URL cannot be
/// joined, adds none.
pub proof fn law_one_candidate_per_available_substituter(
    subs: Seq<Substituter>,
    s: Substituter,
    name: Seq<char>,
)
    ensures
        candidate_locations(Seq::<Substituter>::empty(), name) == Seq::<NarFileLocationView>::empty(),
        candidate_locations(subs.push(s), name) == candidate_locations(subs, name) + match url_join_serialization(
            dir_text(s.spec_meta().storage_url),
            name,
        ) {
            Some(v) => if s.spec_availability().spec_is_unavailable() {
                Seq::<NarFileLocationView>::empty()
            } else {
                seq![
                    NarFileLocationView {
                        source_url: v,
                        substituter: s.spec_meta(),
                        timeout: s.spec_meta().nar_timeout,
                    },
                ]
            },
            None => Seq::<NarFileLocationView>::empty(),
        },
        candidate_locations(subs.push(s), name).len() <= candidate_locations(subs, name).len() + 1,
{
    assert(subs.push(s).drop_last() =~= subs);
    assert(subs.push(s).last() == s);
    let rest = candidate_locations(subs, name);
    assert(rest + Seq::<NarFileLocationView>::empty() =~= rest);
}

/// Only a 404 or a 403 answer says that a substituter lacks the NAR file: a failed or
/// timed-out request, a failed task and every other status do not.
pub proof fn law_only_404_and_403_mean_missing(o: FetchOutcome)
    ensures
        is_not_found_outcome(o) <==> (o == FetchOutcome::Status(404) || o == FetchOutcome::Status(403)),
{
}

/// Once every request ended, the NAR file is reported missing exactly when every
/// substituter answered 404 or 403: one unreachable substituter makes the fetch fail.
pub proof fn law_missing_only_when_all_answered_404_or_403(t: &NarFetchTally)
    requires
        t.wf(),
        t.spec_seen() == t.spec_total(),
    ensures
        (t.spec_not_found() == t.spec_total()) <==> forall|i: int|
            0 <= i < t.spec_outcomes().len() ==> (#[trigger] t.spec_outcomes()[i] == FetchOutcome::Status(404)
                || t.spec_outcomes()[i] == FetchOutcome::Status(403)),
{
    law_not_found_iff_all_missing(t);
    assert forall|i: int| 0 <= i < t.spec_outcomes().len() implies (is_not_found_outcome(
        #[trigger] t.spec_outcomes()[i],
    ) <==> (t.spec_outcomes()[i] == FetchOutcome::Status(404) || t.spec_outcomes()[i]
        == FetchOutcome::Status(403))) by {
        law_only_404_and_403_mean_missing(t.spec_outcomes()[i]);
    }
}

} // verus!
