//! Substituters: their static description and their availability.

use vstd::arithmetic::power2::{lemma_pow2_unfold, pow2, lemma_pow2_strictly_increases};
use vstd::prelude::*;

use crate::error::{single_cause, ErrorSource};
use crate::url::{dir_text, url_join_serialization, Url};

verus! {

/// How long an offline substituter waits before it is probed again, in milliseconds.
pub const OFFLINE_RETRY_PERIOD_MS: u64 = 30_000;

/// Period of the periodic re-probing of substituters, in milliseconds.
pub const REPROBING_PERIOD_MS: u64 = 30_000;

/// The first back-off after a service error, in milliseconds.
pub const BASE_RETRY_DURATION_MS: u64 = 500;

/// The largest back-off after service errors, in milliseconds (`500 * 2^10`).
pub const MAX_RETRY_DURATION_MS: u64 = 512_000;

/// The back-off after `prev_failures` earlier failures: 500 ms doubled per failure, at most ten times.
pub open spec fn spec_retry_backoff_ms(prev_failures: nat) -> nat {
    (500 * pow2(if prev_failures < 10 { prev_failures } else { 10 })) as nat
}

/// Health of a substituter, as observed by the proxy. Instants are milliseconds on a
/// monotonic clock.
#[derive(Debug, Clone, Copy, PartialEq, Eq, Hash, Structural)]
pub enum Availability {
    Normal,
    Offline { detected_at: u64 },
    ServiceError { detected_at: u64, prev_failures: usize },
    MaybeReady { prev_failures: usize },
}

impl Availability {
    /// The substituter is down (offline or failing) and must not be used.
    pub open spec fn spec_is_unavailable(self) -> bool {
        self is Offline || self is ServiceError
    }

    pub open spec fn spec_try_change_to_normal(self) -> Availability {
        match self {
            Availability::MaybeReady { .. } => Availability::Normal,
            otherwise => otherwise,
        }
    }

    pub open spec fn spec_try_change_to_offline(self, now: u64) -> Availability {
        match self {
            Availability::Normal => Availability::Offline { detected_at: now },
            Availability::MaybeReady { .. } => Availability::Offline { detected_at: now },
            otherwise => otherwise,
        }
    }

    pub open spec fn spec_try_change_to_service_error(self, now: u64) -> Availability {
        match self {
            Availability::Normal => Availability::ServiceError { detected_at: now, prev_failures: 0 },
            Availability::MaybeReady { prev_failures } => Availability::ServiceError {
                detected_at: now,
                prev_failures: (prev_failures + 1) as usize,
            },
            otherwise => otherwise,
        }
    }

    pub open spec fn spec_try_change_to_maybe_ready(self) -> Availability {
        match self {
            Availability::Offline { .. } => Availability::MaybeReady { prev_failures: 0 },
            Availability::ServiceError { prev_failures, .. } => Availability::MaybeReady {
                prev_failures,
            },
            otherwise => otherwise,
        }
    }

    pub open spec fn spec_retry_duration(self) -> Option<u64> {
        match self {
            Availability::Offline { .. } => Some(OFFLINE_RETRY_PERIOD_MS),
            Availability::ServiceError { prev_failures, .. } => Some(
                spec_retry_backoff_ms(prev_failures as nat) as u64,
            ),
            _ => None,
        }
    }

    pub open spec fn spec_prev_failures(self) -> usize {
        match self {
            Availability::ServiceError { prev_failures, .. } => prev_failures,
            Availability::MaybeReady { prev_failures } => prev_failures,
            _ => 0,
        }
    }

    /// A substituter that may be ready again becomes normal; other states stay.
    pub fn try_change_to_normal(self) -> (r: Self)
        ensures
            r == self.spec_try_change_to_normal(),
    {
        match self {
            Availability::MaybeReady { .. } => Availability::Normal,
            otherwise => otherwise,
        }
    }

    /// An available substituter becomes offline, detected at `now`; unavailable ones stay.
    pub fn try_change_to_offline(self, now: u64) -> (r: Self)
        ensures
            r == self.spec_try_change_to_offline(now),
    {
        match self {
            Availability::Normal => Availability::Offline { detected_at: now },
            Availability::Offline { .. } => self,
            Availability::ServiceError { .. } => self,
            Availability::MaybeReady { .. } => Availability::Offline { detected_at: now },
        }
    }

    /// An available substituter starts failing at `now`; a substituter that may be ready
    /// again counts one more failure; unavailable ones stay.
    pub fn try_change_to_service_error(self, now: u64) -> (r: Self)
        requires
            self matches Availability::MaybeReady { prev_failures } ==> prev_failures < usize::MAX,
        ensures
            r == self.spec_try_change_to_service_error(now),
    {
        match self {
            Availability::Normal => Availability::ServiceError { detected_at: now, prev_failures: 0 },
            Availability::Offline { .. } => self,
            Availability::ServiceError { .. } => self,
            Availability::MaybeReady { prev_failures } => Availability::ServiceError {
                detected_at: now,
                prev_failures: prev_failures + 1,
            },
        }
    }

    /// An unavailable substituter may be ready again, keeping its failure count.
    pub fn try_change_to_maybe_ready(self) -> (r: Self)
        ensures
            r == self.spec_try_change_to_maybe_ready(),
    {
        match self {
            Availability::Offline { .. } => Availability::MaybeReady { prev_failures: 0 },
            Availability::ServiceError { prev_failures, .. } => Availability::MaybeReady {
                prev_failures,
            },
            otherwise => otherwise,
        }
    }

    /// How long to wait before probing an unavailable substituter again, in milliseconds.
    pub fn retry_duration(&self) -> (r: Option<u64>)
        ensures
            r == self.spec_retry_duration(),
    {
        match self {
            Availability::Offline { .. } => Some(OFFLINE_RETRY_PERIOD_MS),
            Availability::ServiceError { prev_failures, .. } => Some(
                Self::calc_retry_duration(*prev_failures),
            ),
            _ => None,
        }
    }

    fn calc_retry_duration(prev_failures: usize) -> (r: u64)
        ensures
            r == spec_retry_backoff_ms(prev_failures as nat),
            r <= MAX_RETRY_DURATION_MS,
    {
        let exp: usize = if prev_failures < 10 { prev_failures } else { 10 };
        let mut multiplier: u64 = 1;
        let mut i: usize = 0;
        proof {
            vstd::arithmetic::power2::lemma2_to64();
        }
        while i < exp
            invariant
                i <= exp <= 10,
                multiplier == pow2(i as nat),
                pow2(10) == 1024,
            decreases exp - i,
        {
            proof {
                lemma_pow2_unfold((i + 1) as nat);
                lemma_pow2_strictly_increases(i as nat, 10);
            }
            multiplier = multiplier * 2;
            i = i + 1;
        }
        proof {
            if exp < 10 {
                lemma_pow2_strictly_increases(exp as nat, 10);
            }
        }
        BASE_RETRY_DURATION_MS * multiplier
    }

    /// The number of failures counted since the substituter was last normal.
    pub fn prev_failures(&self) -> (r: usize)
        ensures
            r == self.spec_prev_failures(),
    {
        match self {
            Availability::Normal => 0,
            Availability::Offline { .. } => 0,
            Availability::ServiceError { prev_failures, .. } => *prev_failures,
            Availability::MaybeReady { prev_failures } => *prev_failures,
        }
    }

    /// Whether the substituter is offline or failing.
    pub fn is_unavailable(&self) -> (r: bool)
        ensures
            r == self.spec_is_unavailable(),
    {
        match self {
            Availability::Offline { .. } => true,
            Availability::ServiceError { .. } => true,
            _ => false,
        }
    }
}


/// The text of the default storage URL of a substituter: its URL as a directory, joined with `nar`.
pub open spec fn default_storage_text(url: Seq<char>) -> Option<Seq<char>> {
    url_join_serialization(dir_text(url), seq!['n', 'a', 'r'])
}

/// The static description of a substituter, by value.
pub struct SubstituterMetaView {
    pub url: Seq<char>,
    pub storage_url: Seq<char>,
    pub has_custom_storage_url: bool,
    pub priority: u32,
    pub nar_info_timeout: Option<std::time::Duration>,
    pub nar_timeout: Option<std::time::Duration>,
}

/// The static description of a substituter: where it is, where its NAR files are, its
/// priority and its timeouts.
#[derive(Debug)]
pub struct SubstituterMeta {
    url: Url,
    storage_url: Url,
    has_custom_storage_url: bool,
    priority: u32,
    nar_info_timeout: Option<std::time::Duration>,
    nar_timeout: Option<std::time::Duration>,
}

impl View for SubstituterMeta {
    type V = SubstituterMetaView;

    closed spec fn view(&self) -> SubstituterMetaView {
        SubstituterMetaView {
            url: self.url@,
            storage_url: self.storage_url@,
            has_custom_storage_url: self.has_custom_storage_url,
            priority: self.priority,
            nar_info_timeout: self.nar_info_timeout,
            nar_timeout: self.nar_timeout,
        }
    }
}

fn nar_segment() -> (r: &'static str)
    ensures
        r@ == seq!['n', 'a', 'r'],
{
    let s = "nar";
    proof {
        reveal_strlit("nar");
        assert(s@ =~= seq!['n', 'a', 'r']);
    }
    s
}

/// The custom-storage flag says exactly whether the storage URL differs from the default
/// `{url}/nar`, counting a URL whose default cannot be formed as custom.
pub open spec fn custom_flag_agrees(v: SubstituterMetaView) -> bool {
    v.has_custom_storage_url == (default_storage_text(v.url) != Some(v.storage_url))
}

impl SubstituterMeta {
    /// Every description keeps its custom-storage flag in agreement with its URLs.
    #[verifier::type_invariant]
    spec fn custom_flag_invariant(self) -> bool {
        custom_flag_agrees(self@)
    }

    /// A substituter at `url` whose NAR files are under `{url}/nar`, without timeouts.
    pub fn new(url: Url, priority: u32) -> (r: Self)
        requires
            default_storage_text(url@) is Some,
        ensures
            r@.url == url@,
            Some(r@.storage_url) == default_storage_text(url@),
            !r@.has_custom_storage_url,
            r@.priority == priority,
            r@.nar_info_timeout is None,
            r@.nar_timeout is None,
            custom_flag_agrees(r@),
    {
        let storage_url = match url.as_dir().join(nar_segment()) {
            Some(u) => u,
            None => {
                assert(false);
                url.duplicate()
            },
        };
        SubstituterMeta {
            url,
            storage_url,
            has_custom_storage_url: false,
            priority,
            nar_info_timeout: None,
            nar_timeout: None,
        }
    }

    /// As `new`, or `None` when the default storage URL `{url}/nar` cannot be formed.
    pub fn try_new(url: Url, priority: u32) -> (r: Option<Self>)
        ensures
            default_storage_text(url@) is None <==> r is None,
            r matches Some(m) ==> {
                &&& m@.url == url@
                &&& Some(m@.storage_url) == default_storage_text(url@)
                &&& !m@.has_custom_storage_url
                &&& m@.priority == priority
                &&& m@.nar_info_timeout is None
                &&& m@.nar_timeout is None
            },
    {
        match url.as_dir().join(nar_segment()) {
            Some(_) => Some(Self::new(url, priority)),
            None => None,
        }
    }

    pub fn url(&self) -> (r: &Url)
        ensures
            r@ == self@.url,
    {
        &self.url
    }

    pub fn storage_url(&self) -> (r: &Url)
        ensures
            r@ == self@.storage_url,
    {
        &self.storage_url
    }

    /// Whether NAR files are served from elsewhere than `{url}/nar`.
    pub fn has_custom_storage_url(&self) -> (r: bool)
        ensures
            r == self@.has_custom_storage_url,
            r == (default_storage_text(self@.url) != Some(self@.storage_url)),
    {
        proof {
            use_type_invariant(self);
        }
        self.has_custom_storage_url
    }

    pub fn priority(&self) -> (r: u32)
        ensures
            r == self@.priority,
    {
        self.priority
    }

    pub fn nar_info_timeout(&self) -> (r: Option<std::time::Duration>)
        ensures
            r == self@.nar_info_timeout,
    {
        self.nar_info_timeout
    }

    pub fn nar_timeout(&self) -> (r: Option<std::time::Duration>)
        ensures
            r == self@.nar_timeout,
    {
        self.nar_timeout
    }

    /// A copy of this description.
    pub fn duplicate(&self) -> (r: Self)
        ensures
            r@ == self@,
    {
        proof {
            use_type_invariant(self);
        }
        SubstituterMeta {
            url: self.url.duplicate(),
            storage_url: self.storage_url.duplicate(),
            has_custom_storage_url: self.has_custom_storage_url,
            priority: self.priority,
            nar_info_timeout: self.nar_info_timeout,
            nar_timeout: self.nar_timeout,
        }
    }

    /// This substituter with NAR files under `storage_url`; the storage URL counts as
    /// custom unless it is the default `{url}/nar`.
    pub fn with_storage_url(&self, storage_url: Url) -> (r: Self)
        ensures
            r@.url == self@.url,
            r@.storage_url == storage_url@,
            r@.has_custom_storage_url == match default_storage_text(self@.url) {
                Some(d) => storage_url@ != d,
                None => true,
            },
            r@.priority == self@.priority,
            r@.nar_info_timeout == self@.nar_info_timeout,
            r@.nar_timeout == self@.nar_timeout,
            custom_flag_agrees(r@),
    {
        let has_custom_storage_url = match self.url.as_dir().join(nar_segment()) {
            Some(default) => !storage_url.same_as(&default),
            None => true,
        };
        SubstituterMeta {
            url: self.url.duplicate(),
            storage_url,
            has_custom_storage_url,
            priority: self.priority,
            nar_info_timeout: self.nar_info_timeout,
            nar_timeout: self.nar_timeout,
        }
    }

    /// This substituter with the given timeout for NAR info requests.
    pub fn with_nar_info_timeout(&self, timeout: Option<std::time::Duration>) -> (r: Self)
        ensures
            r@ == (SubstituterMetaView { nar_info_timeout: timeout, ..self@ }),
            custom_flag_agrees(r@),
    {
        proof {
            use_type_invariant(self);
        }
        SubstituterMeta {
            url: self.url.duplicate(),
            storage_url: self.storage_url.duplicate(),
            has_custom_storage_url: self.has_custom_storage_url,
            priority: self.priority,
            nar_info_timeout: timeout,
            nar_timeout: self.nar_timeout,
        }
    }

    /// This substituter with the given timeout for NAR file requests.
    pub fn with_nar_timeout(&self, timeout: Option<std::time::Duration>) -> (r: Self)
        ensures
            r@ == (SubstituterMetaView { nar_timeout: timeout, ..self@ }),
            custom_flag_agrees(r@),
    {
        proof {
            use_type_invariant(self);
        }
        SubstituterMeta {
            url: self.url.duplicate(),
            storage_url: self.storage_url.duplicate(),
            has_custom_storage_url: self.has_custom_storage_url,
            priority: self.priority,
            nar_info_timeout: self.nar_info_timeout,
            nar_timeout: timeout,
        }
    }
}


impl Clone for SubstituterMeta {
    fn clone(&self) -> (r: Self)
        ensures
            r@ == self@,
    {
        self.duplicate()
    }
}

/// A substituter as the proxy knows it: its description and its current availability.
#[derive(Debug, Clone)]
pub struct Substituter {
    meta: SubstituterMeta,
    availability: Availability,
}

impl Substituter {
    pub closed spec fn spec_meta(&self) -> SubstituterMetaView {
        self.meta@
    }

    pub closed spec fn spec_availability(&self) -> Availability {
        self.availability
    }

    pub fn new(meta: SubstituterMeta, availability: Availability) -> (r: Self)
        ensures
            r.spec_meta() == meta@,
            r.spec_availability() == availability,
    {
        Substituter { meta, availability }
    }

    pub fn meta(&self) -> (r: &SubstituterMeta)
        ensures
            r@ == self.spec_meta(),
    {
        &self.meta
    }

    pub fn url(&self) -> (r: &Url)
        ensures
            r@ == self.spec_meta().url,
    {
        self.meta.url()
    }

    pub fn priority(&self) -> (r: u32)
        ensures
            r == self.spec_meta().priority,
    {
        self.meta.priority()
    }

    pub fn availability(&self) -> (r: Availability)
        ensures
            r == self.spec_availability(),
    {
        self.availability
    }

    pub fn prev_failures(&self) -> (r: usize)
        ensures
            r == self.spec_availability().spec_prev_failures(),
    {
        self.availability.prev_failures()
    }

    /// The substituter answers normally.
    pub fn is_normal(&self) -> (r: bool)
        ensures
            r == (self.spec_availability() is Normal),
    {
        match self.availability {
            Availability::Normal => true,
            _ => false,
        }
    }

    /// The substituter is offline or failing.
    pub fn is_unavailable(&self) -> (r: bool)
        ensures
            r == self.spec_availability().spec_is_unavailable(),
    {
        self.availability.is_unavailable()
    }

    /// A copy of this substituter.
    pub fn duplicate(&self) -> (r: Self)
        ensures
            r.spec_meta() == self.spec_meta(),
            r.spec_availability() == self.spec_availability(),
    {
        Substituter { meta: self.meta.duplicate(), availability: self.availability }
    }

    /// The substituter answered normally.
    pub fn on_detected_normal(self) -> (r: Self)
        ensures
            r.spec_meta() == self.spec_meta(),
            r.spec_availability() == self.spec_availability().spec_try_change_to_normal(),
    {
        Substituter { meta: self.meta, availability: self.availability.try_change_to_normal() }
    }

    /// The substituter was found offline at `now`; returns when to retry it and the
    /// updated substituter.
    pub fn on_detected_offline(self, now: u64) -> (r: (u64, Self))
        requires
            !self.spec_availability().spec_is_unavailable(),
            now + OFFLINE_RETRY_PERIOD_MS <= u64::MAX,
        ensures
            r.1.spec_meta() == self.spec_meta(),
            r.1.spec_availability() == self.spec_availability().spec_try_change_to_offline(now),
            r.0 == now + OFFLINE_RETRY_PERIOD_MS,
    {
        let availability = self.availability.try_change_to_offline(now);
        (now + OFFLINE_RETRY_PERIOD_MS, Substituter { meta: self.meta, availability })
    }

    /// The substituter answered with a service error at `now`; returns when to retry it
    /// and the updated substituter.
    pub fn on_detected_service_error(self, now: u64) -> (r: (u64, Self))
        requires
            !self.spec_availability().spec_is_unavailable(),
            self.spec_availability().spec_prev_failures() < usize::MAX,
            now + spec_retry_backoff_ms(
                self.spec_availability().spec_try_change_to_service_error(
                    now,
                ).spec_prev_failures() as nat,
            ) <= u64::MAX,
        ensures
            r.1.spec_meta() == self.spec_meta(),
            r.1.spec_availability() == self.spec_availability().spec_try_change_to_service_error(
                now,
            ),
            r.0 == now + spec_retry_backoff_ms(r.1.spec_availability().spec_prev_failures() as nat),
    {
        let availability = self.availability.try_change_to_service_error(now);
        let backoff = Availability::calc_retry_duration(availability.prev_failures());
        (now + backoff, Substituter { meta: self.meta, availability })
    }

    /// The time to retry has come: the substituter may be ready again.
    pub fn on_next_retry_ready(self) -> (r: Self)
        ensures
            r.spec_meta() == self.spec_meta(),
            r.spec_availability() == self.spec_availability().spec_try_change_to_maybe_ready(),
    {
        Substituter { meta: self.meta, availability: self.availability.try_change_to_maybe_ready() }
    }
}

/// Why probing a substituter failed.
#[derive(Debug, Clone, PartialEq, Eq)]
pub enum ProbeSubstituterError {
    /// The substituter could not be reached.
    Offline { source: String },
    /// The substituter answered with an error.
    Service { source: String },
}

/// What a probing failure displays.
pub open spec fn spec_probe_error_description(e: ProbeSubstituterError) -> Seq<char> {
    match e {
        ProbeSubstituterError::Offline { .. } => "could not probe offline substituter"@,
        ProbeSubstituterError::Service { .. } => "probing got service error from substituter"@,
    }
}

impl ErrorSource for ProbeSubstituterError {
    open spec fn spec_describe(&self) -> Seq<char> {
        spec_probe_error_description(*self)
    }

    /// The failure the probe ran into.
    open spec fn spec_causes(&self) -> Seq<Seq<char>> {
        match *self {
            ProbeSubstituterError::Offline { source } => seq![source@],
            ProbeSubstituterError::Service { source } => seq![source@],
        }
    }

    fn causes(&self) -> (r: Vec<String>) {
        match self {
            ProbeSubstituterError::Offline { source } => single_cause(source.clone()),
            ProbeSubstituterError::Service { source } => single_cause(source.clone()),
        }
    }

    fn describe(&self) -> (r: String) {
        match self {
            ProbeSubstituterError::Offline { .. } => String::from_str(
                "could not probe offline substituter",
            ),
            ProbeSubstituterError::Service { .. } => String::from_str(
                "probing got service error from substituter",
            ),
        }
    }
}

} // verus!
