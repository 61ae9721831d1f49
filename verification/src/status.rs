//! The status report: runtime configuration, substituters, caches and downloads.

use vstd::prelude::*;

use crate::downloads::ActiveDownloadSnapshot;
use crate::sort::{is_stable_order, stable_order};
use crate::substituter::{Availability, Substituter};
use crate::url::Url;

verus! {

/// How NAR URLs in served NAR info are rewritten.
#[derive(Debug, Clone, Copy, PartialEq, Eq, Hash, Structural)]
pub enum NarUrlRewriteOption {
    Keep,
    ToSelf,
    ToUpstream,
}

/// Where cached lookups are kept.
#[derive(Debug, Clone, Copy, PartialEq, Eq, Hash, Structural)]
pub enum CacheMode {
    Persistent,
    InMemory,
}

/// Whether substituters are probed periodically.
#[derive(Debug, Clone, Copy, PartialEq, Eq, Hash, Structural)]
pub enum PeriodicProbingOption {
    Enabled,
    Disabled,
}

/// Network settings shown on the status page.
#[derive(Debug, Clone, Copy, PartialEq, Eq)]
pub struct NetworkConfiguration {
    pub periodic_probing: PeriodicProbingOption,
    pub tolerance: u64,
    pub nar_info_timeout_secs: u64,
    pub nar_timeout_secs: u64,
    pub max_concurrent_requests: usize,
    pub ignore_nar_info_error: bool,
    pub chunked_streaming: bool,
    pub streaming_chunk_max_len: usize,
    pub streaming_window_max_len: usize,
}

/// Proxy settings shown on the status page.
#[derive(Debug, Clone, Copy, PartialEq, Eq)]
pub struct ProxyConfiguration {
    pub rewrite_nar_url: NarUrlRewriteOption,
}

/// Cache settings shown on the status page.
#[derive(Debug, Clone, Copy, PartialEq, Eq)]
pub struct CacheConfiguration {
    pub nar_info_lookup_capacity: usize,
    pub nar_location_capacity: usize,
    pub nar_info_lookup_ttl_secs: u64,
    pub nar_location_ttl_secs: u64,
}

/// The configuration that the status page reports.
#[derive(Debug, Clone, Copy, PartialEq, Eq)]
pub struct StatusConfiguration {
    pub network: NetworkConfiguration,
    pub proxy: ProxyConfiguration,
    pub cache: CacheConfiguration,
}

/// Facts about the running process.
pub struct StatusRuntimeInfo {
    pub version: String,
    pub cache_mode: CacheMode,
    pub config: StatusConfiguration,
    /// Substituter URLs for which a credential is configured.
    pub authenticated_substituter_urls: Vec<Url>,
}

/// Everything the status page reports, gathered at one moment.
pub struct StatusSnapshot {
    pub runtime: StatusRuntimeInfo,
    pub substituters: Vec<Substituter>,
    pub nar_info_actor_entries: usize,
    pub nar_file_actor_entries: usize,
    pub nar_info_persistent_entries: usize,
    pub nar_file_persistent_entries: usize,
    pub active_downloads: Vec<ActiveDownloadSnapshot>,
}

pub struct NetworkStatus {
    pub periodic_probing: bool,
    pub tolerance_msecs: u64,
    pub nar_info_timeout_secs: u64,
    pub nar_timeout_secs: u64,
    pub max_concurrent_requests: usize,
    pub ignore_nar_info_error: bool,
    pub chunked_streaming: bool,
    pub streaming_chunk_max_len: usize,
    pub streaming_window_max_len: usize,
}

pub struct ProxyStatus {
    pub rewrite_to_target: String,
}

pub struct SubstituterStatusItem {
    pub url: String,
    pub priority: u32,
    pub status: String,
    pub prev_failures: usize,
    pub has_credential: bool,
}

pub struct SubstitutersStatus {
    pub total: usize,
    pub available: usize,
    pub items: Vec<SubstituterStatusItem>,
}

pub struct CacheStatus {
    pub entries: usize,
    pub capacity: usize,
    pub ttl_secs: u64,
}

pub struct StoreStatus {
    pub entries: usize,
    pub ttl_secs: u64,
}

pub struct CacheStatsStatus {
    pub nar_info_cache: CacheStatus,
    pub nar_file_cache: CacheStatus,
    pub nar_info_store: StoreStatus,
    pub nar_file_store: StoreStatus,
}

pub struct ActiveDownloadItem {
    pub name: String,
    pub file: String,
    pub substituter: String,
    pub source_url: String,
    pub content_length: Option<u64>,
    pub bytes_transferred: u64,
    pub started_at_unix_ms: u64,
}

pub struct ActiveDownloadsStatus {
    pub total: usize,
    pub items: Vec<ActiveDownloadItem>,
}

/// The body of the status endpoint.
pub struct StatusResponse {
    pub version: String,
    pub cache_mode: String,
    pub network: NetworkStatus,
    pub proxy: ProxyStatus,
    pub substituters: SubstitutersStatus,
    pub cache_stats: CacheStatsStatus,
    pub active_downloads: ActiveDownloadsStatus,
}

/// The label of an availability on the status page.
pub open spec fn spec_availability_status(a: Availability) -> Seq<char> {
    match a {
        Availability::Normal => "normal"@,
        Availability::Offline { .. } => "offline"@,
        Availability::ServiceError { .. } => "service_error"@,
        Availability::MaybeReady { .. } => "maybe_ready"@,
    }
}

/// The label of a cache mode on the status page.
pub open spec fn spec_cache_mode_label(m: CacheMode) -> Seq<char> {
    match m {
        CacheMode::Persistent => "persistent"@,
        CacheMode::InMemory => "in_memory"@,
    }
}

/// The label of a NAR URL rewrite option on the status page.
pub open spec fn spec_rewrite_label(o: NarUrlRewriteOption) -> Seq<char> {
    match o {
        NarUrlRewriteOption::Keep => "keep"@,
        NarUrlRewriteOption::ToSelf => "self"@,
        NarUrlRewriteOption::ToUpstream => "upstream"@,
    }
}

/// Some URL in `urls` has the serialization `u`.
pub open spec fn contains_url(urls: Seq<Url>, u: Seq<char>) -> bool {
    exists|k: int| 0 <= k < urls.len() && (#[trigger] urls[k])@ == u
}

/// The number of substituters that are not unavailable.
pub open spec fn count_available(subs: Seq<Substituter>) -> nat
    decreases subs.len(),
{
    if subs.len() == 0 {
        0
    } else {
        count_available(subs.drop_last()) + if subs.last().spec_availability().spec_is_unavailable() {
            0nat
        } else {
            1nat
        }
    }
}

/// The status line of `sub`.
pub open spec fn item_describes(item: SubstituterStatusItem, sub: Substituter, auth: Seq<Url>) -> bool {
    &&& item.url@ == sub.spec_meta().url
    &&& item.priority == sub.spec_meta().priority
    &&& item.status@ == spec_availability_status(sub.spec_availability())
    &&& item.prev_failures == sub.spec_availability().spec_prev_failures()
    &&& item.has_credential == contains_url(auth, sub.spec_meta().url)
}

/// The priorities of the substituters, as sort keys.
pub open spec fn priority_keys(subs: Seq<Substituter>) -> Seq<u64> {
    Seq::new(subs.len(), |i: int| subs[i].spec_meta().priority as u64)
}

/// The download line that shows `d`.
pub open spec fn download_item_describes(item: ActiveDownloadItem, d: ActiveDownloadSnapshot) -> bool {
    &&& item.name@ == d.name@
    &&& item.file@ == d.file@
    &&& item.substituter@ == d.substituter@
    &&& item.source_url@ == d.source_url@
    &&& item.content_length == d.content_length
    &&& item.bytes_transferred == d.bytes_transferred
    &&& item.started_at_unix_ms == d.started_at_unix_ms
}

fn owned(s: &str) -> (r: String)
    ensures
        r@ == s@,
{
    String::from_str(s)
}

/// The label of an availability on the status page.
pub fn availability_status(a: Availability) -> (r: String)
    ensures
        r@ == spec_availability_status(a),
{
    match a {
        Availability::Normal => owned("normal"),
        Availability::Offline { .. } => owned("offline"),
        Availability::ServiceError { .. } => owned("service_error"),
        Availability::MaybeReady { .. } => owned("maybe_ready"),
    }
}

/// The proxy part of the status report.
pub fn proxy_status(proxy: NarUrlRewriteOption) -> (r: ProxyStatus)
    ensures
        r.rewrite_to_target@ == spec_rewrite_label(proxy),
{
    let rewrite_to_target = match proxy {
        NarUrlRewriteOption::Keep => owned("keep"),
        NarUrlRewriteOption::ToSelf => owned("self"),
        NarUrlRewriteOption::ToUpstream => owned("upstream"),
    };
    ProxyStatus { rewrite_to_target }
}

fn has_url(urls: &Vec<Url>, u: &Url) -> (r: bool)
    ensures
        r == contains_url(urls@, u@),
{
    let n = urls.len();
    let mut i: usize = 0;
    while i < n
        invariant
            n == urls@.len(),
            i <= n,
            forall|k: int| 0 <= k < i ==> (#[trigger] urls@[k])@ != u@,
        decreases n - i,
    {
        if urls[i].same_as(u) {
            return true;
        }
        i = i + 1;
    }
    false
}

impl StatusSnapshot {
    /// The number of substituters that may be used.
    pub fn available_substituter_count(&self) -> (r: usize)
        ensures
            r == count_available(self.substituters@),
    {
        let n = self.substituters.len();
        let mut count: usize = 0;
        let mut i: usize = 0;
        while i < n
            invariant
                n == self.substituters@.len(),
                i <= n,
                count == count_available(self.substituters@.take(i as int)),
                count <= i,
            decreases n - i,
        {
            assert(self.substituters@.take(i + 1).drop_last() =~= self.substituters@.take(i as int));
            if !self.substituters[i].is_unavailable() {
                count = count + 1;
            }
            i = i + 1;
        }
        assert(self.substituters@.take(n as int) =~= self.substituters@);
        count
    }
}

fn substituter_item(sub: &Substituter, auth: &Vec<Url>) -> (r: SubstituterStatusItem)
    ensures
        item_describes(r, *sub, auth@),
{
    SubstituterStatusItem {
        url: String::from_str(sub.url().value()),
        priority: sub.priority(),
        status: availability_status(sub.availability()),
        prev_failures: sub.prev_failures(),
        has_credential: has_url(auth, sub.url()),
    }
}

fn download_item(d: &ActiveDownloadSnapshot) -> (r: ActiveDownloadItem)
    ensures
        download_item_describes(r, *d),
{
    ActiveDownloadItem {
        name: d.name.clone(),
        file: d.file.clone(),
        substituter: d.substituter.clone(),
        source_url: d.source_url.clone(),
        content_length: d.content_length,
        bytes_transferred: d.bytes_transferred,
        started_at_unix_ms: d.started_at_unix_ms,
    }
}

/// The status report of `snapshot`: substituters by priority (ties in snapshot order),
/// downloads in snapshot order.
pub fn to_response(snapshot: StatusSnapshot) -> (r: StatusResponse)
    ensures
        r.version@ == snapshot.runtime.version@,
        r.cache_mode@ == spec_cache_mode_label(snapshot.runtime.cache_mode),
        r.network.periodic_probing == (snapshot.runtime.config.network.periodic_probing
            == PeriodicProbingOption::Enabled),
        r.network.tolerance_msecs == snapshot.runtime.config.network.tolerance,
        r.network.nar_info_timeout_secs == snapshot.runtime.config.network.nar_info_timeout_secs,
        r.network.nar_timeout_secs == snapshot.runtime.config.network.nar_timeout_secs,
        r.network.max_concurrent_requests
            == snapshot.runtime.config.network.max_concurrent_requests,
        r.network.ignore_nar_info_error == snapshot.runtime.config.network.ignore_nar_info_error,
        r.network.chunked_streaming == snapshot.runtime.config.network.chunked_streaming,
        r.network.streaming_chunk_max_len
            == snapshot.runtime.config.network.streaming_chunk_max_len,
        r.network.streaming_window_max_len
            == snapshot.runtime.config.network.streaming_window_max_len,
        r.proxy.rewrite_to_target@ == spec_rewrite_label(
            snapshot.runtime.config.proxy.rewrite_nar_url,
        ),
        r.substituters.total == snapshot.substituters@.len(),
        r.substituters.available == count_available(snapshot.substituters@),
        r.substituters.items@.len() == snapshot.substituters@.len(),
        exists|order: Seq<usize>|
            is_stable_order(priority_keys(snapshot.substituters@), order) && forall|k: int|
                0 <= k < order.len() ==> item_describes(
                    #[trigger] r.substituters.items@[k],
                    snapshot.substituters@[order[k] as int],
                    snapshot.runtime.authenticated_substituter_urls@,
                ),
        r.cache_stats.nar_info_cache.entries == snapshot.nar_info_actor_entries,
        r.cache_stats.nar_info_cache.capacity
            == snapshot.runtime.config.cache.nar_info_lookup_capacity,
        r.cache_stats.nar_info_cache.ttl_secs
            == snapshot.runtime.config.cache.nar_info_lookup_ttl_secs,
        r.cache_stats.nar_file_cache.entries == snapshot.nar_file_actor_entries,
        r.cache_stats.nar_file_cache.capacity
            == snapshot.runtime.config.cache.nar_location_capacity,
        r.cache_stats.nar_file_cache.ttl_secs
            == snapshot.runtime.config.cache.nar_location_ttl_secs,
        r.cache_stats.nar_info_store.entries == snapshot.nar_info_persistent_entries,
        r.cache_stats.nar_info_store.ttl_secs
            == snapshot.runtime.config.cache.nar_info_lookup_ttl_secs,
        r.cache_stats.nar_file_store.entries == snapshot.nar_file_persistent_entries,
        r.cache_stats.nar_file_store.ttl_secs
            == snapshot.runtime.config.cache.nar_location_ttl_secs,
        r.active_downloads.total == snapshot.active_downloads@.len(),
        r.active_downloads.items@.len() == snapshot.active_downloads@.len(),
        forall|k: int|
            0 <= k < snapshot.active_downloads@.len() ==> download_item_describes(
                #[trigger] r.active_downloads.items@[k],
                snapshot.active_downloads@[k],
            ),
{
    let config = snapshot.runtime.config;
    let subs = &snapshot.substituters;
    let auth = &snapshot.runtime.authenticated_substituter_urls;
    let n = subs.len();

    let mut keys: Vec<u64> = Vec::new();
    let mut i: usize = 0;
    while i < n
        invariant
            n == subs@.len(),
            i <= n,
            keys@.len() == i,
            forall|k: int| 0 <= k < i ==> keys@[k] == (#[trigger] subs@[k]).spec_meta().priority as u64,
        decreases n - i,
    {
        keys.push(subs[i].priority() as u64);
        i = i + 1;
    }
    assert(keys@ =~= priority_keys(subs@));
    let order = stable_order(&keys);

    let mut items: Vec<SubstituterStatusItem> = Vec::new();
    let mut k: usize = 0;
    while k < n
        invariant
            n == subs@.len(),
            is_stable_order(priority_keys(subs@), order@),
            k <= n,
            items@.len() == k,
            forall|j: int|
                0 <= j < k ==> item_describes(
                    #[trigger] items@[j],
                    subs@[order@[j] as int],
                    auth@,
                ),
        decreases n - k,
    {
        let idx = order[k];
        assert(order@[k as int] < priority_keys(subs@).len());
        items.push(substituter_item(&subs[idx], auth));
        k = k + 1;
    }

    let available = snapshot.available_substituter_count();
    let downloads = &snapshot.active_downloads;
    let m = downloads.len();
    let mut download_items: Vec<ActiveDownloadItem> = Vec::new();
    let mut j: usize = 0;
    while j < m
        invariant
            m == downloads@.len(),
            j <= m,
            download_items@.len() == j,
            forall|t: int|
                0 <= t < j ==> download_item_describes(#[trigger] download_items@[t], downloads@[t]),
        decreases m - j,
    {
        download_items.push(download_item(&downloads[j]));
        j = j + 1;
    }

    let cache_mode = match snapshot.runtime.cache_mode {
        CacheMode::Persistent => owned("persistent"),
        CacheMode::InMemory => owned("in_memory"),
    };
    let periodic_probing = match config.network.periodic_probing {
        PeriodicProbingOption::Enabled => true,
        PeriodicProbingOption::Disabled => false,
    };
    StatusResponse {
        version: snapshot.runtime.version.clone(),
        cache_mode,
        network: NetworkStatus {
            periodic_probing,
            tolerance_msecs: config.network.tolerance,
            nar_info_timeout_secs: config.network.nar_info_timeout_secs,
            nar_timeout_secs: config.network.nar_timeout_secs,
            max_concurrent_requests: config.network.max_concurrent_requests,
            ignore_nar_info_error: config.network.ignore_nar_info_error,
            chunked_streaming: config.network.chunked_streaming,
            streaming_chunk_max_len: config.network.streaming_chunk_max_len,
            streaming_window_max_len: config.network.streaming_window_max_len,
        },
        proxy: proxy_status(config.proxy.rewrite_nar_url),
        substituters: SubstitutersStatus { total: n, available, items },
        cache_stats: CacheStatsStatus {
            nar_info_cache: CacheStatus {
                entries: snapshot.nar_info_actor_entries,
                capacity: config.cache.nar_info_lookup_capacity,
                ttl_secs: config.cache.nar_info_lookup_ttl_secs,
            },
            nar_file_cache: CacheStatus {
                entries: snapshot.nar_file_actor_entries,
                capacity: config.cache.nar_location_capacity,
                ttl_secs: config.cache.nar_location_ttl_secs,
            },
            nar_info_store: StoreStatus {
                entries: snapshot.nar_info_persistent_entries,
                ttl_secs: config.cache.nar_info_lookup_ttl_secs,
            },
            nar_file_store: StoreStatus {
                entries: snapshot.nar_file_persistent_entries,
                ttl_secs: config.cache.nar_location_ttl_secs,
            },
        },
        active_downloads: ActiveDownloadsStatus { total: m, items: download_items },
    }
}

/// The status page names each cache mode, availability and rewrite option by its own
/// label: `persistent` and `in_memory`; `normal`, `offline`, `service_error` and
/// `maybe_ready`; `keep`, `self` and `upstream`. Different modes get different labels.
pub proof fn law_status_labels()
    ensures
        spec_cache_mode_label(CacheMode::Persistent) == "persistent"@,
        spec_cache_mode_label(CacheMode::InMemory) == "in_memory"@,
        spec_cache_mode_label(CacheMode::Persistent) != spec_cache_mode_label(CacheMode::InMemory),
        spec_availability_status(Availability::Normal) == "normal"@,
        forall|t: u64| spec_availability_status(Availability::Offline { detected_at: t }) == "offline"@,
        forall|t: u64, k: usize|
            spec_availability_status(Availability::ServiceError { detected_at: t, prev_failures: k })
                == "service_error"@,
        forall|k: usize| spec_availability_status(Availability::MaybeReady { prev_failures: k }) == "maybe_ready"@,
        spec_rewrite_label(NarUrlRewriteOption::Keep) == "keep"@,
        spec_rewrite_label(NarUrlRewriteOption::ToSelf) == "self"@,
        spec_rewrite_label(NarUrlRewriteOption::ToUpstream) == "upstream"@,
{
    reveal_strlit("persistent");
    reveal_strlit("in_memory");
    assert("persistent"@.len() == 10);
    assert("in_memory"@.len() == 9);
}

} // verus!
