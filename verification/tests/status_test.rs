use selector4nix::downloads::ActiveDownloadSnapshot;
use selector4nix::status::{
    availability_status, proxy_status, to_response, CacheConfiguration, CacheMode,
    NarUrlRewriteOption, NetworkConfiguration, PeriodicProbingOption, ProxyConfiguration,
    StatusConfiguration, StatusRuntimeInfo, StatusSnapshot,
};
use selector4nix::substituter::{Availability, Substituter, SubstituterMeta};
use selector4nix::url::Url;

fn substituter(url: &str, priority: u32, availability: Availability) -> Substituter {
    Substituter::new(SubstituterMeta::new(Url::new(url).unwrap(), priority), availability)
}

fn snapshot(substituters: Vec<Substituter>, downloads: Vec<ActiveDownloadSnapshot>) -> StatusSnapshot {
    StatusSnapshot {
        runtime: StatusRuntimeInfo {
            version: "0.0.0-test".to_string(),
            cache_mode: CacheMode::InMemory,
            config: StatusConfiguration {
                network: NetworkConfiguration {
                    periodic_probing: PeriodicProbingOption::Enabled,
                    tolerance: 50,
                    nar_info_timeout_secs: 30,
                    nar_timeout_secs: 30,
                    max_concurrent_requests: 12,
                    ignore_nar_info_error: false,
                    chunked_streaming: true,
                    streaming_chunk_max_len: 4194304,
                    streaming_window_max_len: 8,
                },
                proxy: ProxyConfiguration { rewrite_nar_url: NarUrlRewriteOption::ToSelf },
                cache: CacheConfiguration {
                    nar_info_lookup_capacity: 4096,
                    nar_location_capacity: 4096,
                    nar_info_lookup_ttl_secs: 14400,
                    nar_location_ttl_secs: 14400,
                },
            },
            authenticated_substituter_urls: vec![Url::new("https://private.example.com/cache/").unwrap()],
        },
        substituters,
        nar_info_actor_entries: 0,
        nar_file_actor_entries: 0,
        nar_info_persistent_entries: 0,
        nar_file_persistent_entries: 0,
        active_downloads: downloads,
    }
}

#[test]
fn status_reports_config_and_substituters_by_priority() {
    let response = to_response(snapshot(
        vec![
            substituter("https://cache.nixos.org/", 40, Availability::Normal),
            substituter("https://private.example.com/cache/", 10, Availability::MaybeReady { prev_failures: 0 }),
        ],
        vec![],
    ));

    assert_eq!(response.version, "0.0.0-test");
    assert_eq!(response.cache_mode, "in_memory");
    assert!(response.network.periodic_probing);
    assert_eq!(response.network.tolerance_msecs, 50);
    assert_eq!(response.network.nar_info_timeout_secs, 30);
    assert_eq!(response.network.nar_timeout_secs, 30);
    assert_eq!(response.network.max_concurrent_requests, 12);
    assert!(!response.network.ignore_nar_info_error);
    assert_eq!(response.proxy.rewrite_to_target, "self");

    assert_eq!(response.substituters.total, 2);
    assert_eq!(response.substituters.available, 2);
    let items = &response.substituters.items;
    assert_eq!(items[0].url, "https://private.example.com/cache/");
    assert_eq!(items[0].priority, 10);
    assert_eq!(items[0].status, "maybe_ready");
    assert!(items[0].has_credential);
    assert_eq!(items[1].url, "https://cache.nixos.org/");
    assert_eq!(items[1].priority, 40);
    assert_eq!(items[1].status, "normal");
    assert!(!items[1].has_credential);

    assert_eq!(response.cache_stats.nar_info_cache.entries, 0);
    assert_eq!(response.cache_stats.nar_info_cache.capacity, 4096);
    assert_eq!(response.cache_stats.nar_info_cache.ttl_secs, 14400);
    assert_eq!(response.cache_stats.nar_file_cache.entries, 0);
    assert_eq!(response.cache_stats.nar_file_cache.capacity, 4096);
    assert_eq!(response.cache_stats.nar_file_cache.ttl_secs, 14400);
    assert_eq!(response.cache_stats.nar_info_store.entries, 0);
    assert_eq!(response.cache_stats.nar_file_store.entries, 0);
    assert_eq!(response.cache_stats.nar_info_store.ttl_secs, 14400);
    assert_eq!(response.cache_stats.nar_file_store.ttl_secs, 14400);
    assert_eq!(response.active_downloads.total, 0);
}

#[test]
fn equal_priorities_keep_snapshot_order_and_unavailable_are_counted_out() {
    let response = to_response(snapshot(
        vec![
            substituter("https://b.example.com/", 20, Availability::Offline { detected_at: 1 }),
            substituter("https://a.example.com/", 20, Availability::ServiceError { detected_at: 1, prev_failures: 3 }),
            substituter("https://c.example.com/", 5, Availability::Normal),
        ],
        vec![ActiveDownloadSnapshot {
            id: 3,
            name: "codex-0.144.5".to_string(),
            file: "x.nar.xz".to_string(),
            substituter: "https://c.example.com/".to_string(),
            source_url: "https://c.example.com/nar/x.nar.xz".to_string(),
            content_length: Some(5),
            bytes_transferred: 2,
            started_at_unix_ms: 9,
        }],
    ));
    let urls: Vec<&str> = response.substituters.items.iter().map(|i| i.url.as_str()).collect();
    assert_eq!(urls, vec!["https://c.example.com/", "https://b.example.com/", "https://a.example.com/"]);
    assert_eq!(response.substituters.available, 1);
    assert_eq!(response.substituters.items[1].status, "offline");
    assert_eq!(response.substituters.items[2].status, "service_error");
    assert_eq!(response.substituters.items[2].prev_failures, 3);
    assert_eq!(response.active_downloads.total, 1);
    assert_eq!(response.active_downloads.items[0].name, "codex-0.144.5");
    assert_eq!(response.active_downloads.items[0].bytes_transferred, 2);
}

#[test]
fn labels() {
    assert_eq!(proxy_status(NarUrlRewriteOption::Keep).rewrite_to_target, "keep");
    assert_eq!(proxy_status(NarUrlRewriteOption::ToUpstream).rewrite_to_target, "upstream");
    assert_eq!(availability_status(Availability::Normal), "normal");
}
