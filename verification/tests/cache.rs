use iptv::cache::{needs_warming, CacheManager, CacheMetadata, CachedData};

fn meta(created_at: u64, ttl: u64) -> CacheMetadata {
    CacheMetadata::new_at("http://a.tv".to_string(), None, ttl, created_at)
}

#[test]
fn metadata_records_creation_and_lifetime() {
    let m = CacheMetadata::new_at("http://a.tv".to_string(), Some("A".to_string()), 3600, 1000);
    assert_eq!(m.created_at, 1000);
    assert_eq!(m.ttl_seconds, 3600);
    assert_eq!(m.provider_url, "http://a.tv");
    assert_eq!(m.provider_name, Some("A".to_string()));
}

#[test]
fn entry_expires_only_after_its_lifetime() {
    let m = meta(1000, 60);
    assert!(!m.is_expired_at(1000));
    assert!(!m.is_expired_at(1060));
    assert!(m.is_expired_at(1061));
    assert!(!m.is_expired_at(10));
}

#[test]
fn time_left_counts_down_to_zero() {
    let m = meta(1000, 60);
    assert_eq!(m.time_until_expiry_at(1000), 60);
    assert_eq!(m.time_until_expiry_at(1059), 1);
    assert_eq!(m.time_until_expiry_at(1060), 0);
    assert_eq!(m.time_until_expiry_at(5000), 0);
}

#[test]
fn new_metadata_reads_the_clock() {
    let m = CacheMetadata::new("http://a.tv".to_string(), None, 3600);
    assert!(m.created_at > 1_600_000_000);
    assert!(!m.is_expired());
    let left = m.time_until_expiry();
    assert!(left.as_secs() <= 3600 && left.as_secs() >= 3590);
}

#[test]
fn cached_data_follows_its_metadata() {
    let d = CachedData::new(vec![1u32, 2], meta(100, 10));
    assert!(!d.is_expired_at(110));
    assert!(d.is_expired_at(111));
}

#[test]
fn warming_fetches_missing_and_expired_entries() {
    assert!(needs_warming(&None, 5));
    assert!(!needs_warming(&Some(meta(100, 10)), 105));
    assert!(needs_warming(&Some(meta(100, 10)), 200));
}

#[test]
fn cache_paths() {
    let m = CacheManager::new("/home/u/.cache", Vec::new());
    assert_eq!(m.cache_dir(), "/home/u/.cache/iptv");
    assert_eq!(m.providers_dir(), "/home/u/.cache/iptv/providers");
    assert_eq!(m.provider_dir("abc"), "/home/u/.cache/iptv/providers/abc");
    assert_eq!(m.get_cache_path("abc", "live_categories", None), "/home/u/.cache/iptv/providers/abc/live_categories.json");
    assert_eq!(
        m.get_cache_path("abc", "live_streams", Some("cat1")),
        "/home/u/.cache/iptv/providers/abc/live_streams_081706cc.json"
    );
}

#[test]
fn provider_hash_is_sha256_prefix_and_recorded() {
    let mut m = CacheManager::new("/c", Vec::new());
    let (h, added) = m.get_provider_hash("http://example.com:8080");
    assert_eq!(h, "e0ddde96f675ccf3");
    assert!(added);
    let (h2, added2) = m.get_provider_hash("http://example.com:8080");
    assert_eq!(h2, h);
    assert!(!added2);
    assert_eq!(m.list_cached_providers(), vec![("http://example.com:8080".to_string(), h)]);
}

#[test]
fn provider_hash_from_saved_index_wins() {
    let mut m = CacheManager::new("/c", vec![
        ("http://a.tv".to_string(), "old".to_string()),
        ("http://a.tv".to_string(), "saved".to_string()),
    ]);
    let (h, added) = m.get_provider_hash("http://a.tv");
    assert_eq!(h, "saved");
    assert!(!added);
    assert_eq!(m.list_cached_providers().len(), 1);
    let (h2, _) = m.get_provider_hash("http://a.tv:80");
    assert_ne!(h2, "saved");
}

#[test]
fn hashed_provider_appears_in_a_later_listing() {
    let mut m = CacheManager::new("/c", vec![("http://a.tv".to_string(), "saved".to_string())]);
    let (h, _) = m.get_provider_hash("http://b.tv");
    let listing = m.list_cached_providers();
    assert_eq!(listing.len(), 2);
    assert!(listing.contains(&("http://b.tv".to_string(), h)));
    assert!(listing.contains(&("http://a.tv".to_string(), "saved".to_string())));
}
