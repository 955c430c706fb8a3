use weather_gateway::cache::{apply_refresh, ResponseCache, SharedCache, CACHE_TTL_SECONDS};
use weather_gateway::errors::WeatherError;

#[test]
fn fresh_one_second_before_ttl() {
    let mut cache = ResponseCache::new();
    cache.write(1000, String::from("doc"));
    let (age, payload) = cache.read(1000 + CACHE_TTL_SECONDS - 1).unwrap();
    assert_eq!(age, CACHE_TTL_SECONDS - 1);
    assert_eq!(payload, "doc");
}

#[test]
fn stale_at_exactly_ttl() {
    let mut cache = ResponseCache::new();
    cache.write(1000, String::from("doc"));
    assert!(cache.read(1000 + CACHE_TTL_SECONDS).is_none());
    assert!(cache.read(1000 + CACHE_TTL_SECONDS + 1).is_none());
}

#[test]
fn empty_entry_is_never_served() {
    let cache = ResponseCache::new();
    assert!(cache.read(0).is_none());
    assert!(cache.read(10).is_none());
}

#[test]
fn clock_before_creation_counts_as_stale() {
    let mut cache = ResponseCache::new();
    cache.write(1000, String::from("doc"));
    assert!(cache.read(999).is_none());
}

#[test]
fn read_returns_the_entry_whole() {
    let mut cache = ResponseCache::new();
    cache.write(50, String::from("old payload"));
    let (age, payload) = cache.read(60).unwrap();
    assert_eq!((age, payload.as_str()), (10, "old payload"));
    cache.write(70, String::from("new payload"));
    let (age, payload) = cache.read(75).unwrap();
    assert_eq!((age, payload.as_str()), (5, "new payload"));
}

#[test]
fn successful_refresh_replaces_and_returns() {
    let mut cache = ResponseCache::new();
    cache.write(10, String::from("old"));
    let out = apply_refresh(&mut cache, 20, Ok(String::from("new")));
    assert_eq!(out.unwrap(), "new");
    let (age, payload) = cache.read(21).unwrap();
    assert_eq!(age, 1);
    assert_eq!(payload, "new");
}

#[test]
fn failed_refresh_preserves_the_previous_entry() {
    let mut cache = ResponseCache::new();
    cache.write(10, String::from("good"));
    let out = apply_refresh(&mut cache, 20, Err(WeatherError::UpstreamUnavailable));
    assert_eq!(out.unwrap_err(), WeatherError::UpstreamUnavailable);
    // The next read still serves the prior payload, not an error or empty.
    let (_, payload) = cache.read(25).unwrap();
    assert_eq!(payload, "good");
}

#[test]
fn failed_refresh_on_empty_cache_stays_empty() {
    let mut cache = ResponseCache::default();
    let out = apply_refresh(&mut cache, 20, Err(WeatherError::MissingCredential));
    assert_eq!(out.unwrap_err(), WeatherError::MissingCredential);
    assert!(cache.read(20).is_none());
}

#[test]
fn shared_cache_serves_whole_entries_under_the_lock() {
    let cache = SharedCache::new();
    assert!(cache.read(100).is_none());
    let stored = cache.refresh(100, Ok(String::from("doc-1")));
    assert_eq!(stored.unwrap(), "doc-1");
    let (age, payload) = cache.read(110).unwrap();
    assert_eq!((age, payload.as_str()), (10, "doc-1"));
    // A failed refresh behind the lock leaves the entry readable and whole.
    let failed = cache.refresh(120, Err(WeatherError::UpstreamUnavailable));
    assert_eq!(failed.unwrap_err(), WeatherError::UpstreamUnavailable);
    let (age, payload) = cache.read(130).unwrap();
    assert_eq!((age, payload.as_str()), (30, "doc-1"));
    // A successful one replaces it wholesale.
    cache.refresh(140, Ok(String::from("doc-2"))).unwrap();
    let (age, payload) = cache.read(141).unwrap();
    assert_eq!((age, payload.as_str()), (1, "doc-2"));
}
