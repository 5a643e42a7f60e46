use maity_core::credential_cache::{CredentialCache, CredentialSlot};
use maity_core::ws_url::extract_proxy_config_from_ws_url;

#[test]
fn store_then_fetch_returns_stored_values() {
    let mut slot = CredentialSlot::new();
    let r = slot.store("wss://proxy.example/ws".to_string(), "jwt-abc".to_string(), 300, 1000);
    assert!(r.is_ok());
    let cfg = slot.fetch(1000).unwrap();
    assert_eq!(cfg.proxy_base_url, "wss://proxy.example/ws");
    assert_eq!(cfg.jwt, "jwt-abc");
    assert_eq!(cfg.expires_in, 300);
}

#[test]
fn refresh_buffer_marks_stale_before_literal_expiry() {
    let mut slot = CredentialSlot::new();
    slot.store("wss://proxy.example/ws".to_string(), "jwt".to_string(), 300, 1000).unwrap();
    // Still valid just before issuance + ttl - buffer.
    assert!(slot.fetch(1269).is_some());
    assert!(slot.is_valid(1269));
    // Absent from issuance + ttl - buffer on, although literal expiry is 1300.
    assert!(slot.fetch(1270).is_none());
    assert!(!slot.is_valid(1270));
    assert!(slot.fetch(1299).is_none());
}

#[test]
fn clear_then_fetch_is_always_absent() {
    let mut slot = CredentialSlot::new();
    assert!(slot.fetch(0).is_none());
    slot.store("wss://proxy.example/ws".to_string(), "jwt".to_string(), 300, 0).unwrap();
    slot.clear();
    assert!(slot.fetch(0).is_none());
    slot.clear();
    assert!(slot.fetch(0).is_none());
}

#[test]
fn last_store_wins_wholesale() {
    let mut slot = CredentialSlot::new();
    slot.store("wss://a.example/one".to_string(), "jwt-one".to_string(), 100, 50).unwrap();
    slot.store("wss://b.example/two".to_string(), "jwt-two".to_string(), 200, 60).unwrap();
    let cfg = slot.fetch(60).unwrap();
    assert_eq!(cfg.proxy_base_url, "wss://b.example/two");
    assert_eq!(cfg.jwt, "jwt-two");
    assert_eq!(cfg.expires_in, 200);
}

#[test]
fn store_rejects_invalid_inputs_and_keeps_state() {
    let mut slot = CredentialSlot::new();
    slot.store("wss://a.example/one".to_string(), "jwt-one".to_string(), 300, 0).unwrap();

    let e = slot.store("".to_string(), "jwt".to_string(), 300, 0);
    assert_eq!(e.unwrap_err(), "Proxy base URL cannot be empty");
    let e = slot.store("wss://b.example".to_string(), "".to_string(), 300, 0);
    assert_eq!(e.unwrap_err(), "JWT cannot be empty");
    let e = slot.store("wss://b.example".to_string(), "jwt".to_string(), 0, 0);
    assert_eq!(e.unwrap_err(), "TTL cannot be zero");

    let cfg = slot.fetch(0).unwrap();
    assert_eq!(cfg.proxy_base_url, "wss://a.example/one");
    assert_eq!(cfg.jwt, "jwt-one");
}

#[test]
fn cache_commands_roundtrip() {
    let cache = CredentialCache::new();
    assert!(!cache.has_cached_proxy_config(0));
    assert!(cache.get_deepgram_proxy_config(0).is_none());

    cache
        .set_deepgram_proxy_config("wss://p.example/ws".to_string(), "jwt".to_string(), 300, 100)
        .unwrap();
    assert!(cache.has_valid_deepgram_proxy_config(100));
    assert!(cache.has_cached_proxy_config(100));
    let cfg = cache.get_deepgram_proxy_config(100).unwrap();
    assert_eq!(cfg.proxy_base_url, "wss://p.example/ws");
    assert_eq!(cfg.jwt, "jwt");
    assert_eq!(cfg.expires_in, 300);

    let (url, jwt) = cache.get_cached_proxy_config(100).unwrap();
    assert_eq!(url, "wss://p.example/ws");
    assert_eq!(jwt, "jwt");

    cache.clear_deepgram_proxy_config().unwrap();
    assert!(!cache.has_cached_proxy_config(100));
    assert!(cache.get_cached_proxy_config(100).is_none());
}

#[test]
fn cache_set_validates_inputs() {
    let cache = CredentialCache::new();
    let e = cache.set_deepgram_proxy_config("".to_string(), "jwt".to_string(), 300, 0);
    assert_eq!(e.unwrap_err(), "Proxy base URL cannot be empty");
    let e = cache.set_deepgram_proxy_config("wss://p".to_string(), "".to_string(), 300, 0);
    assert_eq!(e.unwrap_err(), "JWT cannot be empty");
    assert!(!cache.has_cached_proxy_config(0));
}

#[test]
fn ws_url_extraction_strips_query_and_finds_token() {
    let r = extract_proxy_config_from_ws_url(
        "wss://proxy.workers.dev/ws?token=JWT123&model=nova&language=es",
    );
    let (base, jwt) = r.unwrap();
    assert_eq!(base, "wss://proxy.workers.dev/ws");
    assert_eq!(jwt, "JWT123");
}

#[test]
fn ws_url_without_token_or_invalid_is_absent() {
    assert!(extract_proxy_config_from_ws_url("wss://proxy.workers.dev/ws?model=nova").is_none());
    assert!(extract_proxy_config_from_ws_url("not a url at all").is_none());
}
