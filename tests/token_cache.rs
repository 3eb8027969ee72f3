use std::sync::atomic::{AtomicUsize, Ordering};
use std::sync::Mutex;

use device_transport::error::{CredentialError, TransportError};
use device_transport::token::{
    mint_expiration, now_millis, TokenCache, TokenSource, REFRESH_MARGIN_MS, TOKEN_LIFETIME_MS,
};

const HOUR_MS: i64 = 3_600_000;
const MINUTE_MS: i64 = 60_000;
const T0: i64 = 1_700_000_000_000;

/// Hands out "A", "B", "C", ... in turn and remembers the expirations asked for.
struct Sequenced {
    calls: AtomicUsize,
    asked: Mutex<Vec<i64>>,
}

impl Sequenced {
    fn new() -> Self {
        Sequenced { calls: AtomicUsize::new(0), asked: Mutex::new(Vec::new()) }
    }

    fn calls(&self) -> usize {
        self.calls.load(Ordering::SeqCst)
    }

    fn asked(&self) -> Vec<i64> {
        self.asked.lock().unwrap().clone()
    }
}

impl TokenSource for Sequenced {
    fn get(&self, expires_at_ms: i64) -> Result<String, CredentialError> {
        self.asked.lock().unwrap().push(expires_at_ms);
        let n = self.calls.fetch_add(1, Ordering::SeqCst);
        Ok(((b'A' + n as u8) as char).to_string())
    }
}

struct Failing;

impl TokenSource for Failing {
    fn get(&self, _expires_at_ms: i64) -> Result<String, CredentialError> {
        Err(CredentialError { reason: "identity provider unreachable".to_string() })
    }
}

#[test]
fn token_reused_then_refreshed_near_expiry() {
    let source = Sequenced::new();
    let mut cache = TokenCache::new();

    assert_eq!(cache.current_token(&source, T0), Ok("A".to_string()));
    assert_eq!(cache.expires_at(), Some(T0 + 24 * HOUR_MS));

    assert_eq!(cache.current_token(&source, T0 + HOUR_MS), Ok("A".to_string()));
    assert_eq!(cache.expires_at(), Some(T0 + 24 * HOUR_MS));
    assert_eq!(source.calls(), 1);

    let later = T0 + 23 * HOUR_MS + 56 * MINUTE_MS;
    assert_eq!(cache.current_token(&source, later), Ok("B".to_string()));
    assert_eq!(cache.expires_at(), Some(later + 24 * HOUR_MS));
    assert_eq!(cache.token(), "B");
    assert_eq!(source.calls(), 2);
    assert_eq!(source.asked(), vec![T0 + 24 * HOUR_MS, later + 24 * HOUR_MS]);
}

#[test]
fn token_reused_with_exactly_the_margin_left() {
    let source = Sequenced::new();
    let mut cache = TokenCache::new();
    cache.current_token(&source, T0).unwrap();
    let edge = T0 + TOKEN_LIFETIME_MS - REFRESH_MARGIN_MS;
    assert_eq!(cache.current_token(&source, edge), Ok("A".to_string()));
    assert_eq!(cache.current_token(&source, edge + 1), Ok("B".to_string()));
    assert_eq!(source.calls(), 2);
}

#[test]
fn empty_cache_needs_refresh() {
    let cache = TokenCache::new();
    assert!(cache.needs_refresh(T0));
    assert_eq!(cache.token(), "");
    assert_eq!(cache.expires_at(), None);
}

#[test]
fn needs_refresh_follows_the_margin() {
    let mut cache = TokenCache::new();
    cache.store_minted(Ok("A".to_string()), T0 + 10 * MINUTE_MS).unwrap();
    assert!(!cache.needs_refresh(T0));
    assert!(!cache.needs_refresh(T0 + 5 * MINUTE_MS));
    assert!(cache.needs_refresh(T0 + 5 * MINUTE_MS + 1));
    assert!(cache.needs_refresh(T0 + 20 * MINUTE_MS));
}

#[test]
fn needs_refresh_without_overflow_at_the_extremes() {
    let mut cache = TokenCache::new();
    cache.store_minted(Ok("A".to_string()), i64::MAX).unwrap();
    assert!(!cache.needs_refresh(i64::MIN));
    cache.store_minted(Ok("A".to_string()), i64::MIN).unwrap();
    assert!(cache.needs_refresh(i64::MAX));
}

#[test]
fn credential_failure_leaves_empty_cache_unchanged() {
    let mut cache = TokenCache::new();
    let r = cache.current_token(&Failing, T0);
    assert_eq!(
        r,
        Err(TransportError::Credential(CredentialError {
            reason: "identity provider unreachable".to_string()
        }))
    );
    assert_eq!(cache.token(), "");
    assert_eq!(cache.expires_at(), None);
}

#[test]
fn credential_failure_keeps_previous_token() {
    let source = Sequenced::new();
    let mut cache = TokenCache::new();
    cache.current_token(&source, T0).unwrap();
    let r = cache.current_token(&Failing, T0 + 24 * HOUR_MS);
    assert!(matches!(r, Err(TransportError::Credential(_))));
    assert_eq!(cache.token(), "A");
    assert_eq!(cache.expires_at(), Some(T0 + 24 * HOUR_MS));
}

#[test]
fn store_minted_replaces_both_fields() {
    let mut cache = TokenCache::new();
    assert_eq!(cache.store_minted(Ok("tok".to_string()), 42), Ok("tok".to_string()));
    assert_eq!(cache.token(), "tok");
    assert_eq!(cache.expires_at(), Some(42));
    let err = CredentialError { reason: "no".to_string() };
    assert_eq!(
        cache.store_minted(Err(err.clone()), 99),
        Err(TransportError::Credential(err))
    );
    assert_eq!(cache.token(), "tok");
    assert_eq!(cache.expires_at(), Some(42));
}

#[test]
fn expiration_past_the_timestamp_range_is_reported() {
    let source = Sequenced::new();
    let mut cache = TokenCache::new();
    let now = i64::MAX - TOKEN_LIFETIME_MS + 1;
    assert_eq!(cache.current_token(&source, now), Err(TransportError::ExpirationOutOfRange));
    assert_eq!(source.calls(), 0);
    assert_eq!(cache.expires_at(), None);
    let now = i64::MAX - TOKEN_LIFETIME_MS;
    assert_eq!(cache.current_token(&source, now), Ok("A".to_string()));
    assert_eq!(cache.expires_at(), Some(i64::MAX));
}

#[test]
fn mint_expiration_is_one_day_later() {
    assert_eq!(mint_expiration(T0), Some(T0 + 24 * HOUR_MS));
    assert_eq!(mint_expiration(0), Some(86_400_000));
    assert_eq!(mint_expiration(i64::MAX - TOKEN_LIFETIME_MS), Some(i64::MAX));
    assert_eq!(mint_expiration(i64::MAX - TOKEN_LIFETIME_MS + 1), None);
}

#[test]
fn clock_reads_after_the_epoch() {
    let now = now_millis().unwrap();
    assert!(now > 1_600_000_000_000);
}

/// Fails every mint and remembers the expirations asked for.
struct Recording(Mutex<Vec<i64>>);

impl TokenSource for Recording {
    fn get(&self, expires_at_ms: i64) -> Result<String, CredentialError> {
        self.0.lock().unwrap().push(expires_at_ms);
        Err(CredentialError { reason: "no".to_string() })
    }
}

#[test]
fn failing_source_is_asked_for_one_day() {
    let source = Recording(Mutex::new(Vec::new()));
    let mut cache = TokenCache::new();
    assert!(matches!(cache.current_token(&source, T0), Err(TransportError::Credential(_))));
    assert_eq!(*source.0.lock().unwrap(), vec![T0 + TOKEN_LIFETIME_MS]);
    assert_eq!(cache.expires_at(), None);
}
