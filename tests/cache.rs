use nix_sandbox::cache::{judge_entry, older_than, CacheMetadata, CacheVerdict, EnvironmentCache};
use nix_sandbox::config::{state_dir, Config};
use nix_sandbox::digest::cache_key_from_mtimes;
use nix_sandbox::environment::EnvironmentType;
use nix_sandbox::error::SandboxError;
use nix_sandbox::vars::EnvVars;

const DAY: u128 = 86_400_000_000_000;

fn vars_of(pairs: &[(&str, &str)]) -> EnvVars {
    let mut v = EnvVars::new();
    for (k, val) in pairs {
        v.insert(k.to_string(), val.to_string());
    }
    v
}

fn test_config() -> Config {
    Config {
        sessions_dir: "/state/sessions".to_string(),
        cache_dir: "/state/cache".to_string(),
    }
}

#[test]
fn test_cache_metadata_creation() {
    let env_vars = vars_of(&[("PATH", "/nix/store/xyz/bin")]);
    let store_paths = vec!["/nix/store/abc123".to_string()];
    let metadata = CacheMetadata::new(
        EnvironmentType::Flake,
        "test_key".to_string(),
        store_paths.clone(),
        env_vars.clone(),
        0,
    );
    assert_eq!(metadata.environment_type, EnvironmentType::Flake);
    assert_eq!(metadata.cache_key, "test_key");
    assert_eq!(metadata.nix_store_paths, store_paths);
    assert_eq!(metadata.environment_vars.get("PATH").unwrap(), "/nix/store/xyz/bin");
    assert_eq!(metadata.environment_vars.len(), 1);
}

#[test]
fn test_cache_metadata_validation() {
    let metadata =
        CacheMetadata::new(EnvironmentType::Flake, "test_key".to_string(), vec![], EnvVars::new(), 0);
    assert!(metadata.is_valid("test_key"));
    assert!(!metadata.is_valid("different_key"));
}

#[test]
fn test_cache_directory_creation() {
    let cache = EnvironmentCache::new(test_config());
    assert_eq!(cache.get_cache_dir("test_key"), "/state/cache/test_key");
    assert_eq!(cache.get_metadata_path("test_key"), "/state/cache/test_key/metadata.json");
    assert_eq!(cache.cache_dir(), "/state/cache");
}

#[test]
fn test_get_cached_environment_valid() {
    let key = cache_key_from_mtimes(100, None);
    let m = CacheMetadata::new(
        EnvironmentType::Flake,
        key.clone(),
        vec!["/tmp/project".to_string()],
        vars_of(&[("X", "1")]),
        0,
    );
    match judge_entry(Some(m), &key, &vec![true]) {
        CacheVerdict::Use(e) => {
            assert_eq!(e.environment_type, EnvironmentType::Flake);
            assert_eq!(e.environment_vars.get("X").unwrap(), "1");
        }
        _ => panic!("expected a usable entry"),
    }
}

#[test]
fn test_get_cached_environment_missing_store_path() {
    let key = cache_key_from_mtimes(100, None);
    let m = CacheMetadata::new(
        EnvironmentType::Flake,
        key.clone(),
        vec!["/nix/store/nonexistent123".to_string()],
        EnvVars::new(),
        0,
    );
    assert!(matches!(judge_entry(Some(m), &key, &vec![false]), CacheVerdict::Evict));
}

#[test]
fn evicts_when_any_one_location_is_missing() {
    let key = "k".to_string();
    let paths = vec!["/a".to_string(), "/b".to_string(), "/c".to_string()];
    let m = CacheMetadata::new(EnvironmentType::Devenv, key.clone(), paths, EnvVars::new(), 0);
    assert!(matches!(judge_entry(Some(m), &key, &vec![true, false, true]), CacheVerdict::Evict));
}

#[test]
fn test_cache_key_mismatch_invalidates_cache() {
    let old_key = cache_key_from_mtimes(1_700_000_000, None);
    let new_key = cache_key_from_mtimes(1_700_000_001, None);
    assert_ne!(old_key, new_key);
    let m = CacheMetadata::new(EnvironmentType::Flake, old_key, vec![], EnvVars::new(), 0);
    assert!(matches!(judge_entry(Some(m), &new_key, &vec![]), CacheVerdict::Evict));
    // Under the new key no record exists at all.
    assert!(matches!(judge_entry(None, &new_key, &vec![]), CacheVerdict::Missing));
}

#[test]
fn missing_record_is_missing() {
    assert!(matches!(judge_entry(None, "any", &vec![]), CacheVerdict::Missing));
}

#[test]
fn sweep_is_strict() {
    let now = 10 * DAY;
    assert!(older_than(now - 7 * DAY - 1, now, 7));
    assert!(!older_than(now - 7 * DAY, now, 7));
    assert!(!older_than(now, now, 7));
    assert!(!older_than(0, 3 * DAY, 7));
    assert!(older_than(0, 1, 0));
}

#[test]
fn stale_entries_keep_order_and_skip_unshaped_dirs() {
    let cache = EnvironmentCache::new(test_config());
    let now = 30 * DAY;
    let dirs = vec![
        ("/state/cache/old".to_string(), Some(now - 8 * DAY)),
        ("/state/cache/new".to_string(), Some(now - DAY)),
        ("/state/cache/junk".to_string(), None),
        ("/state/cache/edge".to_string(), Some(now - 7 * DAY)),
        ("/state/cache/older".to_string(), Some(1)),
    ];
    assert_eq!(
        cache.stale_entries(&dirs, now, 7),
        vec!["/state/cache/old".to_string(), "/state/cache/older".to_string()]
    );
}

#[test]
fn state_dir_choice() {
    assert_eq!(state_dir(Some("/x".into()), Some("/h".into())).unwrap(), "/x/nix-sandbox");
    assert_eq!(state_dir(None, Some("/h".into())).unwrap(), "/h/.local/state/nix-sandbox");
    assert!(matches!(state_dir(None, None), Err(SandboxError::ConfigError(_))));
    let c = Config::for_state_dir("/s");
    assert_eq!(c.sessions_dir, "/s/sessions");
    assert_eq!(c.cache_dir, "/s/cache");
}
