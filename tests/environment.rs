use nix_sandbox::digest::{cache_key_from_mtimes, cache_key_material};
use nix_sandbox::environment::{
    follow_link, next_link_hop, select_dialect, Environment, EnvironmentType, LinkHop,
    DEVENV_LOCK, DEVENV_NIX, FLAKE_LOCK, FLAKE_NIX, MAX_SYMLINK_HOPS,
};
use nix_sandbox::error::SandboxError;

const NIX_BIN: &str = "/nix/store/abc123-nix-2.18/bin/nix";

fn flake_env(dir: &str) -> Environment {
    Environment::detect(dir, true, false, Some(NIX_BIN.to_string()), None).unwrap()
}

#[test]
fn test_detect_flake_environment() {
    let env = flake_env("/tmp/project");
    assert_eq!(env.env_type(), &EnvironmentType::Flake);
    assert!(env.shell_command().ends_with(" develop --impure"));
}

#[test]
fn test_detect_devenv_environment() {
    let env =
        Environment::detect("/tmp/project", false, true, None, Some(NIX_BIN.to_string())).unwrap();
    assert_eq!(env.env_type(), &EnvironmentType::Devenv);
    let shell_cmd = env.shell_command();
    assert!(shell_cmd.contains("/nix/store/") && shell_cmd.ends_with("/bin/nix"));
}

#[test]
fn test_detect_no_environment() {
    let result = Environment::detect("/tmp/empty", false, false, None, None);
    assert!(result.is_err());
    assert!(matches!(result, Err(SandboxError::NoEnvironmentFound(p)) if p == "/tmp/empty"));
}

#[test]
fn detect_prefers_flake_over_devenv() {
    let env = Environment::detect(
        "/p",
        true,
        true,
        Some(NIX_BIN.to_string()),
        Some("/nix/store/x-nix/bin/nix-shell".to_string()),
    )
    .unwrap();
    assert_eq!(env.env_type(), &EnvironmentType::Flake);
    assert_eq!(env.resolved_binary(), NIX_BIN);
    assert_eq!(env.project_dir(), "/p");
}

#[test]
fn detect_reports_missing_binary() {
    let r = Environment::detect("/p", false, true, Some(NIX_BIN.to_string()), None);
    assert!(matches!(r, Err(SandboxError::BinaryNotFound(n)) if n == "nix-shell"));
}

#[test]
fn detect_rejects_binary_outside_store() {
    let r = Environment::detect("/p", true, false, Some("/usr/bin/nix".to_string()), None);
    match r {
        Err(SandboxError::BinaryNotInNixStore { binary, path }) => {
            assert_eq!(binary, "nix");
            assert_eq!(path, "/usr/bin/nix");
        }
        _ => panic!("expected BinaryNotInNixStore"),
    }
}

#[test]
fn test_cache_key_changes_with_file_modification() {
    let env = flake_env("/tmp/project");
    let key1 = env.cache_key(1_700_000_000, None);
    let key2 = env.cache_key(1_700_000_001, None);
    assert_ne!(key1, key2);
}

#[test]
fn test_get_environment_file_names_flake() {
    let env = flake_env("/tmp/project");
    let (config_file, lock_file) = env.get_environment_file_names();
    assert_eq!(config_file, FLAKE_NIX);
    assert_eq!(lock_file, FLAKE_LOCK);
}

#[test]
fn test_get_environment_file_names_devenv() {
    let env =
        Environment::detect("/tmp/project", false, true, None, Some(NIX_BIN.to_string())).unwrap();
    let (config_file, lock_file) = env.get_environment_file_names();
    assert_eq!(config_file, DEVENV_NIX);
    assert_eq!(lock_file, DEVENV_LOCK);
}

#[test]
fn test_cache_key_includes_lock_file_when_present() {
    let env = flake_env("/tmp/project");
    let key1 = env.cache_key(1_700_000_000, None);
    let key2 = env.cache_key(1_700_000_000, Some(1_700_000_000));
    assert_ne!(key1, key2);
}

#[test]
fn test_cache_key_consistent_for_unchanged_files() {
    let env1 = flake_env("/tmp/project");
    let env2 = flake_env("/tmp/project");
    assert_eq!(env1.cache_key(5, Some(7)), env2.cache_key(5, Some(7)));
}

#[test]
fn cache_key_is_sha256_hex_of_little_endian_mtimes() {
    assert_eq!(cache_key_material(1, None), vec![1, 0, 0, 0, 0, 0, 0, 0]);
    assert_eq!(
        cache_key_material(0x0102, Some(0xff)),
        vec![2, 1, 0, 0, 0, 0, 0, 0, 0xff, 0, 0, 0, 0, 0, 0, 0]
    );
    // SHA-256 of eight zero bytes.
    assert_eq!(
        cache_key_from_mtimes(0, None),
        "af5570f5a1810b7af78caf4bc70a660f0df51e42baf91d4de5b2328de0e83dfc"
    );
    let key = cache_key_from_mtimes(12345, Some(678));
    assert_eq!(key.len(), 64);
    assert!(key.chars().all(|c| c.is_ascii_hexdigit() && !c.is_ascii_uppercase()));
}

#[test]
fn select_dialect_order() {
    assert_eq!(select_dialect(true, true), Some(EnvironmentType::Flake));
    assert_eq!(select_dialect(false, true), Some(EnvironmentType::Devenv));
    assert_eq!(select_dialect(false, false), None);
}

#[test]
fn symlink_steps() {
    assert_eq!(follow_link("/usr/bin/nix", "/nix/store/a-nix/bin/nix"), "/nix/store/a-nix/bin/nix");
    assert_eq!(follow_link("/run/sw/bin/nix", "../lib/nix"), "/run/sw/bin/../lib/nix");
    assert_eq!(follow_link("nix", "other"), "other");
    assert!(matches!(next_link_hop(0, "/a", None), LinkHop::Done));
    assert!(matches!(next_link_hop(MAX_SYMLINK_HOPS, "/a", Some("/b".to_string())), LinkHop::TooDeep));
    match next_link_hop(3, "/a/b", Some("c".to_string())) {
        LinkHop::Follow(p) => assert_eq!(p, "/a/c"),
        _ => panic!("expected a hop"),
    }
}
