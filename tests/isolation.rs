use nix_sandbox::isolation::{
    linux_enter_arguments, linux_exec_arguments, original_git_dir, prepare_sandbox_env_vars,
    user_nix_config,
};
use nix_sandbox::profile::{darwin_enter_profile, darwin_exec_profile};
use nix_sandbox::sandbox::{pick_bash, require_engine, select_platform, Platform, Sandbox};
use nix_sandbox::config::Config;
use nix_sandbox::environment::Environment;
use nix_sandbox::error::SandboxError;
use nix_sandbox::session::Session;
use nix_sandbox::vars::EnvVars;

fn strs(v: &[&str]) -> Vec<String> {
    v.iter().map(|s| s.to_string()).collect()
}

#[test]
fn env_vars_policy() {
    let mut vars = EnvVars::new();
    vars.insert("HOME".into(), "/homeless-shelter".into());
    vars.insert("TMPDIR".into(), "/build/tmp".into());
    vars.insert("TERM".into(), "dumb".into());
    vars.insert("FOO".into(), "bar".into());
    let out = prepare_sandbox_env_vars("/work/p", Some("screen".into()), vars);
    assert_eq!(out.get("HOME").unwrap(), "/work/p");
    assert_eq!(out.get("USER").unwrap(), "sandbox");
    assert_eq!(out.get("TERM").unwrap(), "screen");
    assert_eq!(out.get("TMPDIR").unwrap(), "/tmp");
    assert_eq!(out.get("TMP").unwrap(), "/tmp");
    assert_eq!(out.get("NIX_BUILD_TOP").unwrap(), "/tmp");
    assert_eq!(out.get("FOO").unwrap(), "bar");
    let d = prepare_sandbox_env_vars("/p", None, EnvVars::new());
    assert_eq!(d.get("TERM").unwrap(), "xterm");
}

#[test]
fn linux_enter_args() {
    let a = linux_enter_arguments("/p", true, Some("/home/u"), "/bin/bash", "nix develop");
    let mut expect = strs(&[
        "--die-with-parent", "--unshare-all", "--share-net", "--hostname", "nix-sandbox",
        "--dev", "/dev", "--dev-bind", "/dev/null", "/dev/null", "--dev-bind", "/dev/zero",
        "/dev/zero", "--dev-bind", "/dev/random", "/dev/random", "--dev-bind", "/dev/urandom",
        "/dev/urandom", "--dev-bind", "/dev/tty", "/dev/tty", "--proc", "/proc", "--tmpfs", "/tmp",
        "--bind", "/p", "/p", "--bind", "/nix", "/nix", "--ro-bind", "/etc/nix", "/etc/nix",
        "--ro-bind", "/home/u/.config/nix", "/home/u/.config/nix",
    ]);
    expect.extend(strs(&["--chdir", "/p", "--", "/bin/bash", "-c", "nix develop"]));
    assert_eq!(a, expect);
    let b = linux_enter_arguments("/p", false, None, "/bin/bash", "x");
    assert!(!b.contains(&"/etc/nix".to_string()));
    assert_eq!(b.len(), expect.len() - 6);
}

#[test]
fn linux_exec_args() {
    let a = linux_exec_arguments(
        "/s/p",
        false,
        true,
        Some("/.git"),
        None,
        "make",
        &strs(&["-j", "4"]),
    );
    assert_eq!(&a[..5], &strs(&["--die-with-parent", "--unshare-all", "--share-net", "--hostname", "nix-sandbox"])[..]);
    let tail = &a[26..];
    assert_eq!(
        tail,
        &strs(&[
            "--ro-bind", "/nix/store/", "/nix/store/",
            "--ro-bind", "/nix/var/nix/daemon-socket", "/nix/var/nix/daemon-socket",
            "--bind", "/s/p", "/s/p",
            "--ro-bind", "/.git", "/.git",
            "--chdir", "/s/p", "--", "make", "-j", "4",
        ])[..]
    );
    let b = linux_exec_arguments("/p", true, false, None, Some("/h"), "ls", &vec![]);
    let tail = &b[26..];
    assert_eq!(
        tail,
        &strs(&[
            "--ro-bind", "/nix/store/", "/nix/store/", "--bind", "/p", "/p",
            "--ro-bind", "/etc/nix", "/etc/nix", "--dir", "/h/.config",
            "--ro-bind", "/h/.config/nix", "/h/.config/nix", "--chdir", "/p", "--", "ls",
        ])[..]
    );
}

#[test]
fn paths_for_mounts() {
    assert_eq!(user_nix_config("/home/u"), "/home/u/.config/nix");
    assert_eq!(user_nix_config("/home/u/"), "/home/u/.config/nix");
    assert_eq!(original_git_dir("/repo/sessions/x"), Some("/repo/.git".to_string()));
    assert_eq!(original_git_dir("/x"), None);
}

#[test]
fn darwin_profiles_escape_and_anchor() {
    let p = darwin_enter_profile("/Users/me/a.b(c)", "/Users/me");
    assert!(p.starts_with("(version 1)\n(deny default)\n"));
    assert!(p.contains("(allow file-read* file-write* (regex #\"^/Users/me/a\\.b\\(c\\)(/|$)\"))\n"));
    assert!(p.contains("(allow file-read* (regex #\"^/Users/me/\\.config/nix(/|$)\"))\n"));
    assert!(p.contains("(allow file-read* file-write* (regex #\"^/nix/store(/|$)\"))\n"));
    assert!(p.contains("(allow network*)"));
    assert!(p.ends_with("(allow ipc-posix*)\n"));
    let e = darwin_exec_profile("/w", "/h");
    assert!(e.contains("(allow file-read* (regex #\"^/nix/store(/|$)\"))\n"));
    assert!(e.contains("(allow file-read* file-write* file-write-create file-write-unlink (regex #\"^/w(/|$)\"))\n"));
    assert!(e.contains("(allow file-read* file-write* (literal \"/nix/var/nix/daemon-socket/socket\"))\n"));
}

#[test]
fn platform_and_engine() {
    assert_eq!(select_platform("linux").unwrap(), Platform::Linux);
    assert_eq!(select_platform("macos").unwrap(), Platform::Darwin);
    assert!(matches!(select_platform("windows"), Err(SandboxError::UnsupportedOS(n)) if n == "windows"));
    assert_eq!(require_engine(Some("/usr/bin/bwrap".into()), "bwrap").unwrap(), "/usr/bin/bwrap");
    assert!(matches!(
        require_engine(None, "bubblewrap (bwrap)"),
        Err(SandboxError::SandboxSetupError(m)) if m == "bubblewrap (bwrap) is not installed"
    ));
    assert_eq!(pick_bash(Some("/nix/store/b/bin/bash".into()), true, true), "/nix/store/b/bin/bash");
    assert_eq!(pick_bash(None, true, true), "/run/current-system/sw/bin/bash");
    assert_eq!(pick_bash(None, false, true), "/usr/bin/bash");
    assert_eq!(pick_bash(None, false, false), "/bin/bash");
}

#[test]
fn sandbox_materialization() {
    let config = Config { sessions_dir: "/s".into(), cache_dir: "/c".into() };
    let session = Session::new_in_place("/w/proj", None).unwrap();
    let env = Environment::detect("/w/proj", true, false, Some("/nix/store/n/bin/nix".into()), None).unwrap();
    let sb = Sandbox::new(&config, &session, &env).unwrap();
    assert_eq!(sb.materialize_args(), strs(&["print-dev-env", "--json", "--impure"]));
    assert_eq!(sb.session().name(), "proj");
    assert_eq!(sb.cache().cache_dir(), "/c");
    match sb.parse_materialization(false, "", "boom") {
        Err(SandboxError::SandboxSetupError(m)) => {
            assert_eq!(m, "Failed to get flake environment: boom")
        }
        _ => panic!("expected a setup error"),
    }
    let (vars, paths) = sb
        .parse_materialization(true, "PATH=/nix/store/abc-hello/bin:/bin\nX=1\n", "")
        .unwrap();
    assert_eq!(vars.get("X").unwrap(), "1");
    assert_eq!(paths, strs(&["/nix/store/abc-hello"]));
    let devenv = Environment::detect("/w/proj", false, true, None, Some("/nix/store/n/bin/nix".into())).unwrap();
    let sb2 = Sandbox::new(&config, &session, &devenv).unwrap();
    assert_eq!(sb2.materialize_args(), strs(&["--run", "env"]));
    match sb2.parse_materialization(false, "", "err") {
        Err(SandboxError::SandboxSetupError(m)) => {
            assert_eq!(m, "Failed to get devenv environment: err")
        }
        _ => panic!("expected a setup error"),
    }
}
