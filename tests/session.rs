use nix_sandbox::config::Config;
use nix_sandbox::session::{
    after_worktree_attempt, branch_from_git_output, file_name, toplevel_from_git_output, trim,
    worktree_add_args, Session, SessionManager, WorktreeStep,
};

fn config() -> Config {
    Config { sessions_dir: "/tmp/t/sessions".to_string(), cache_dir: "/tmp/t/cache".to_string() }
}

#[test]
fn test_session_new_in_place() {
    let session = Session::new_in_place("/tmp/t", None).unwrap();
    assert_eq!(session.project_dir(), "/tmp/t");
    assert!(session.git_branch().is_none());
    assert_eq!(session.name(), "t");
}

#[test]
fn test_session_manager_new() {
    let config = config();
    let manager = SessionManager::new(&config).unwrap();
    assert_eq!(manager.sessions_dir(), config.sessions_dir);
}

#[test]
fn test_session_name_and_git_branch() {
    let session = Session::from_parts(
        "test-session".to_string(),
        "/tmp/t".to_string(),
        Some("feature-branch".to_string()),
    );
    assert_eq!(session.name(), "test-session");
    assert_eq!(session.git_branch(), Some("feature-branch"));
    assert_eq!(session.project_dir(), "/tmp/t");
}

#[test]
fn test_session_without_git_branch() {
    let session = Session::from_parts("no-git-session".to_string(), "/tmp/t".to_string(), None);
    assert_eq!(session.name(), "no-git-session");
    assert_eq!(session.git_branch(), None);
}

#[test]
fn test_get_current_git_branch_none_for_non_git() {
    assert_eq!(branch_from_git_output(""), None);
    assert_eq!(branch_from_git_output("  \n"), None);
    assert_eq!(branch_from_git_output("main\n"), Some("main".to_string()));
}

#[test]
fn test_create_or_get_session_non_git_directory() {
    let manager = SessionManager::new(&config()).unwrap();
    let session = manager.create_or_get_session("test-session", "/tmp/t", None, None).unwrap();
    assert_eq!(session.project_dir(), "/tmp/t");
    assert!(session.git_branch().is_none());
}

#[test]
fn git_session_is_a_worktree_under_sessions() {
    let manager = SessionManager::new(&config()).unwrap();
    let s = manager.create_or_get_session("feat", "/src/repo/sub", Some("/src/repo".into()), None).unwrap();
    assert_eq!(s.name(), "repo-feat");
    assert_eq!(s.project_dir(), "/tmp/t/sessions/repo-feat");
    assert_eq!(s.git_branch(), Some("feat"));
    let r = manager.create_or_get_session("x", "/", Some("/".into()), None).unwrap();
    assert_eq!(r.name(), "project-x");
}

#[test]
fn listed_sessions_and_names() {
    let manager = SessionManager::new(&config()).unwrap();
    let s = manager.listed_session("/tmp/t/sessions/session1", None);
    assert_eq!(s.name(), "session1");
    assert_eq!(manager.listed_session("/", None).name(), "unknown");
    assert_eq!(Session::new_in_place("/", None).unwrap().name(), "default");
    assert_eq!(file_name("/a/b/"), Some("b".to_string()));
    assert_eq!(file_name("/a/.."), None);
    assert_eq!(file_name("c"), Some("c".to_string()));
}

#[test]
fn worktree_arguments() {
    assert_eq!(worktree_add_args("/s/r-b", "b", true), vec!["worktree", "add", "/s/r-b", "-b", "b"]);
    assert_eq!(worktree_add_args("/s/r-b", "b", false), vec!["worktree", "add", "/s/r-b", "b"]);
}

#[test]
fn toplevel_is_trimmed() {
    assert_eq!(toplevel_from_git_output("/src/repo\n"), "/src/repo");
}

#[test]
fn file_name_passes_over_a_final_dot() {
    assert_eq!(file_name("/tmp/x/."), Some("x".to_string()));
    assert_eq!(file_name("x/./"), Some("x".to_string()));
    assert_eq!(file_name("/tmp/x/./."), Some("x".to_string()));
    assert_eq!(file_name("."), None);
    assert_eq!(file_name("/."), None);
    assert_eq!(file_name("a.b/.c"), Some(".c".to_string()));
    assert_eq!(Session::new_in_place("/tmp/x/.", None).unwrap().name(), "x");
}

#[test]
fn trim_removes_unicode_white_space() {
    assert_eq!(trim(" \t\u{a0}main\u{3000}\r\n"), "main");
    assert_eq!(trim("  "), "");
    assert_eq!(trim("a b"), "a b");
}

#[test]
fn worktree_retry_steps() {
    assert!(matches!(after_worktree_attempt(true, true, "b"), WorktreeStep::Done));
    assert!(matches!(after_worktree_attempt(true, false, "b"), WorktreeStep::TryExisting));
    match after_worktree_attempt(false, false, "b") {
        WorktreeStep::Failed(nix_sandbox::error::SandboxError::GitError(m)) => {
            assert_eq!(m, "Failed to create worktree for branch: b")
        }
        _ => panic!("expected a git error"),
    }
}
