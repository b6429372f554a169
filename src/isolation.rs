//! The isolation context: the variables handed to the isolated process and,
//! per platform, the namespace wrapper's arguments or the sandbox profile.

use vstd::prelude::*;

use crate::text::{chars_of, join_path, parent_path, path_join, path_parent, string_of};
use crate::vars::EnvVars;

verus! {

/// The host name inside the namespace wrapper.
pub const HOSTNAME: &'static str = "nix-sandbox";

/// The user name inside the sandbox.
pub const SANDBOX_USER: &'static str = "sandbox";

/// The terminal type where the host has none.
pub const DEFAULT_TERM: &'static str = "xterm";

/// The sandbox's private temporary directory.
pub const SANDBOX_TMP: &'static str = "/tmp";

/// The characters of each string of `v`.
pub open spec fn views(v: Seq<String>) -> Seq<Seq<char>> {
    v.map_values(|s: String| s@)
}

/// The characters of each literal of `v`.
pub open spec fn lits(v: Seq<&str>) -> Seq<Seq<char>> {
    v.map_values(|s: &str| s@)
}

/// Appends each string of `items` to `out`.
fn push_strs(out: &mut Vec<String>, items: &[&str])
    ensures
        views(final(out)@) == views(old(out)@) + lits(items@),
{
    let mut i: usize = 0;
    while i < items.len()
        invariant
            i <= items@.len(),
            views(out@) == views(old(out)@) + lits(items@.subrange(0, i as int)),
        decreases items.len() - i,
    {
        let ghost prev = out@;
        let s = string_of(&chars_of(items[i]));
        assert(s@ == items@[i as int]@);
        out.push(s);
        assert(views(out@) =~= views(prev).push(s@));
        assert(lits(items@.subrange(0, i + 1)) =~= lits(items@.subrange(0, i as int)).push(
            items@[i as int]@,
        ));
        i = i + 1;
        assert(views(out@) =~= views(old(out)@) + lits(items@.subrange(0, i as int)));
    }
    assert(items@.subrange(0, items@.len() as int) == items@);
}

/// Appends a copy of `s` to `out`.
fn push_string(out: &mut Vec<String>, s: &str)
    ensures
        views(final(out)@) == views(old(out)@).push(s@),
{
    out.push(string_of(&chars_of(s)));
    assert(views(out@) =~= views(old(out)@).push(s@));
}

/// Names that the sandbox sets itself, which the materialized set cannot override.
pub open spec fn identity_names() -> Seq<Seq<char>> {
    seq!["HOME"@, "USER"@, "TERM"@]
}

/// Scratch-directory names that always point at the sandbox's temporary directory.
pub open spec fn scratch_names() -> Seq<Seq<char>> {
    seq!["TMPDIR"@, "TMP"@, "TEMP"@, "TEMPDIR"@, "NIX_BUILD_TOP"@]
}

/// The terminal type: the host's where it has one.
pub open spec fn term_of(host_term: Option<Seq<char>>) -> Seq<char> {
    match host_term {
        Some(t) => t,
        None => "xterm"@,
    }
}

/// The variables of the isolated process: the materialized set, with every
/// scratch name pointing at `/tmp`, `HOME` at the project directory, `USER` the
/// sandbox user and `TERM` the host's terminal type.
pub open spec fn sandbox_vars(
    vars: Map<Seq<char>, Seq<char>>,
    project_dir: Seq<char>,
    host_term: Option<Seq<char>>,
) -> Map<Seq<char>, Seq<char>> {
    vars.insert("TMPDIR"@, "/tmp"@).insert("TMP"@, "/tmp"@).insert("TEMP"@, "/tmp"@).insert(
        "TEMPDIR"@,
        "/tmp"@,
    ).insert("NIX_BUILD_TOP"@, "/tmp"@).insert("HOME"@, project_dir).insert(
        "USER"@,
        "sandbox"@,
    ).insert("TERM"@, term_of(host_term))
}

fn owned(s: &str) -> (r: String)
    ensures
        r@ == s@,
{
    string_of(&chars_of(s))
}

/// The variables handed to the isolated process.
pub fn prepare_sandbox_env_vars(project_dir: &str, host_term: Option<String>, vars: EnvVars) -> (r:
    EnvVars)
    requires
        vars.wf(),
    ensures
        r.wf(),
        r@ == sandbox_vars(
            vars@,
            project_dir@,
            match host_term {
                Some(t) => Some(t@),
                None => None,
            },
        ),
{
    let mut out = vars;
    out.insert(owned("TMPDIR"), owned(SANDBOX_TMP));
    out.insert(owned("TMP"), owned(SANDBOX_TMP));
    out.insert(owned("TEMP"), owned(SANDBOX_TMP));
    out.insert(owned("TEMPDIR"), owned(SANDBOX_TMP));
    out.insert(owned("NIX_BUILD_TOP"), owned(SANDBOX_TMP));
    out.insert(owned("HOME"), owned(project_dir));
    out.insert(owned("USER"), owned(SANDBOX_USER));
    let term = match host_term {
        Some(t) => t,
        None => owned(DEFAULT_TERM),
    };
    out.insert(owned("TERM"), term);
    out
}

/// The user-level store configuration under a home directory.
pub open spec fn user_config_of(home: Seq<char>) -> Seq<char> {
    path_join(home, ".config/nix"@)
}

/// The directory that holds [`user_config_of`].
pub open spec fn user_config_parent_of(home: Seq<char>) -> Seq<char> {
    path_join(home, ".config"@)
}

/// The user-level store configuration directory under `home`.
pub fn user_nix_config(home: &str) -> (r: String)
    ensures
        r@ == user_config_of(home@),
{
    join_path(home, ".config/nix")
}

/// The version-control directory of the original checkout, two levels above
/// the environment's project directory, where there are two levels.
pub open spec fn original_git_dir_of(project_dir: Seq<char>) -> Option<Seq<char>> {
    match path_parent(project_dir) {
        None => None,
        Some(a) => match path_parent(a) {
            None => None,
            Some(b) => Some(path_join(b, ".git"@)),
        },
    }
}

/// Where the original checkout's version-control directory would be.
pub fn original_git_dir(project_dir: &str) -> (r: Option<String>)
    ensures
        match original_git_dir_of(project_dir@) {
            None => r is None,
            Some(g) => r matches Some(s) && s@ == g,
        },
{
    match parent_path(project_dir) {
        None => None,
        Some(a) => match parent_path(a.as_str()) {
            None => None,
            Some(b) => Some(join_path(b.as_str(), ".git")),
        },
    }
}

/// Namespace options: every namespace unshared but the network, which the
/// build daemon needs.
pub open spec fn linux_preamble() -> Seq<Seq<char>> {
    seq!["--die-with-parent"@, "--unshare-all"@, "--share-net"@, "--hostname"@, "nix-sandbox"@]
}

/// The minimal device set, and fresh `/proc` and `/tmp`.
pub open spec fn linux_devices() -> Seq<Seq<char>> {
    seq![
        "--dev"@,
        "/dev"@,
        "--dev-bind"@,
        "/dev/null"@,
        "/dev/null"@,
        "--dev-bind"@,
        "/dev/zero"@,
        "/dev/zero"@,
        "--dev-bind"@,
        "/dev/random"@,
        "/dev/random"@,
        "--dev-bind"@,
        "/dev/urandom"@,
        "/dev/urandom"@,
        "--dev-bind"@,
        "/dev/tty"@,
        "/dev/tty"@,
        "--proc"@,
        "/proc"@,
        "--tmpfs"@,
        "/tmp"@,
    ]
}

/// A bind of `p` onto itself with option `flag`.
pub open spec fn bind(flag: Seq<char>, p: Seq<char>) -> Seq<Seq<char>> {
    seq![flag, p, p]
}

/// The read-only system configuration, where present.
pub open spec fn system_config_binds(etc_nix_present: bool) -> Seq<Seq<char>> {
    if etc_nix_present {
        bind("--ro-bind"@, "/etc/nix"@)
    } else {
        seq![]
    }
}

/// The wrapper's arguments for an interactive shell: the project read-write,
/// the whole `/nix` tree writable, the store configuration read-only where
/// present (`user_home` is given only where its configuration exists), the
/// project as working directory, then `bash -c` with the shell command.
pub open spec fn linux_enter_args(
    project_dir: Seq<char>,
    etc_nix_present: bool,
    user_home: Option<Seq<char>>,
    bash: Seq<char>,
    shell_command: Seq<char>,
) -> Seq<Seq<char>> {
    linux_preamble() + linux_devices() + bind("--bind"@, project_dir) + bind("--bind"@, "/nix"@)
        + system_config_binds(etc_nix_present) + match user_home {
        Some(h) => bind("--ro-bind"@, user_config_of(h)),
        None => seq![],
    } + seq!["--chdir"@, project_dir, "--"@, bash, "-c"@, shell_command]
}

/// The wrapper's arguments for one command: the store read-only, the daemon
/// socket directory where present, the project read-write, the store
/// configuration and the original checkout's version-control directory
/// read-only where present, the project as working directory, then the command.
pub open spec fn linux_exec_args(
    project_dir: Seq<char>,
    etc_nix_present: bool,
    daemon_dir_present: bool,
    git_dir: Option<Seq<char>>,
    user_home: Option<Seq<char>>,
    command: Seq<char>,
    args: Seq<Seq<char>>,
) -> Seq<Seq<char>> {
    linux_preamble() + linux_devices() + bind("--ro-bind"@, "/nix/store/"@) + (if daemon_dir_present {
        bind("--ro-bind"@, "/nix/var/nix/daemon-socket"@)
    } else {
        seq![]
    }) + bind("--bind"@, project_dir) + system_config_binds(etc_nix_present) + match git_dir {
        Some(g) => bind("--ro-bind"@, g),
        None => seq![],
    } + match user_home {
        Some(h) => seq!["--dir"@, user_config_parent_of(h)] + bind("--ro-bind"@, user_config_of(h)),
        None => seq![],
    } + seq!["--chdir"@, project_dir, "--"@, command] + args
}

fn push_bind(out: &mut Vec<String>, flag: &str, p: &str)
    ensures
        views(final(out)@) == views(old(out)@) + bind(flag@, p@),
{
    push_string(out, flag);
    push_string(out, p);
    push_string(out, p);
    assert(views(out@) =~= views(old(out)@) + bind(flag@, p@));
}

fn push_linux_common(out: &mut Vec<String>)
    ensures
        views(final(out)@) == views(old(out)@) + linux_preamble() + linux_devices(),
{
    let pre = ["--die-with-parent", "--unshare-all", "--share-net", "--hostname", HOSTNAME];
    push_strs(out, &pre);
    assert(lits(pre@) =~= linux_preamble());
    let dev = [
        "--dev",
        "/dev",
        "--dev-bind",
        "/dev/null",
        "/dev/null",
        "--dev-bind",
        "/dev/zero",
        "/dev/zero",
        "--dev-bind",
        "/dev/random",
        "/dev/random",
        "--dev-bind",
        "/dev/urandom",
        "/dev/urandom",
        "--dev-bind",
        "/dev/tty",
        "/dev/tty",
        "--proc",
        "/proc",
        "--tmpfs",
        "/tmp",
    ];
    push_strs(out, &dev);
    assert(lits(dev@) =~= linux_devices());
}

/// The namespace wrapper's arguments for an interactive shell.
pub fn linux_enter_arguments(
    project_dir: &str,
    etc_nix_present: bool,
    user_home: Option<&str>,
    bash: &str,
    shell_command: &str,
) -> (r: Vec<String>)
    ensures
        views(r@) == linux_enter_args(
            project_dir@,
            etc_nix_present,
            match user_home {
                Some(h) => Some(h@),
                None => None,
            },
            bash@,
            shell_command@,
        ),
{
    let mut out: Vec<String> = Vec::new();
    assert(views(out@) =~= Seq::<Seq<char>>::empty());
    push_linux_common(&mut out);
    push_bind(&mut out, "--bind", project_dir);
    push_bind(&mut out, "--bind", "/nix");
    let ghost before_etc = views(out@);
    if etc_nix_present {
        push_bind(&mut out, "--ro-bind", "/etc/nix");
    }
    assert(views(out@) =~= before_etc + system_config_binds(etc_nix_present));
    let ghost before_user = views(out@);
    match user_home {
        Some(h) => {
            let cfg = user_nix_config(h);
            push_bind(&mut out, "--ro-bind", cfg.as_str());
        },
        None => {
            assert(views(out@) =~= before_user + Seq::<Seq<char>>::empty());
        },
    }
    let ghost before_tail = views(out@);
    push_string(&mut out, "--chdir");
    push_string(&mut out, project_dir);
    push_string(&mut out, "--");
    push_string(&mut out, bash);
    push_string(&mut out, "-c");
    push_string(&mut out, shell_command);
    assert(views(out@) =~= before_tail + seq![
        "--chdir"@,
        project_dir@,
        "--"@,
        bash@,
        "-c"@,
        shell_command@,
    ]);
    out
}

/// The namespace wrapper's arguments for one command.
pub fn linux_exec_arguments(
    project_dir: &str,
    etc_nix_present: bool,
    daemon_dir_present: bool,
    git_dir: Option<&str>,
    user_home: Option<&str>,
    command: &str,
    args: &Vec<String>,
) -> (r: Vec<String>)
    ensures
        views(r@) == linux_exec_args(
            project_dir@,
            etc_nix_present,
            daemon_dir_present,
            match git_dir {
                Some(g) => Some(g@),
                None => None,
            },
            match user_home {
                Some(h) => Some(h@),
                None => None,
            },
            command@,
            views(args@),
        ),
{
    let mut out: Vec<String> = Vec::new();
    assert(views(out@) =~= Seq::<Seq<char>>::empty());
    push_linux_common(&mut out);
    push_bind(&mut out, "--ro-bind", "/nix/store/");
    let ghost s1 = views(out@);
    if daemon_dir_present {
        push_bind(&mut out, "--ro-bind", "/nix/var/nix/daemon-socket");
    } else {
        assert(views(out@) =~= s1 + Seq::<Seq<char>>::empty());
    }
    push_bind(&mut out, "--bind", project_dir);
    let ghost s2 = views(out@);
    if etc_nix_present {
        push_bind(&mut out, "--ro-bind", "/etc/nix");
    }
    assert(views(out@) =~= s2 + system_config_binds(etc_nix_present));
    let ghost s3 = views(out@);
    match git_dir {
        Some(g) => push_bind(&mut out, "--ro-bind", g),
        None => {
            assert(views(out@) =~= s3 + Seq::<Seq<char>>::empty());
        },
    }
    let ghost s4 = views(out@);
    match user_home {
        Some(h) => {
            let parent = join_path(h, ".config");
            push_string(&mut out, "--dir");
            push_string(&mut out, parent.as_str());
            let cfg = user_nix_config(h);
            push_bind(&mut out, "--ro-bind", cfg.as_str());
            assert(views(out@) =~= s4 + (seq!["--dir"@, user_config_parent_of(h@)] + bind(
                "--ro-bind"@,
                user_config_of(h@),
            )));
        },
        None => {
            assert(views(out@) =~= s4 + Seq::<Seq<char>>::empty());
        },
    }
    let ghost s5 = views(out@);
    push_string(&mut out, "--chdir");
    push_string(&mut out, project_dir);
    push_string(&mut out, "--");
    push_string(&mut out, command);
    let ghost s6 = views(out@);
    assert(s6 =~= s5 + seq!["--chdir"@, project_dir@, "--"@, command@]);
    let mut i: usize = 0;
    while i < args.len()
        invariant
            i <= args@.len(),
            views(out@) == s6 + views(args@.subrange(0, i as int)),
        decreases args.len() - i,
    {
        push_string(&mut out, args[i].as_str());
        i = i + 1;
        assert(views(out@) =~= s6 + views(args@.subrange(0, i as int)));
    }
    assert(args@.subrange(0, args@.len() as int) == args@);
    out
}

} // verus!
