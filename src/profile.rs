//! The Darwin variant of the isolation context: a deny-by-default sandbox
//! profile that allows the same paths, devices, network and process
//! operations as the Linux variant's binds.

use vstd::prelude::*;

use crate::isolation::{user_config_of, user_nix_config};
use crate::text::{chars_of, push_str, string_of};

verus! {

/// The profile's opening: deny by default, then the standard devices, the
/// terminals and the network.
pub const PROFILE_HEAD: &'static str = "(version 1)\n(deny default)\n\n; Allow stdio\n(allow file-read* file-write* (literal \"/dev/null\") (literal \"/dev/zero\") (literal \"/dev/random\") (literal \"/dev/urandom\"))\n(allow file-read* file-write* (regex #\"^/dev/fd/\"))\n(allow file-read* file-write* (regex #\"^/dev/pts/\"))\n(allow file-read* file-write* (regex #\"^/dev/tty\"))\n\n; Allow network access (for the Nix daemon)\n(allow network*)\n\n";

/// The interactive profile's closing: temporary directories, process, mach,
/// system, metadata and IPC operations.
pub const ENTER_TAIL: &'static str = "\n; Allow temp directory access\n(allow file-read* file-write* (regex #\"^/tmp/\"))\n(allow file-read* file-write* (regex #\"^/var/folders/\"))\n(allow file-read* file-write* (regex #\"^/private/tmp/\"))\n(allow file-read* file-write* (regex #\"^/private/var/folders/\"))\n\n; Allow process operations\n(allow process*)\n(allow signal* (target self))\n(allow signal* (target children))\n(allow sysctl-read)\n\n; Allow mach operations\n(allow mach*)\n(allow mach-lookup)\n\n; Additional system operations\n(allow system-socket)\n(allow system-fsctl)\n(allow system-fcntl)\n\n; Allow file metadata operations\n(allow file-read-metadata)\n(allow file-read-xattr)\n(allow file-write-xattr)\n\n; Allow IPC\n(allow ipc-posix*)\n";

/// The one-command profile's closing: process, system and metadata operations and IPC.
pub const EXEC_TAIL: &'static str = "\n; Allow basic system calls\n(allow signal)\n(allow system*)\n(allow process*)\n(allow mach*)\n(allow sysctl-read)\n\n; Allow file system operations in project directory\n(allow file-ioctl)\n(allow file-read-metadata)\n(allow file-write-metadata)\n(allow file-read-xattr)\n(allow file-write-xattr)\n\n; Allow IPC\n(allow ipc-posix*)\n";

/// A character with a meaning of its own in the profile's regular expressions.
pub open spec fn is_regex_meta(c: char) -> bool {
    c == '\\' || c == '.' || c == '^' || c == '$' || c == '|' || c == '?' || c == '*' || c == '+'
        || c == '(' || c == ')' || c == '[' || c == ']' || c == '{' || c == '}' || c == '"'
}

/// `s` with a backslash before each regular-expression metacharacter, so that
/// it matches itself literally.
pub open spec fn regex_escape(s: Seq<char>) -> Seq<char>
    decreases s.len(),
{
    if s.len() == 0 {
        seq![]
    } else {
        regex_escape(s.drop_last()) + if is_regex_meta(s.last()) {
            seq!['\\', s.last()]
        } else {
            seq![s.last()]
        }
    }
}

/// `s` with a backslash before each `"` and `\`, for a quoted literal.
pub open spec fn literal_escape(s: Seq<char>) -> Seq<char>
    decreases s.len(),
{
    if s.len() == 0 {
        seq![]
    } else {
        literal_escape(s.drop_last()) + if s.last() == '"' || s.last() == '\\' {
            seq!['\\', s.last()]
        } else {
            seq![s.last()]
        }
    }
}

/// A rule allowing `perms` on `path` and everything below it.
pub open spec fn tree_rule(perms: Seq<char>, path: Seq<char>) -> Seq<char> {
    "(allow "@ + perms + " (regex #\"^"@ + regex_escape(path) + "(/|$)\"))\n"@
}

/// A rule allowing `perms` on exactly `path`.
pub open spec fn literal_rule(perms: Seq<char>, path: Seq<char>) -> Seq<char> {
    "(allow "@ + perms + " (literal \""@ + literal_escape(path) + "\"))\n"@
}

/// The profile for an interactive shell: the store writable, the daemon
/// socket, the store configuration read-only, the project read-write.
pub open spec fn enter_profile(project_dir: Seq<char>, home: Seq<char>) -> Seq<char> {
    PROFILE_HEAD@ + tree_rule("file-read* file-write*"@, "/nix/store"@) + literal_rule(
        "file-read* file-write*"@,
        "/nix/var/nix/daemon-socket/socket"@,
    ) + tree_rule("file-read*"@, "/etc/nix"@) + tree_rule("file-read*"@, user_config_of(home))
        + tree_rule("file-read* file-write*"@, project_dir) + ENTER_TAIL@
}

/// The profile for one command: the store read-only, the daemon socket, the
/// store configuration read-only, the project read-write.
pub open spec fn exec_profile(project_dir: Seq<char>, home: Seq<char>) -> Seq<char> {
    PROFILE_HEAD@ + tree_rule("file-read*"@, "/nix/store"@) + literal_rule(
        "file-read* file-write*"@,
        "/nix/var/nix/daemon-socket/socket"@,
    ) + tree_rule("file-read*"@, "/etc/nix"@) + tree_rule("file-read*"@, user_config_of(home))
        + tree_rule("file-read* file-write* file-write-create file-write-unlink"@, project_dir)
        + EXEC_TAIL@
}

fn push_escaped(out: &mut Vec<char>, s: &str, regex: bool)
    ensures
        final(out)@ == old(out)@ + if regex {
            regex_escape(s@)
        } else {
            literal_escape(s@)
        },
{
    let cs = chars_of(s);
    let mut i: usize = 0;
    while i < cs.len()
        invariant
            i <= cs@.len(),
            cs@ == s@,
            out@ == old(out)@ + if regex {
                regex_escape(s@.subrange(0, i as int))
            } else {
                literal_escape(s@.subrange(0, i as int))
            },
        decreases cs.len() - i,
    {
        let c = cs[i];
        let ghost pre = s@.subrange(0, i as int);
        assert(s@.subrange(0, i + 1).drop_last() == pre);
        assert(s@.subrange(0, i + 1).last() == c);
        let special = if regex {
            c == '\\' || c == '.' || c == '^' || c == '$' || c == '|' || c == '?' || c == '*' || c
                == '+' || c == '(' || c == ')' || c == '[' || c == ']' || c == '{' || c == '}' || c
                == '"'
        } else {
            c == '"' || c == '\\'
        };
        if special {
            out.push('\\');
        }
        out.push(c);
        i = i + 1;
    }
    assert(s@.subrange(0, s@.len() as int) == s@);
}

fn push_tree_rule(out: &mut Vec<char>, perms: &str, path: &str)
    ensures
        final(out)@ == old(out)@ + tree_rule(perms@, path@),
{
    push_str(out, "(allow ");
    push_str(out, perms);
    push_str(out, " (regex #\"^");
    push_escaped(out, path, true);
    push_str(out, "(/|$)\"))\n");
    assert(final(out)@ =~= old(out)@ + tree_rule(perms@, path@));
}

fn push_literal_rule(out: &mut Vec<char>, perms: &str, path: &str)
    ensures
        final(out)@ == old(out)@ + literal_rule(perms@, path@),
{
    push_str(out, "(allow ");
    push_str(out, perms);
    push_str(out, " (literal \"");
    push_escaped(out, path, false);
    push_str(out, "\"))\n");
    assert(final(out)@ =~= old(out)@ + literal_rule(perms@, path@));
}

/// The sandbox profile for an interactive shell in `project_dir`, with the
/// user's store configuration under `home`.
pub fn darwin_enter_profile(project_dir: &str, home: &str) -> (r: String)
    ensures
        r@ == enter_profile(project_dir@, home@),
{
    let mut out: Vec<char> = Vec::new();
    push_str(&mut out, PROFILE_HEAD);
    push_tree_rule(&mut out, "file-read* file-write*", "/nix/store");
    push_literal_rule(&mut out, "file-read* file-write*", "/nix/var/nix/daemon-socket/socket");
    push_tree_rule(&mut out, "file-read*", "/etc/nix");
    let cfg = user_nix_config(home);
    push_tree_rule(&mut out, "file-read*", cfg.as_str());
    push_tree_rule(&mut out, "file-read* file-write*", project_dir);
    push_str(&mut out, ENTER_TAIL);
    assert(out@ =~= enter_profile(project_dir@, home@));
    string_of(&out)
}

/// The sandbox profile for one command in `project_dir`, with the user's
/// store configuration under `home`.
pub fn darwin_exec_profile(project_dir: &str, home: &str) -> (r: String)
    ensures
        r@ == exec_profile(project_dir@, home@),
{
    let mut out: Vec<char> = Vec::new();
    push_str(&mut out, PROFILE_HEAD);
    push_tree_rule(&mut out, "file-read*", "/nix/store");
    push_literal_rule(&mut out, "file-read* file-write*", "/nix/var/nix/daemon-socket/socket");
    push_tree_rule(&mut out, "file-read*", "/etc/nix");
    let cfg = user_nix_config(home);
    push_tree_rule(&mut out, "file-read*", cfg.as_str());
    push_tree_rule(
        &mut out,
        "file-read* file-write* file-write-create file-write-unlink",
        project_dir,
    );
    push_str(&mut out, EXEC_TAIL);
    assert(out@ =~= exec_profile(project_dir@, home@));
    string_of(&out)
}

} // verus!
