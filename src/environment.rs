//! The environment descriptor: which definition dialect a project uses, the
//! binary that materializes it, and the key under which its build is cached.

use vstd::prelude::*;

use crate::error::SandboxError;
use crate::digest::{cache_key_from_mtimes, cache_key_of};
use crate::text::{chars_of, join_path, parent_path, path_join, path_parent, push_str, starts_with, string_of};

verus! {

/// The root of the trusted content-addressed store.
pub const NIX_STORE: &'static str = "/nix/store/";

/// Primary definition file of a flake.
pub const FLAKE_NIX: &'static str = "flake.nix";

/// Lock file of a flake.
pub const FLAKE_LOCK: &'static str = "flake.lock";

/// Primary definition file of a devenv project.
pub const DEVENV_NIX: &'static str = "devenv.nix";

/// Lock file of a devenv project.
pub const DEVENV_LOCK: &'static str = "devenv.lock";

/// Binary that materializes a flake.
pub const NIX: &'static str = "nix";

/// Binary that materializes a devenv project.
pub const NIX_SHELL: &'static str = "nix-shell";

/// The store root as characters.
pub open spec fn store_root() -> Seq<char> {
    "/nix/store/"@
}

/// Whether a path lies under the trusted store.
pub open spec fn in_store(p: Seq<char>) -> bool {
    store_root().is_prefix_of(p)
}

/// Whether `p` lies under the trusted store.
pub fn is_store_path(p: &str) -> (r: bool)
    ensures
        r == in_store(p@),
{
    proof {
        reveal_strlit("/nix/store/");
    }
    let root = chars_of(NIX_STORE);
    let cs = chars_of(p);
    starts_with(&cs, &root)
}

/// The most symbolic links followed while resolving a binary.
pub const MAX_SYMLINK_HOPS: u32 = 40;

/// Where a symbolic link at `current` with target `target` leads: an absolute
/// target as it is, a relative one from the link's directory.
pub open spec fn link_step(current: Seq<char>, target: Seq<char>) -> Seq<char> {
    if target.len() > 0 && target[0] == '/' {
        target
    } else {
        match path_parent(current) {
            Some(p) => path_join(p, target),
            None => current,
        }
    }
}

/// Where the link at `current` with target `target` leads.
pub fn follow_link(current: &str, target: &str) -> (r: String)
    ensures
        r@ == link_step(current@, target@),
{
    let t = chars_of(target);
    if t.len() > 0 && t[0] == '/' {
        return string_of(&t);
    }
    match parent_path(current) {
        Some(p) => join_path(p.as_str(), target),
        None => string_of(&chars_of(current)),
    }
}

/// One step of resolving a binary through its symbolic links.
#[derive(Debug)]
pub enum LinkHop {
    /// `current` is no link: it is the resolved binary.
    Done,
    /// Go on from this path.
    Follow(String),
    /// Too many links: a cycle, or a chain too long to follow.
    TooDeep,
}

/// The next step after `hops` links have been followed to `current`, whose
/// link target is `target` (`None` where `current` is no link).
pub fn next_link_hop(hops: u32, current: &str, target: Option<String>) -> (r: LinkHop)
    ensures
        match target {
            None => r is Done,
            Some(t) => if hops >= MAX_SYMLINK_HOPS {
                r is TooDeep
            } else {
                r matches LinkHop::Follow(n) && n@ == link_step(current@, t@)
            },
        },
{
    match target {
        None => LinkHop::Done,
        Some(t) => {
            if hops >= MAX_SYMLINK_HOPS {
                LinkHop::TooDeep
            } else {
                LinkHop::Follow(follow_link(current, t.as_str()))
            }
        },
    }
}

/// The two definition dialects.
#[derive(Debug, Clone, Copy, PartialEq, Eq, Structural)]
pub enum EnvironmentType {
    Flake,
    Devenv,
}

/// The dialect that a directory holds, dialect A (flake) first.
pub open spec fn dialect_of(flake_present: bool, devenv_present: bool) -> Option<EnvironmentType> {
    if flake_present {
        Some(EnvironmentType::Flake)
    } else if devenv_present {
        Some(EnvironmentType::Devenv)
    } else {
        None
    }
}

/// Name of the binary that materializes a dialect.
pub open spec fn binary_name(t: EnvironmentType) -> Seq<char> {
    match t {
        EnvironmentType::Flake => "nix"@,
        EnvironmentType::Devenv => "nix-shell"@,
    }
}

/// Primary definition file of a dialect.
pub open spec fn config_file_name(t: EnvironmentType) -> Seq<char> {
    match t {
        EnvironmentType::Flake => "flake.nix"@,
        EnvironmentType::Devenv => "devenv.nix"@,
    }
}

/// Lock file of a dialect.
pub open spec fn lock_file_name(t: EnvironmentType) -> Seq<char> {
    match t {
        EnvironmentType::Flake => "flake.lock"@,
        EnvironmentType::Devenv => "devenv.lock"@,
    }
}

/// The shell command of an environment: a flake opens `nix develop --impure`,
/// a devenv project runs its binary bare.
pub open spec fn shell_command_of(e: EnvironmentView) -> Seq<char> {
    match e.env_type {
        EnvironmentType::Flake => e.resolved_binary + " develop --impure"@,
        EnvironmentType::Devenv => e.resolved_binary,
    }
}

/// Picks the dialect from which definition files are present.
pub fn select_dialect(flake_present: bool, devenv_present: bool) -> (r: Option<EnvironmentType>)
    ensures
        r == dialect_of(flake_present, devenv_present),
{
    if flake_present {
        Some(EnvironmentType::Flake)
    } else if devenv_present {
        Some(EnvironmentType::Devenv)
    } else {
        None
    }
}

impl EnvironmentType {
    /// Name of the binary that materializes this dialect.
    pub fn binary_name(&self) -> (r: &'static str)
        ensures
            r@ == binary_name(*self),
    {
        match self {
            EnvironmentType::Flake => NIX,
            EnvironmentType::Devenv => NIX_SHELL,
        }
    }
}

/// What an [`Environment`] holds.
pub struct EnvironmentView {
    pub project_dir: Seq<char>,
    pub env_type: EnvironmentType,
    pub resolved_binary: Seq<char>,
}

/// A detected environment: the project root, its dialect, and the resolved
/// materialization binary, which always lies under the trusted store.
#[derive(Debug, Clone)]
pub struct Environment {
    project_dir: String,
    env_type: EnvironmentType,
    resolved_binary: String,
}

impl View for Environment {
    type V = EnvironmentView;

    closed spec fn view(&self) -> EnvironmentView {
        EnvironmentView {
            project_dir: self.project_dir@,
            env_type: self.env_type,
            resolved_binary: self.resolved_binary@,
        }
    }
}

impl Environment {
    /// The descriptor's invariant: its binary lies under the trusted store.
    pub open spec fn wf(&self) -> bool {
        in_store(self@.resolved_binary)
    }

    /// Builds the descriptor of `project_dir`. The flags say which definition
    /// files the directory holds; `nix_binary` and `nix_shell_binary` are where
    /// each binary resolved to after its symlinks were followed, `None` where
    /// the search path lacks it.
    pub fn detect(
        project_dir: &str,
        flake_present: bool,
        devenv_present: bool,
        nix_binary: Option<String>,
        nix_shell_binary: Option<String>,
    ) -> (r: Result<Environment, SandboxError>)
        ensures
            dialect_of(flake_present, devenv_present) is None <==> r matches Err(
                SandboxError::NoEnvironmentFound(p),
            ),
            r matches Err(SandboxError::NoEnvironmentFound(p)) ==> p@ == project_dir@,
            ({
                match dialect_of(flake_present, devenv_present) {
                    None => true,
                    Some(t) => {
                        let found = match t {
                            EnvironmentType::Flake => nix_binary,
                            EnvironmentType::Devenv => nix_shell_binary,
                        };
                        match found {
                            None => r matches Err(SandboxError::BinaryNotFound(name)) && name@
                                == binary_name(t),
                            Some(b) => if in_store(b@) {
                                r matches Ok(e) && e@ == (EnvironmentView {
                                    project_dir: project_dir@,
                                    env_type: t,
                                    resolved_binary: b@,
                                }) && e.wf()
                            } else {
                                r matches Err(SandboxError::BinaryNotInNixStore { binary, path })
                                    && binary@ == binary_name(t) && path@ == b@
                            },
                        }
                    },
                }
            }),
    {
        let env_type = match select_dialect(flake_present, devenv_present) {
            Some(t) => t,
            None => {
                return Err(SandboxError::NoEnvironmentFound(string_of(&chars_of(project_dir))));
            },
        };
        let found = match env_type {
            EnvironmentType::Flake => nix_binary,
            EnvironmentType::Devenv => nix_shell_binary,
        };
        let name = env_type.binary_name();
        match found {
            None => Err(SandboxError::BinaryNotFound(string_of(&chars_of(name)))),
            Some(b) => {
                if is_store_path(b.as_str()) {
                    Ok(Environment {
                        project_dir: string_of(&chars_of(project_dir)),
                        env_type,
                        resolved_binary: b,
                    })
                } else {
                    Err(SandboxError::BinaryNotInNixStore {
                        binary: string_of(&chars_of(name)),
                        path: b,
                    })
                }
            },
        }
    }

    /// A copy of the descriptor.
    pub fn copy(&self) -> (r: Environment)
        ensures
            r@ == self@,
    {
        Environment {
            project_dir: string_of(&chars_of(self.project_dir.as_str())),
            env_type: self.env_type,
            resolved_binary: string_of(&chars_of(self.resolved_binary.as_str())),
        }
    }

    /// The project root.
    pub fn project_dir(&self) -> (r: &str)
        ensures
            r@ == self@.project_dir,
    {
        self.project_dir.as_str()
    }

    /// The dialect.
    pub fn env_type(&self) -> (r: &EnvironmentType)
        ensures
            *r == self@.env_type,
    {
        &self.env_type
    }

    /// The resolved materialization binary.
    pub fn resolved_binary(&self) -> (r: &str)
        ensures
            r@ == self@.resolved_binary,
    {
        self.resolved_binary.as_str()
    }

    /// The command line that opens the dialect's shell.
    pub fn shell_command(&self) -> (r: String)
        ensures
            r@ == shell_command_of(self@),
    {
        match self.env_type {
            EnvironmentType::Flake => {
                let mut out = chars_of(self.resolved_binary.as_str());
                push_str(&mut out, " develop --impure");
                string_of(&out)
            },
            EnvironmentType::Devenv => string_of(&chars_of(self.resolved_binary.as_str())),
        }
    }

    /// The cache key of this environment, given the modification time of its
    /// definition file and, where its lock file exists, of that file.
    pub fn cache_key(&self, primary_mtime: u64, lock_mtime: Option<u64>) -> (r: String)
        ensures
            r@ == cache_key_of(primary_mtime, lock_mtime),
            r@.len() == 64,
    {
        cache_key_from_mtimes(primary_mtime, lock_mtime)
    }

    /// The definition file and the lock file of this dialect.
    pub fn get_environment_file_names(&self) -> (r: (&'static str, &'static str))
        ensures
            r.0@ == config_file_name(self@.env_type),
            r.1@ == lock_file_name(self@.env_type),
    {
        match self.env_type {
            EnvironmentType::Flake => (FLAKE_NIX, FLAKE_LOCK),
            EnvironmentType::Devenv => (DEVENV_NIX, DEVENV_LOCK),
        }
    }
}

} // verus!
