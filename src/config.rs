//! Where the persisted state lives.

use vstd::prelude::*;

use crate::error::SandboxError;
use crate::text::{chars_of, join_path, path_join, string_of};

verus! {

/// The directories of the persisted state.
#[derive(Debug, Clone)]
pub struct Config {
    pub sessions_dir: String,
    pub cache_dir: String,
}

/// The state root: `$XDG_STATE_HOME/nix-sandbox` where that variable is set,
/// else `~/.local/state/nix-sandbox`.
pub open spec fn state_dir_of(xdg_state_home: Option<Seq<char>>, home: Seq<char>) -> Seq<char> {
    match xdg_state_home {
        Some(x) => path_join(x, "nix-sandbox"@),
        None => path_join(path_join(home, ".local/state"@), "nix-sandbox"@),
    }
}

/// The state root, from the value of `XDG_STATE_HOME` and the home directory;
/// an error where neither is known.
pub fn state_dir(xdg_state_home: Option<String>, home: Option<String>) -> (r: Result<
    String,
    SandboxError,
>)
    ensures
        match (xdg_state_home, home) {
            (Some(x), _) => r matches Ok(d) && d@ == state_dir_of(Some(x@), seq![]),
            (None, Some(h)) => r matches Ok(d) && d@ == state_dir_of(None, h@),
            (None, None) => r matches Err(SandboxError::ConfigError(_)),
        },
{
    match xdg_state_home {
        Some(x) => Ok(join_path(x.as_str(), "nix-sandbox")),
        None => match home {
            Some(h) => {
                let local = join_path(h.as_str(), ".local/state");
                Ok(join_path(local.as_str(), "nix-sandbox"))
            },
            None => Err(
                SandboxError::ConfigError(
                    string_of(&chars_of("Could not determine home directory")),
                ),
            ),
        },
    }
}

impl Config {
    /// The sessions and cache directories under `state_dir`.
    pub fn for_state_dir(state_dir: &str) -> (r: Config)
        ensures
            r.sessions_dir@ == path_join(state_dir@, "sessions"@),
            r.cache_dir@ == path_join(state_dir@, "cache"@),
    {
        Config {
            sessions_dir: join_path(state_dir, "sessions"),
            cache_dir: join_path(state_dir, "cache"),
        }
    }
}

} // verus!
