//! The sandbox: a session, its environment and the cache, and the decisions
//! taken while materializing the environment and choosing the isolation engine.

use vstd::prelude::*;

use crate::cache::EnvironmentCache;
use crate::config::Config;
use crate::deps::{add_store_entries, dependency_locations, distinct, entries_of_var, view_set};
use crate::environment::{Environment, EnvironmentType, EnvironmentView};
use crate::error::SandboxError;
use crate::json::{
    is_json_text, json_document, json_variables, looks_like_json, parse_json, variables_from_json,
};
use crate::parse::{parse_key_value_lines, parse_kv};
use crate::session::{Session, SessionView};
use crate::text::{chars_of, push_str, string_of};
use crate::vars::EnvVars;

verus! {

/// The host platforms with an isolation variant.
#[derive(Debug, Clone, Copy, PartialEq, Eq, Structural)]
pub enum Platform {
    Linux,
    Darwin,
}

/// The isolation variant for an operating system name as Rust spells it.
pub fn select_platform(os: &str) -> (r: Result<Platform, SandboxError>)
    ensures
        os@ == "linux"@ <==> r == Ok::<Platform, SandboxError>(Platform::Linux),
        os@ == "macos"@ <==> r == Ok::<Platform, SandboxError>(Platform::Darwin),
        os@ != "linux"@ && os@ != "macos"@ ==> (r matches Err(SandboxError::UnsupportedOS(n))
            && n@ == os@),
{
    proof {
        reveal_strlit("linux");
        reveal_strlit("macos");
        assert("linux"@[0] != "macos"@[0]);
    }
    if crate::text::str_eq(os, "linux") {
        Ok(Platform::Linux)
    } else if crate::text::str_eq(os, "macos") {
        Ok(Platform::Darwin)
    } else {
        Err(SandboxError::UnsupportedOS(string_of(&chars_of(os))))
    }
}

/// The isolation engine's path where it was found; a setup error before any
/// launch where it was not.
pub fn require_engine(found: Option<String>, name: &str) -> (r: Result<String, SandboxError>)
    ensures
        match found {
            Some(p) => r matches Ok(q) && q@ == p@,
            None => r matches Err(SandboxError::SandboxSetupError(msg)) && msg@ == name@
                + " is not installed"@,
        },
{
    match found {
        Some(p) => Ok(p),
        None => {
            let mut msg = chars_of(name);
            push_str(&mut msg, " is not installed");
            Err(SandboxError::SandboxSetupError(string_of(&msg)))
        },
    }
}

/// The shell to run in the sandbox: the environment's own `BASH` where that
/// file exists (`env_bash`), else the system's, else `/bin/bash`.
pub fn pick_bash(env_bash: Option<String>, current_system_exists: bool, usr_bin_exists: bool) -> (r:
    String)
    ensures
        match env_bash {
            Some(b) => r@ == b@,
            None => r@ == if current_system_exists {
                "/run/current-system/sw/bin/bash"@
            } else if usr_bin_exists {
                "/usr/bin/bash"@
            } else {
                "/bin/bash"@
            },
        },
{
    match env_bash {
        Some(b) => b,
        None => {
            if current_system_exists {
                string_of(&chars_of("/run/current-system/sw/bin/bash"))
            } else if usr_bin_exists {
                string_of(&chars_of("/usr/bin/bash"))
            } else {
                string_of(&chars_of("/bin/bash"))
            }
        },
    }
}

/// The arguments that make a dialect's binary print its environment.
pub open spec fn materialize_args_of(t: EnvironmentType) -> Seq<Seq<char>> {
    match t {
        EnvironmentType::Flake => seq!["print-dev-env"@, "--json"@, "--impure"@],
        EnvironmentType::Devenv => seq!["--run"@, "env"@],
    }
}

/// The error text of a materialization that exited non-zero: the dialect,
/// then the tool's standard error.
pub open spec fn failure_message(t: EnvironmentType, stderr: Seq<char>) -> Seq<char> {
    match t {
        EnvironmentType::Flake => "Failed to get flake environment: "@ + stderr,
        EnvironmentType::Devenv => "Failed to get devenv environment: "@ + stderr,
    }
}

/// What a successful materialization yields: the variables as the output
/// states them and their dependency locations.
pub open spec fn materialized(
    stdout: Seq<char>,
    r: Result<(EnvVars, Vec<String>), SandboxError>,
) -> bool {
    match r {
        Ok(out) => out.0.wf() && (if looks_like_json(stdout) {
            json_document(stdout) matches Some(doc) && out.0@ == json_variables(doc)
        } else {
            out.0@ == parse_kv(stdout)
        }) && distinct(out.1@) && view_set(out.1@) == dependency_locations(out.0@),
        Err(_) => looks_like_json(stdout) && json_document(stdout) is None,
    }
}

/// A sandbox for one session and its environment.
pub struct Sandbox {
    session: Session,
    environment: Environment,
    cache: EnvironmentCache,
}

impl Sandbox {
    /// A sandbox for `session` in `environment`, caching under `config`.
    pub fn new(config: &Config, session: &Session, environment: &Environment) -> (r: Result<
        Sandbox,
        SandboxError,
    >)
        ensures
            r matches Ok(s) && s.session_view() == session@ && s.environment_view() == environment@
                && s.cache_root() == config.cache_dir@,
    {
        let for_cache = Config {
            sessions_dir: string_of(&chars_of(config.sessions_dir.as_str())),
            cache_dir: string_of(&chars_of(config.cache_dir.as_str())),
        };
        Ok(
            Sandbox {
                session: session.copy(),
                environment: environment.copy(),
                cache: EnvironmentCache::new(for_cache),
            },
        )
    }

    /// The session.
    pub closed spec fn session_view(&self) -> SessionView {
        self.session@
    }

    /// The environment.
    pub closed spec fn environment_view(&self) -> EnvironmentView {
        self.environment@
    }

    /// The cache root.
    pub closed spec fn cache_root(&self) -> Seq<char> {
        self.cache.cache_root()
    }

    /// The session.
    pub fn session(&self) -> (r: &Session)
        ensures
            r@ == self.session_view(),
    {
        &self.session
    }

    /// The environment.
    pub fn environment(&self) -> (r: &Environment)
        ensures
            r@ == self.environment_view(),
    {
        &self.environment
    }

    /// The cache.
    pub fn cache(&self) -> (r: &EnvironmentCache)
        ensures
            r.cache_root() == self.cache_root(),
    {
        &self.cache
    }

    /// The arguments that make the resolved binary print the environment, run
    /// in the project directory.
    pub fn materialize_args(&self) -> (r: Vec<String>)
        ensures
            r@.map_values(|s: String| s@) == materialize_args_of(self.environment_view().env_type),
    {
        let mut out: Vec<String> = Vec::new();
        match self.environment.env_type() {
            EnvironmentType::Flake => {
                out.push(string_of(&chars_of("print-dev-env")));
                out.push(string_of(&chars_of("--json")));
                out.push(string_of(&chars_of("--impure")));
            },
            EnvironmentType::Devenv => {
                out.push(string_of(&chars_of("--run")));
                out.push(string_of(&chars_of("env")));
            },
        }
        assert(out@.map_values(|s: String| s@) =~= materialize_args_of(
            self.environment_view().env_type,
        ));
        out
    }

    /// Reads the variable set that a materialization tool printed: a JSON document
    /// where the text opens with `{`, else `KEY=VALUE` lines.
    pub fn parse_environment_output(&self, output: &str) -> (r: Result<EnvVars, SandboxError>)
        ensures
            looks_like_json(output@) ==> match json_document(output@) {
                None => r is Err,
                Some(doc) => r matches Ok(v) && v.wf() && v@ == json_variables(doc),
            },
            !looks_like_json(output@) ==> (r matches Ok(v) && v.wf() && v@ == parse_kv(output@)),
    {
        if is_json_text(output) {
            match parse_json(output) {
                Some(doc) => Ok(variables_from_json(&doc)),
                None => Err(
                    SandboxError::SandboxSetupError(
                        string_of(&chars_of("environment output is not valid JSON")),
                    ),
                ),
            }
        } else {
            Ok(parse_key_value_lines(output))
        }
    }

    /// The dependency locations of `vars`, each once, in no particular order.
    pub fn extract_nix_store_paths(&self, vars: &EnvVars) -> (r: Vec<String>)
        requires
            vars.wf(),
        ensures
            distinct(r@),
            view_set(r@) == dependency_locations(vars@),
    {
        let mut out: Vec<String> = Vec::new();
        assert(view_set(out@) =~= Set::<Seq<char>>::empty());
        let names = ["PATH", "LD_LIBRARY_PATH", "PKG_CONFIG_PATH", "CMAKE_PREFIX_PATH"];
        let ghost acc = Set::<Seq<char>>::empty();
        let mut n: usize = 0;
        while n < 4
            invariant
                n <= 4,
                names@ == seq!["PATH", "LD_LIBRARY_PATH", "PKG_CONFIG_PATH", "CMAKE_PREFIX_PATH"],
                vars.wf(),
                distinct(out@),
                view_set(out@) == (if n == 0 {
                    Set::empty()
                } else if n == 1 {
                    entries_of_var(vars@, "PATH"@)
                } else if n == 2 {
                    entries_of_var(vars@, "PATH"@) + entries_of_var(vars@, "LD_LIBRARY_PATH"@)
                } else if n == 3 {
                    entries_of_var(vars@, "PATH"@) + entries_of_var(vars@, "LD_LIBRARY_PATH"@)
                        + entries_of_var(vars@, "PKG_CONFIG_PATH"@)
                } else {
                    dependency_locations(vars@)
                }),
            decreases 4 - n,
        {
            let name = names[n];
            match vars.get(name) {
                Some(v) => add_store_entries(&mut out, v.as_str()),
                None => {
                    assert(view_set(out@) =~= view_set(out@) + Set::<Seq<char>>::empty());
                },
            }
            n = n + 1;
        }
        out
    }

    /// What the materialization run yields: on a non-zero exit a setup error
    /// that carries its standard error; else the variables it printed and
    /// their dependency locations.
    pub fn parse_materialization(&self, success: bool, stdout: &str, stderr: &str) -> (r: Result<
        (EnvVars, Vec<String>),
        SandboxError,
    >)
        ensures
            !success ==> (r matches Err(SandboxError::SandboxSetupError(msg)) && msg@
                == failure_message(self.environment_view().env_type, stderr@)),
            success ==> materialized(stdout@, r),
    {
        if !success {
            let mut msg = match self.environment.env_type() {
                EnvironmentType::Flake => chars_of("Failed to get flake environment: "),
                EnvironmentType::Devenv => chars_of("Failed to get devenv environment: "),
            };
            push_str(&mut msg, stderr);
            return Err(SandboxError::SandboxSetupError(string_of(&msg)));
        }
        match self.parse_environment_output(stdout) {
            Ok(vars) => {
                let paths = self.extract_nix_store_paths(&vars);
                Ok((vars, paths))
            },
            Err(e) => Err(e),
        }
    }
}

} // verus!
