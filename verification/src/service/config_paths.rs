//! Where a configuration file might be, in priority order, and where
//! settings are saved.
//!
//! Paths are modelled as lists of components (the first one may itself
//! contain separators, like `config/default.toml`); joining them in order
//! gives the file's path. The process environment the choice depends on is
//! passed in as a [`ConfigEnv`].
use vstd::prelude::*;
use vstd::string::*;

verus! {

/// The operating system the service was built for.
#[derive(Debug, Clone, Copy, PartialEq, Eq, Structural)]
pub enum TargetOs {
    Windows,
    Linux,
    MacOs,
    Other,
}

/// Name of the environment variable that overrides every other search
/// location. Used by installers that know exactly where they put the
/// config file.
pub const CONFIG_PATH_ENV: &'static str = "SLD_CONFIG_PATH";

/// The parts of the process environment the config location depends on.
#[derive(Debug, Clone)]
pub struct ConfigEnv {
    pub os: TargetOs,
    /// Value of [`CONFIG_PATH_ENV`], when set.
    pub config_path: Option<String>,
    /// Value of `LOCALAPPDATA`, when set.
    pub local_app_data: Option<String>,
    /// Value of `XDG_CONFIG_HOME`, when set.
    pub xdg_config_home: Option<String>,
    /// Value of `HOME`, when set.
    pub home: Option<String>,
}

/// A path given by its components.
pub open spec fn path_view(path: Seq<String>) -> Seq<Seq<char>> {
    path.map_values(|component: String| component@)
}

/// An optional path given by its components.
pub open spec fn opt_path_view(path: Option<Vec<String>>) -> Option<Seq<Seq<char>>> {
    match path {
        Some(p) => Some(path_view(p@)),
        None => None,
    }
}

/// The per-user config location: `%LOCALAPPDATA%` on Windows,
/// `$XDG_CONFIG_HOME` (falling back to `$HOME/.config`) elsewhere, then
/// `logitech-sim-led/default.toml` under it.
pub open spec fn per_user_path_spec(env: ConfigEnv) -> Option<Seq<Seq<char>>> {
    if env.os == TargetOs::Windows {
        match env.local_app_data {
            Some(dir) => Some(seq![dir@, "logitech-sim-led"@, "default.toml"@]),
            None => None,
        }
    } else {
        match env.xdg_config_home {
            Some(dir) => Some(seq![dir@, "logitech-sim-led"@, "default.toml"@]),
            None => match env.home {
                Some(home) => Some(seq![home@, ".config"@, "logitech-sim-led"@, "default.toml"@]),
                None => None,
            },
        }
    }
}

/// Zero or one path.
pub open spec fn opt_to_seq(path: Option<Seq<Seq<char>>>) -> Seq<Seq<Seq<char>>> {
    match path {
        Some(p) => seq![p],
        None => seq![],
    }
}

/// The explicit override, as zero or one candidate.
pub open spec fn override_spec(env: ConfigEnv) -> Seq<Seq<Seq<char>>> {
    match env.config_path {
        Some(p) => seq![seq![p@]],
        None => seq![],
    }
}

/// The search order: the explicit override, the per-user location, the
/// `config/default.toml` next to the working directory, then the
/// system-wide location of the Linux and macOS installers.
pub open spec fn candidates_spec(env: ConfigEnv) -> Seq<Seq<Seq<char>>> {
    let system = if env.os == TargetOs::Linux {
        seq![seq!["/etc/logitech-sim-led/default.toml"@]]
    } else if env.os == TargetOs::MacOs {
        seq![seq!["/usr/local/etc/logitech-sim-led/default.toml"@]]
    } else {
        seq![]
    };
    override_spec(env) + opt_to_seq(per_user_path_spec(env)) + seq![seq!["config/default.toml"@]] + system
}

/// Where settings are saved: the explicit override when set, else the
/// per-user location.
pub open spec fn save_path_spec(env: ConfigEnv) -> Option<Seq<Seq<char>>> {
    match env.config_path {
        Some(p) => Some(seq![p@]),
        None => per_user_path_spec(env),
    }
}

fn clone_opt(value: &Option<String>) -> (cloned: Option<String>)
    ensures
        match (value, cloned) {
            (Some(a), Some(b)) => a@ == b@,
            (None, None) => true,
            _ => false,
        },
{
    match value {
        Some(s) => Some(s.clone()),
        None => None,
    }
}

fn under_app_dir(base: Vec<String>) -> (path: Vec<String>)
    ensures
        path_view(path@) == path_view(base@) + seq!["logitech-sim-led"@, "default.toml"@],
{
    let mut path = base;
    let ghost before = path@;
    path.push(String::from_str("logitech-sim-led"));
    path.push(String::from_str("default.toml"));
    assert(path_view(path@) =~= path_view(before) + seq!["logitech-sim-led"@, "default.toml"@]);
    path
}

/// Per-user, always-writable config location: `%LOCALAPPDATA%` on
/// Windows, `XDG_CONFIG_HOME` (falling back to `~/.config`) elsewhere.
/// Nothing writes here until settings are first saved.
pub fn per_user_config_path(env: &ConfigEnv) -> (path: Option<Vec<String>>)
    ensures
        opt_path_view(path) == per_user_path_spec(*env),
{
    if env.os == TargetOs::Windows {
        match clone_opt(&env.local_app_data) {
            Some(dir) => {
                let path = under_app_dir(vec![dir]);
                assert(path_view(path@) =~= seq![
                    env.local_app_data.unwrap()@,
                    "logitech-sim-led"@,
                    "default.toml"@,
                ]);
                Some(path)
            },
            None => None,
        }
    } else {
        match clone_opt(&env.xdg_config_home) {
            Some(dir) => {
                let path = under_app_dir(vec![dir]);
                assert(path_view(path@) =~= seq![
                    env.xdg_config_home.unwrap()@,
                    "logitech-sim-led"@,
                    "default.toml"@,
                ]);
                Some(path)
            },
            None => match clone_opt(&env.home) {
                Some(home) => {
                    let path = under_app_dir(vec![home, String::from_str(".config")]);
                    assert(path_view(path@) =~= seq![
                        env.home.unwrap()@,
                        ".config"@,
                        "logitech-sim-led"@,
                        "default.toml"@,
                    ]);
                    Some(path)
                },
                None => None,
            },
        }
    }
}

/// All paths between candidates and their views.
pub open spec fn paths_view(paths: Seq<Vec<String>>) -> Seq<Seq<Seq<char>>> {
    paths.map_values(|p: Vec<String>| path_view(p@))
}

/// Where a config file might be, checked in order; the first that exists
/// on disk wins. The per-user location ranks above the working-directory
/// and system ones, so settings saved from the dashboard take priority
/// over the vendor-shipped default on the next load.
pub fn candidate_config_paths(env: &ConfigEnv) -> (candidates: Vec<Vec<String>>)
    ensures
        paths_view(candidates@) == candidates_spec(*env),
{
    let mut candidates: Vec<Vec<String>> = Vec::new();
    let ghost explicit = override_spec(*env);
    if let Some(p) = clone_opt(&env.config_path) {
        let path = vec![p];
        assert(path_view(path@) =~= seq![env.config_path.unwrap()@]);
        candidates.push(path);
    }
    assert(paths_view(candidates@) =~= explicit);
    let ghost with_user = explicit + opt_to_seq(per_user_path_spec(*env));
    if let Some(p) = per_user_config_path(env) {
        candidates.push(p);
    }
    assert(paths_view(candidates@) =~= with_user);
    let cwd_default = vec![String::from_str("config/default.toml")];
    assert(path_view(cwd_default@) =~= seq!["config/default.toml"@]);
    candidates.push(cwd_default);
    let ghost with_cwd = with_user + seq![seq!["config/default.toml"@]];
    assert(paths_view(candidates@) =~= with_cwd);
    if env.os == TargetOs::Linux {
        let system = vec![String::from_str("/etc/logitech-sim-led/default.toml")];
        assert(path_view(system@) =~= seq!["/etc/logitech-sim-led/default.toml"@]);
        candidates.push(system);
    }
    if env.os == TargetOs::MacOs {
        let system = vec![String::from_str("/usr/local/etc/logitech-sim-led/default.toml")];
        assert(path_view(system@) =~= seq!["/usr/local/etc/logitech-sim-led/default.toml"@]);
        candidates.push(system);
    }
    assert(paths_view(candidates@) =~= candidates_spec(*env));
    candidates
}

/// Where settings are persisted: the explicit override when set (an
/// installer chose that location), otherwise the per-user location --
/// never back to wherever the config was loaded from, which may be a
/// read-only vendor-installed path. `None` when the platform offers no
/// writable per-user location (neither `LOCALAPPDATA` nor
/// `XDG_CONFIG_HOME`/`HOME` set).
pub fn save_config_path(env: &ConfigEnv) -> (path: Option<Vec<String>>)
    ensures
        opt_path_view(path) == save_path_spec(*env),
{
    match clone_opt(&env.config_path) {
        Some(p) => {
            let path = vec![p];
            assert(path_view(path@) =~= seq![env.config_path.unwrap()@]);
            Some(path)
        },
        None => per_user_config_path(env),
    }
}

/// An explicit override is the first candidate, ahead of every other
/// location.
pub proof fn lemma_override_is_first_candidate(env: ConfigEnv)
    requires
        env.config_path is Some,
    ensures
        candidates_spec(env)[0] == seq![env.config_path.unwrap()@],
{
}

/// `config/default.toml` is always a candidate.
pub proof fn lemma_working_directory_default_is_candidate(env: ConfigEnv)
    ensures
        candidates_spec(env).contains(seq!["config/default.toml"@]),
{
    let k = override_spec(env).len() + opt_to_seq(per_user_path_spec(env)).len();
    assert(candidates_spec(env)[k as int] == seq!["config/default.toml"@]);
}

/// The per-user location, when there is one, is searched right before the
/// working-directory default (and so before the system-wide one too): a
/// saved per-user file wins over the vendor-shipped default.
pub proof fn lemma_per_user_ranks_above_shipped_defaults(env: ConfigEnv)
    requires
        per_user_path_spec(env) is Some,
    ensures
        candidates_spec(env)[override_spec(env).len() as int] == per_user_path_spec(env).unwrap(),
        candidates_spec(env)[override_spec(env).len() + 1int] == seq!["config/default.toml"@],
{
}

/// Settings are saved to the location that is searched first, so what was
/// saved is what the next load finds (once it exists).
pub proof fn lemma_saved_config_is_first_candidate(env: ConfigEnv)
    requires
        save_path_spec(env) is Some,
    ensures
        candidates_spec(env)[0] == save_path_spec(env).unwrap(),
{
}


/// Where the per-user file is, on every platform: on Windows under
/// `%LOCALAPPDATA%` (and nowhere when it is unset); on every other system
/// under `$XDG_CONFIG_HOME` when set, else under `$HOME/.config` when `HOME`
/// is set, else nowhere -- always in a `logitech-sim-led` directory, file
/// `default.toml`. With no explicit override, that is where settings are
/// saved and the first place a load looks.
pub proof fn lemma_per_user_location(env: ConfigEnv)
    ensures
        env.os == TargetOs::Windows ==> match env.local_app_data {
            Some(dir) => per_user_path_spec(env) == Some(
                seq![dir@, "logitech-sim-led"@, "default.toml"@],
            ),
            None => per_user_path_spec(env) is None,
        },
        env.os != TargetOs::Windows ==> match (env.xdg_config_home, env.home) {
            (Some(dir), _) => per_user_path_spec(env) == Some(
                seq![dir@, "logitech-sim-led"@, "default.toml"@],
            ),
            (None, Some(home)) => per_user_path_spec(env) == Some(
                seq![home@, ".config"@, "logitech-sim-led"@, "default.toml"@],
            ),
            (None, None) => per_user_path_spec(env) is None,
        },
        env.config_path is None ==> save_path_spec(env) == per_user_path_spec(env),
        env.config_path is None && per_user_path_spec(env) is Some ==> candidates_spec(env)[0]
            == per_user_path_spec(env).unwrap(),
{
}

} // verus!
