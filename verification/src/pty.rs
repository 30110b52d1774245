//! The shell launch contract of the PTY sessions.
//!
//! A session runs `$HOME/.nix-profile/bin/zsh` as a login shell (`-l`) in
//! `$HOME` with a fixed environment: `PATH` of the user's Nix profile and
//! `/usr/bin`, a 256-colour truecolor terminal, `NODE_PTY=1`, `COMMUT=1` (so
//! that programs can tell they run under commut), and the caller's `USER`,
//! `XDG_RUNTIME_DIR` and `DBUS_SESSION_BUS_ADDRESS` when they are set and
//! non-empty. The process itself is started by the executable.

use vstd::prelude::*;

use crate::contract::Dimensions;

verus! {

/// Dimensions a PTY is opened with.
#[derive(Debug, Clone, Copy, PartialEq, Eq)]
pub struct PtySpec {
    pub dimensions: Dimensions,
}

/// `base` joined with the relative path `rel`, as `Path::join` does: a `/`
/// is put between them unless `base` already ends with one.
pub open spec fn path_join(base: Seq<char>, rel: Seq<char>) -> Seq<char> {
    if base.len() > 0 && base.last() == '/' {
        base + rel
    } else {
        base + "/"@ + rel
    }
}

/// Join the non-empty directory `base` with the relative path `rel`.
pub fn join_path(base: &str, rel: &str) -> (joined: String)
    ensures
        joined@ == path_join(base@, rel@),
{
    let mut joined = String::from_str(base);
    let n = base.unicode_len();
    if !(n > 0 && base.get_char(n - 1) == '/') {
        joined.append("/");
    }
    joined.append(rel);
    joined
}


/// Why the shell cannot be launched.
#[derive(Debug, Clone, Copy, PartialEq, Eq)]
pub enum LaunchError {
    /// `$HOME` is unset or empty.
    HomeEmpty,
    /// `$HOME/.nix-profile/bin/zsh` is not an executable file.
    ShellMissing,
}

impl LaunchError {
    /// The message the session reports.
    pub fn message(&self) -> (m: &'static str)
        ensures
            m@ == (match self {
                LaunchError::HomeEmpty => "$HOME cannot be empty"@,
                LaunchError::ShellMissing => "required shell executable not found at $HOME/.nix-profile/bin/zsh"@,
            }),
    {
        match self {
            LaunchError::HomeEmpty => "$HOME cannot be empty",
            LaunchError::ShellMissing => "required shell executable not found at $HOME/.nix-profile/bin/zsh",
        }
    }
}

/// The environment variables the launch reads, as the caller found them.
#[derive(Debug, Clone, PartialEq, Eq)]
pub struct LaunchEnv {
    pub home: Option<String>,
    pub user: Option<String>,
    pub xdg_runtime_dir: Option<String>,
    pub dbus_session_bus_address: Option<String>,
}

/// The shell to run, where, and with which environment (in this order).
#[derive(Debug, Clone, PartialEq, Eq)]
pub struct ShellLaunchSpec {
    pub executable: String,
    pub args: Vec<String>,
    pub cwd: String,
    pub env: Vec<(String, String)>,
}

pub open spec fn opt_view(o: Option<String>) -> Option<Seq<char>> {
    match o {
        Some(s) => Some(s@),
        None => None,
    }
}

/// The argument that starts the shell as a login shell.
pub const LOGIN_SHELL_FLAG: &'static str = "-l";

/// The shell the session runs for a given home directory.
pub open spec fn shell_path(home: Seq<char>) -> Seq<char> {
    path_join(home, ".nix-profile/bin/zsh"@)
}

/// One environment entry when the caller's value is set and non-empty.
pub open spec fn passed_through(name: Seq<char>, value: Option<Seq<char>>) -> Seq<(Seq<char>, Seq<char>)> {
    match value {
        Some(v) => if v.len() > 0 {
            seq![(name, v)]
        } else {
            seq![]
        },
        None => seq![],
    }
}

/// The environment of the shell for home `home` and the caller's values.
pub open spec fn launch_env(home: Seq<char>, user: Option<Seq<char>>, xdg_runtime_dir: Option<Seq<char>>, dbus: Option<Seq<char>>) -> Seq<(Seq<char>, Seq<char>)> {
    seq![
        ("PATH"@, path_join(home, ".nix-profile/bin"@) + ":/usr/bin"@),
        ("TERM"@, "xterm-256color"@),
        ("COLORTERM"@, "truecolor"@),
        ("NODE_PTY"@, "1"@),
        ("COMMUT"@, "1"@),
    ] + passed_through("USER"@, user) + passed_through("XDG_RUNTIME_DIR"@, xdg_runtime_dir)
        + passed_through("DBUS_SESSION_BUS_ADDRESS"@, dbus)
}

pub open spec fn env_view(env: Seq<(String, String)>) -> Seq<(Seq<char>, Seq<char>)> {
    env.map_values(|p: (String, String)| (p.0@, p.1@))
}

/// The shell path to test for a home directory.
pub fn shell_candidate(home: &str) -> (path: String)
    ensures
        path@ == shell_path(home@),
{
    join_path(home, ".nix-profile/bin/zsh")
}

/// The shell under `home`, given whether it exists as an executable file.
pub fn resolve_shell_path_with(home: &str, shell_exists: bool) -> (r: Result<String, LaunchError>)
    ensures
        match r {
            Ok(path) => shell_exists && path@ == shell_path(home@),
            Err(e) => !shell_exists && e == LaunchError::ShellMissing,
        },
{
    let shell = shell_candidate(home);
    if shell_exists {
        Ok(shell)
    } else {
        Err(LaunchError::ShellMissing)
    }
}

fn push_passed_through(env: &mut Vec<(String, String)>, name: &str, value: &Option<String>)
    ensures
        env_view(final(env)@) == env_view(old(env)@) + passed_through(name@, opt_view(*value)),
{
    let ghost before = env@;
    match value {
        Some(v) => {
            if !v.as_str().is_empty() {
                env.push((String::from_str(name), v.clone()));
                assert(env_view(env@) =~= env_view(before) + passed_through(name@, opt_view(*value)));
            } else {
                assert(env_view(env@) =~= env_view(before) + passed_through(name@, opt_view(*value)));
            }
        },
        None => {
            assert(env_view(env@) =~= env_view(before) + passed_through(name@, opt_view(*value)));
        },
    }
}

/// The launch of the session shell: `$HOME` must be set and non-empty and
/// the shell must exist (`shell_exists` answers for [`shell_candidate`] of
/// `$HOME`); the shell runs in `$HOME` with [`launch_env`].
pub fn shell_launch_spec_with(env: &LaunchEnv, shell_exists: bool) -> (r: Result<ShellLaunchSpec, LaunchError>)
    ensures
        match opt_view(env.home) {
            None => r == Err::<ShellLaunchSpec, LaunchError>(LaunchError::HomeEmpty),
            Some(home) => if home.len() == 0 {
                r == Err::<ShellLaunchSpec, LaunchError>(LaunchError::HomeEmpty)
            } else if !shell_exists {
                r == Err::<ShellLaunchSpec, LaunchError>(LaunchError::ShellMissing)
            } else {
                r matches Ok(launch) && launch.executable@ == shell_path(home) && launch.cwd@ == home
                    && launch.args@.map_values(|a: String| a@) == seq![LOGIN_SHELL_FLAG@]
                    && env_view(launch.env@) == launch_env(
                    home,
                    opt_view(env.user),
                    opt_view(env.xdg_runtime_dir),
                    opt_view(env.dbus_session_bus_address),
                )
            },
        },
{
    let home = match &env.home {
        Some(h) => h,
        None => {
            return Err(LaunchError::HomeEmpty);
        },
    };
    if home.as_str().is_empty() {
        return Err(LaunchError::HomeEmpty);
    }
    let executable = resolve_shell_path_with(home.as_str(), shell_exists)?;
    let mut path = join_path(home.as_str(), ".nix-profile/bin");
    path.append(":/usr/bin");
    let mut launch_env: Vec<(String, String)> = Vec::new();
    launch_env.push((String::from_str("PATH"), path));
    launch_env.push((String::from_str("TERM"), String::from_str("xterm-256color")));
    launch_env.push((String::from_str("COLORTERM"), String::from_str("truecolor")));
    launch_env.push((String::from_str("NODE_PTY"), String::from_str("1")));
    launch_env.push((String::from_str("COMMUT"), String::from_str("1")));
    proof {
        let h = home@;
        assert(env_view(launch_env@) =~= seq![
            ("PATH"@, path_join(h, ".nix-profile/bin"@) + ":/usr/bin"@),
            ("TERM"@, "xterm-256color"@),
            ("COLORTERM"@, "truecolor"@),
            ("NODE_PTY"@, "1"@),
            ("COMMUT"@, "1"@),
        ]);
    }
    push_passed_through(&mut launch_env, "USER", &env.user);
    push_passed_through(&mut launch_env, "XDG_RUNTIME_DIR", &env.xdg_runtime_dir);
    push_passed_through(&mut launch_env, "DBUS_SESSION_BUS_ADDRESS", &env.dbus_session_bus_address);
    let mut args: Vec<String> = Vec::new();
    args.push(String::from_str(LOGIN_SHELL_FLAG));
    assert(args@.map_values(|a: String| a@) =~= seq![LOGIN_SHELL_FLAG@]);
    Ok(ShellLaunchSpec { executable, args, cwd: home.clone(), env: launch_env })
}

} // verus!
