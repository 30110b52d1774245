use commut::pty::{
    join_path, resolve_shell_path_with, shell_candidate, shell_launch_spec_with, LaunchEnv,
    LaunchError, ShellLaunchSpec,
};

fn env_get<'a>(launch: &'a ShellLaunchSpec, name: &str) -> Option<&'a String> {
    launch.env.iter().find(|(key, _)| key == name).map(|(_, value)| value)
}

fn tester_env() -> LaunchEnv {
    LaunchEnv {
        home: Some("/home/tester".to_owned()),
        user: Some("tester".to_owned()),
        xdg_runtime_dir: Some("/run/user/1000".to_owned()),
        dbus_session_bus_address: Some("unix:path=/run/user/1000/bus".to_owned()),
    }
}

#[test]
fn shell_resolution_prefers_the_current_typescript_target_first() {
    let candidate = shell_candidate("/home/tester");
    let existing = ["/home/tester/.nix-profile/bin/zsh".to_owned()];
    let resolved = resolve_shell_path_with("/home/tester", existing.contains(&candidate))
        .expect("shell should resolve");
    assert_eq!(resolved, "/home/tester/.nix-profile/bin/zsh");
}

#[test]
fn shell_resolution_requires_the_typescript_compatibility_target_exactly() {
    let error = resolve_shell_path_with("/home/tester", false)
        .expect_err("missing strict shell target must fail");
    assert!(error
        .message()
        .contains("required shell executable not found at $HOME/.nix-profile/bin/zsh"));
}

#[test]
fn shell_launch_spec_matches_the_required_environment_contract() {
    let env = tester_env();
    let exists = shell_candidate(env.home.as_deref().unwrap()) == "/home/tester/.nix-profile/bin/zsh";
    let launch = shell_launch_spec_with(&env, exists).expect("launch spec should build");

    assert_eq!(launch.executable, "/home/tester/.nix-profile/bin/zsh");
    assert_eq!(launch.cwd, "/home/tester");
    assert_eq!(env_get(&launch, "PATH"), Some(&"/home/tester/.nix-profile/bin:/usr/bin".to_owned()));
    assert_eq!(env_get(&launch, "TERM"), Some(&"xterm-256color".to_owned()));
    assert_eq!(env_get(&launch, "COLORTERM"), Some(&"truecolor".to_owned()));
    assert_eq!(env_get(&launch, "NODE_PTY"), Some(&"1".to_owned()));
    assert_eq!(env_get(&launch, "COMMUT"), Some(&"1".to_owned()));
    assert_eq!(launch.args, vec!["-l".to_owned()]);
    assert_eq!(env_get(&launch, "USER"), Some(&"tester".to_owned()));
    assert_eq!(env_get(&launch, "XDG_RUNTIME_DIR"), Some(&"/run/user/1000".to_owned()));
    assert_eq!(
        env_get(&launch, "DBUS_SESSION_BUS_ADDRESS"),
        Some(&"unix:path=/run/user/1000/bus".to_owned())
    );
}

#[test]
fn shell_launch_spec_requires_home() {
    let env = LaunchEnv { home: None, user: None, xdg_runtime_dir: None, dbus_session_bus_address: None };
    let error = shell_launch_spec_with(&env, true).expect_err("missing HOME must fail");
    assert!(error.message().contains("$HOME cannot be empty"));
    let env = LaunchEnv { home: Some(String::new()), user: None, xdg_runtime_dir: None, dbus_session_bus_address: None };
    assert_eq!(shell_launch_spec_with(&env, true), Err(LaunchError::HomeEmpty));
}

#[test]
fn empty_optional_variables_are_left_out() {
    let env = LaunchEnv {
        home: Some("/root/".to_owned()),
        user: Some(String::new()),
        xdg_runtime_dir: None,
        dbus_session_bus_address: Some("bus".to_owned()),
    };
    let launch = shell_launch_spec_with(&env, true).expect("launch");
    assert_eq!(launch.executable, "/root/.nix-profile/bin/zsh");
    let names: Vec<&str> = launch.env.iter().map(|(k, _)| k.as_str()).collect();
    assert_eq!(names, vec!["PATH", "TERM", "COLORTERM", "NODE_PTY", "COMMUT", "DBUS_SESSION_BUS_ADDRESS"]);
    assert_eq!(env_get(&launch, "PATH"), Some(&"/root/.nix-profile/bin:/usr/bin".to_owned()));
    assert_eq!(shell_launch_spec_with(&env, false), Err(LaunchError::ShellMissing));
}

#[test]
fn paths_join_like_path_join() {
    assert_eq!(join_path("/a", "b"), "/a/b");
    assert_eq!(join_path("/a/", "b"), "/a/b");
    assert_eq!(join_path("/", "b"), "/b");
}
