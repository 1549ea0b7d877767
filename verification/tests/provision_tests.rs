use openleash::config::NodeBootstrapConfig;
use openleash::error::LeashError;
use openleash::models::PackageManager;
use openleash::provision::{ExitReport, ProvisionAction, ProvisionEvent, ProvisionSession};

fn ok() -> ProvisionEvent {
    ProvisionEvent::Ran(Ok(ExitReport { success: true, status: "exit status: 0".to_string() }))
}

fn failed() -> ProvisionEvent {
    ProvisionEvent::Ran(Ok(ExitReport { success: false, status: "exit status: 1".to_string() }))
}

fn node() -> NodeBootstrapConfig {
    NodeBootstrapConfig { version: " 20.18.0 ".to_string(), dist_base_url: Some("https://mirror.example/dist//".to_string()) }
}

fn run_of(a: &ProvisionAction) -> (String, Vec<String>, Vec<(String, String)>) {
    match a {
        ProvisionAction::Run(c) => (c.program.clone(), c.args.clone(), c.env.clone()),
        other => panic!("unexpected {:?}", other),
    }
}

fn path_of(a: &ProvisionAction) -> String {
    match a {
        ProvisionAction::CheckExists(p) | ProvisionAction::MakeDir(p) | ProvisionAction::RemoveFile(p) | ProvisionAction::RemoveDir(p) => p.clone(),
        other => panic!("unexpected {:?}", other),
    }
}

fn error_of(a: &ProvisionAction) -> String {
    match a {
        ProvisionAction::Finish(Err(LeashError::Backend(m))) => m.clone(),
        other => panic!("unexpected {:?}", other),
    }
}

#[test]
fn pip_install_creates_the_venv_first() {
    let s = ProvisionSession::install(PackageManager::Pip, "six", Some("1.16.0"), "/s", node(), "linux", "x86_64");
    let (s, a) = s.step(ProvisionEvent::Begin);
    assert_eq!(path_of(&a), "/s");
    let (s, a) = s.step(ProvisionEvent::Exists(false));
    let (p, args, env) = run_of(&a);
    assert_eq!(p, "python3");
    assert_eq!(args, vec!["-m", "venv", "/s"]);
    assert!(env.is_empty());
    let (s, a) = s.step(ok());
    let (p, args, env) = run_of(&a);
    assert_eq!(p, "/s/bin/pip");
    assert_eq!(args, vec!["install", "six==1.16.0"]);
    assert!(env.is_empty());
    let (s, a) = s.step(ok());
    assert!(matches!(a, ProvisionAction::Finish(Ok(()))));
    assert!(s.is_finished());
}

#[test]
fn venv_failure_is_reported() {
    let s = ProvisionSession::install(PackageManager::Pip, "six", None, "/s", node(), "linux", "x86_64");
    let (s, _) = s.step(ProvisionEvent::Begin);
    let (s, _) = s.step(ProvisionEvent::Exists(false));
    let (_, a) = s.step(failed());
    assert_eq!(error_of(&a), "python3 -m venv failed with status exit status: 1");
}

#[test]
fn npm_install_bootstraps_node_then_runs_in_scope() {
    let s = ProvisionSession::install(PackageManager::Npm, "left-pad", None, "/s", node(), "macos", "aarch64");
    let (s, _) = s.step(ProvisionEvent::Begin);
    let (s, a) = s.step(ProvisionEvent::Exists(true));
    assert_eq!(path_of(&a), "/s/.node");
    let (s, a) = s.step(ProvisionEvent::Exists(false));
    assert!(matches!(&a, ProvisionAction::MakeDir(d) if d == "/s/.node"));
    let (s, a) = s.step(ProvisionEvent::Done(Ok(())));
    let (p, args, _) = run_of(&a);
    assert_eq!(p, "curl");
    assert_eq!(
        args,
        vec![
            "-sL",
            "-o",
            "/s/.node/node-v20.18.0-darwin-arm64.tar.gz",
            "https://mirror.example/dist/v20.18.0/node-v20.18.0-darwin-arm64.tar.gz"
        ]
    );
    let (s, a) = s.step(ok());
    let (p, args, _) = run_of(&a);
    assert_eq!(p, "tar");
    assert_eq!(args, vec!["-xzf", "/s/.node/node-v20.18.0-darwin-arm64.tar.gz", "-C", "/s/.node", "--strip-components=1"]);
    let (s, a) = s.step(ok());
    assert!(matches!(&a, ProvisionAction::RemoveFile(f) if f == "/s/.node/node-v20.18.0-darwin-arm64.tar.gz"));
    let (s, a) = s.step(ProvisionEvent::Done(Ok(())));
    assert_eq!(path_of(&a), "/s/.node/bin/npm");
    let (s, a) = s.step(ProvisionEvent::Exists(true));
    assert_eq!(path_of(&a), "/s/.node/bin");
    let (s, a) = s.step(ProvisionEvent::Exists(true));
    assert_eq!(path_of(&a), "/s/.brew/bin");
    let (s, a) = s.step(ProvisionEvent::Exists(false));
    assert!(matches!(a, ProvisionAction::ReadPath));
    let (s, a) = s.step(ProvisionEvent::PathValue("/usr/bin".to_string()));
    let (p, args, env) = run_of(&a);
    assert_eq!(p, "/s/.node/bin/npm");
    assert_eq!(args, vec!["install", "-g", "left-pad"]);
    assert_eq!(
        env,
        vec![
            ("VIRTUAL_ENV".to_string(), "/s".to_string()),
            ("PATH".to_string(), "/s/bin:/s/.node/bin:/usr/bin".to_string()),
            ("NPM_CONFIG_PREFIX".to_string(), "/s".to_string()),
        ]
    );
    let (s, a) = s.step(failed());
    assert_eq!(error_of(&a), "npm install exited with status: exit status: 1");
    assert!(s.is_finished());
}

#[test]
fn failed_download_is_removed_then_reported() {
    let s = ProvisionSession::install(PackageManager::Npm, "x", None, "/s", node(), "linux", "x86_64");
    let (s, _) = s.step(ProvisionEvent::Begin);
    let (s, _) = s.step(ProvisionEvent::Exists(true));
    let (s, _) = s.step(ProvisionEvent::Exists(false));
    let (s, _) = s.step(ProvisionEvent::Done(Ok(())));
    let (s, a) = s.step(failed());
    assert!(matches!(&a, ProvisionAction::RemoveFile(f) if f == "/s/.node/node-v20.18.0-linux-x64.tar.gz"));
    let (_, a) = s.step(ProvisionEvent::Done(Ok(())));
    assert_eq!(error_of(&a), "Failed to download Node.js tarball");
}

#[test]
fn missing_npm_after_extract_is_reported() {
    let s = ProvisionSession::install(PackageManager::Npm, "x", None, "/my \"s\"", NodeBootstrapConfig::default(), "linux", "arm");
    let (s, _) = s.step(ProvisionEvent::Begin);
    let (s, _) = s.step(ProvisionEvent::Exists(true));
    let (s, a) = s.step(ProvisionEvent::Exists(true));
    assert_eq!(path_of(&a), "/my \"s\"/.node/bin/npm");
    let (s, _) = s.step(ProvisionEvent::Exists(false));
    let (s, a) = s.step(ProvisionEvent::Done(Ok(())));
    let (_, args, _) = run_of(&a);
    assert_eq!(args[3], "https://nodejs.org/dist/v20.18.0/node-v20.18.0-linux-armv7l.tar.gz");
    let (s, _) = s.step(ok());
    let (s, _) = s.step(ok());
    let (s, _) = s.step(ProvisionEvent::Done(Ok(())));
    let (_, a) = s.step(ProvisionEvent::Exists(false));
    assert_eq!(error_of(&a), format!("npm binary not found at {:?} after extract", std::path::PathBuf::from("/my \"s\"/.node/bin/npm")));
}

#[test]
fn unsupported_platform_stops_node_bootstrap() {
    let s = ProvisionSession::install(PackageManager::Npm, "x", None, "/s", node(), "windows", "x86_64");
    let (s, _) = s.step(ProvisionEvent::Begin);
    let (s, _) = s.step(ProvisionEvent::Exists(true));
    let (_, a) = s.step(ProvisionEvent::Exists(false));
    assert_eq!(
        error_of(&a),
        "Portable Node bootstrap is not yet supported on Windows; use system npm or add win support"
    );
}

#[test]
fn brew_install_bootstraps_homebrew() {
    let s = ProvisionSession::install(PackageManager::Brew, "jq", Some("1.7"), "/s/", node(), "macos", "x86_64");
    let (s, _) = s.step(ProvisionEvent::Begin);
    let (s, a) = s.step(ProvisionEvent::Exists(true));
    assert_eq!(path_of(&a), "/s/.brew");
    let (s, a) = s.step(ProvisionEvent::Exists(false));
    assert!(matches!(&a, ProvisionAction::MakeDir(d) if d == "/s/.brew"));
    let (s, a) = s.step(ProvisionEvent::Done(Ok(())));
    let (p, args, _) = run_of(&a);
    assert_eq!(p, "git");
    assert_eq!(args, vec!["clone", "--depth=1", "https://github.com/Homebrew/brew", "/s/.brew"]);
    let (s, a) = s.step(ok());
    assert_eq!(path_of(&a), "/s/.node/bin");
    let (s, _) = s.step(ProvisionEvent::Exists(false));
    let (s, _) = s.step(ProvisionEvent::Exists(true));
    let (s, a) = s.step(ProvisionEvent::PathValue(String::new()));
    let (p, args, env) = run_of(&a);
    assert_eq!(p, "/s/.brew/bin/brew");
    assert_eq!(args, vec!["install", "jq@1.7"]);
    assert_eq!(env[1], ("PATH".to_string(), "/s/bin:/s/.brew/bin".to_string()));
    assert_eq!(env[2], ("HOMEBREW_PREFIX".to_string(), "/s/.brew".to_string()));
    let (_, a) = s.step(ProvisionEvent::Ran(Err("not found".to_string())));
    assert_eq!(error_of(&a), "Failed to run local brew: not found");
}

#[test]
fn removal_of_a_scope() {
    let (s, a) = ProvisionSession::remove("/s").step(ProvisionEvent::Begin);
    assert_eq!(path_of(&a), "/s");
    let (s, a) = s.step(ProvisionEvent::Exists(true));
    assert!(matches!(&a, ProvisionAction::RemoveDir(d) if d == "/s"));
    let (_, a) = s.step(ProvisionEvent::Done(Err("busy".to_string())));
    assert_eq!(error_of(&a), "Failed to remove venv: busy");
    let (s, _) = ProvisionSession::remove("/gone").step(ProvisionEvent::Begin);
    let (s, a) = s.step(ProvisionEvent::Exists(false));
    assert!(matches!(a, ProvisionAction::Finish(Ok(()))));
    assert!(s.is_finished());
}

#[test]
fn missing_npm_message_escapes_control_characters() {
    let root = "/a\tb\\c";
    let s = ProvisionSession::install(PackageManager::Npm, "x", None, root, NodeBootstrapConfig::default(), "linux", "x86_64");
    let (s, _) = s.step(ProvisionEvent::Begin);
    let (s, _) = s.step(ProvisionEvent::Exists(true));
    let (s, _) = s.step(ProvisionEvent::Exists(false));
    let (s, _) = s.step(ProvisionEvent::Done(Ok(())));
    let (s, _) = s.step(ok());
    let (s, _) = s.step(ok());
    let (s, _) = s.step(ProvisionEvent::Done(Ok(())));
    let (_, a) = s.step(ProvisionEvent::Exists(false));
    let npm = format!("{}/.node/bin/npm", root);
    assert_eq!(error_of(&a), format!("npm binary not found at {:?} after extract", std::path::PathBuf::from(npm)));
}
