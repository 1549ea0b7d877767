use openleash::backends::{BrewBackend, KeychainBackend, NpmBackend, PackageBackend, PipBackend};
use openleash::config::{NodeBootstrapConfig, OpenLeashConfig};
use openleash::daemon::{new_task, task_environment, task_scope_path, task_ttl};
use openleash::error::LeashError;
use openleash::flow::Refusal;
use openleash::models::{TaskStatus, Timestamp};
use openleash::venv::{join_path, platform_for_node, VenvManager};

#[test]
fn venv_path_resolution() {
    let manager = VenvManager::new("/tmp/scope");
    assert_eq!(manager.path_for_scope(), "/tmp/scope");
    assert_eq!(manager.bin_dir(), "/tmp/scope/bin");
    assert_eq!(manager.brew_dir(), "/tmp/scope/.brew");
    assert_eq!(manager.brew_bin(), "/tmp/scope/.brew/bin/brew");
    assert_eq!(manager.node_dir(), "/tmp/scope/.node");
    assert_eq!(manager.node_bin_dir(), "/tmp/scope/.node/bin");
    assert_eq!(manager.npm_bin(), "/tmp/scope/.node/bin/npm");
    assert_eq!(join_path("/tmp/", "bin"), "/tmp/bin");
    assert_eq!(join_path("", "bin"), "bin");
}

#[test]
fn venv_activation_env() {
    let manager = VenvManager::new("/s");
    let env = manager.activation_env("/usr/bin", false, false);
    assert_eq!(
        env,
        vec![
            ("VIRTUAL_ENV".to_string(), "/s".to_string()),
            ("PATH".to_string(), "/s/bin:/usr/bin".to_string()),
            ("NPM_CONFIG_PREFIX".to_string(), "/s".to_string()),
        ]
    );
    let env = manager.activation_env("", true, true);
    assert_eq!(env[1].1, "/s/bin:/s/.node/bin:/s/.brew/bin");
    assert_eq!(env[2], ("HOMEBREW_PREFIX".to_string(), "/s/.brew".to_string()));
    assert_eq!(env.len(), 4);
}

#[test]
fn node_download_plan() {
    let manager = VenvManager::new("/s");
    let config = NodeBootstrapConfig { version: " 22.11.0\n".to_string(), dist_base_url: Some("https://mirror.example/node//".to_string()) };
    let plan = manager.node_download(&config, "linux", "x86_64").unwrap();
    assert_eq!(plan.tarball_name, "node-v22.11.0-linux-x64.tar.gz");
    assert_eq!(plan.url, "https://mirror.example/node/v22.11.0/node-v22.11.0-linux-x64.tar.gz");
    assert_eq!(plan.archive_path, "/s/.node/node-v22.11.0-linux-x64.tar.gz");
    let plan = manager.node_download(&NodeBootstrapConfig::default(), "macos", "aarch64").unwrap();
    assert_eq!(plan.url, "https://nodejs.org/dist/v20.18.0/node-v20.18.0-darwin-arm64.tar.gz");
    match manager.node_download(&config, "windows", "x86_64") {
        Err(LeashError::Backend(m)) => assert!(m.contains("not yet supported on Windows")),
        other => panic!("unexpected {:?}", other.is_ok()),
    }
}

#[test]
fn node_platforms() {
    assert_eq!(platform_for_node("linux", "arm").unwrap(), ("linux".to_string(), "armv7l".to_string()));
    assert_eq!(platform_for_node("macos", "arm64").unwrap(), ("darwin".to_string(), "arm64".to_string()));
    match platform_for_node("freebsd", "x86_64") {
        Err(LeashError::Backend(m)) => assert_eq!(m, "Unsupported OS for portable Node: freebsd"),
        _ => panic!(),
    }
    match platform_for_node("linux", "riscv64") {
        Err(LeashError::Backend(m)) => assert_eq!(m, "Unsupported arch for portable Node: riscv64"),
        _ => panic!(),
    }
}

#[test]
fn pip_executable_dir() {
    let exe_dir = PipBackend.executable_directory("/tmp/venv");
    assert!(exe_dir.contains("bin") || exe_dir.contains("Scripts"));
    assert_eq!(exe_dir, "/tmp/venv/bin");
    assert_eq!(PipBackend::pip_executable("/tmp/venv"), "/tmp/venv/bin/pip");
}

#[test]
fn package_specs() {
    assert_eq!(PipBackend.package_spec("requests", Some("2.0")), "requests==2.0");
    assert_eq!(PipBackend.package_spec("requests", None), "requests");
    assert_eq!(NpmBackend::default().package_spec("left-pad", Some("1.3.0")), "left-pad@1.3.0");
    assert_eq!(BrewBackend.package_spec("jq", Some("1.7")), "jq@1.7");
    assert_eq!(BrewBackend.executable_directory("/s"), "/s/.brew/bin");
    assert_eq!(NpmBackend::new(NodeBootstrapConfig::default()).executable_directory("/s"), "/s/bin");
}

#[test]
fn keychain_errors() {
    match KeychainBackend::lookup_error(-25300, "a/b", "x") {
        LeashError::NotFound(m) => assert_eq!(m, "Secret 'a/b' not found in Keychain"),
        _ => panic!(),
    }
    match KeychainBackend::lookup_error(-25308, "a/b", "x") {
        LeashError::Backend(m) => assert_eq!(m, "Keychain is locked or interaction is required"),
        _ => panic!(),
    }
    match KeychainBackend::lookup_error(-1, "a/b", "boom") {
        LeashError::Backend(m) => assert_eq!(m, "Keychain error: boom"),
        _ => panic!(),
    }
    assert!(KeychainBackend::locked_from(Some(-25308)));
    assert!(!KeychainBackend::locked_from(Some(-25300)));
    assert!(!KeychainBackend::locked_from(None));
    assert_eq!(KeychainBackend::service(), "leash-ai");
}

#[test]
fn task_lifecycle_values() {
    assert_eq!(task_ttl(0), 60);
    assert_eq!(task_ttl(3600), 3600);
    assert_eq!(task_ttl(1_000_000), 86400);
    assert_eq!(task_scope_path("/tmp", 1), "/tmp/task-00000000-0000-0000-0000-000000000001");
    let now = Timestamp { secs: 1000, nanos: 3 };
    let task = new_task(1, "test".to_string(), "/tmp", 3600, now).unwrap();
    assert_eq!(task.status, TaskStatus::Active);
    assert_eq!(task.expires_at, Timestamp { secs: 4600, nanos: 3 });
    let (bin, scope) = task_environment(Some(&task)).unwrap();
    assert!(bin.ends_with("/bin"));
    assert!(bin.contains("00000000-0000-0000-0000-000000000001"));
    assert_eq!(scope, task.scope_path);
    match task_environment(None) {
        Err(Refusal::FailedPrecondition(m)) => assert_eq!(m, "Task not found or inactive"),
        _ => panic!(),
    }
    let mut ended = task;
    ended.status = TaskStatus::Completed;
    match task_environment(Some(&ended)) {
        Err(Refusal::FailedPrecondition(m)) => assert!(m.contains("no longer active")),
        _ => panic!(),
    }
}

#[test]
fn config_for_home() {
    let c = OpenLeashConfig::for_home("/home/a");
    assert_eq!(c.storage.database_url, "sqlite:///home/a/.openleash/leash.db");
    assert_eq!(c.storage.policies_path.as_deref(), Some("/home/a/.openleash/policies.yaml"));
    assert_eq!(c.server.uds_path, "/tmp/openleash.sock");
    assert!(!c.backends.telegram.enabled);
    assert_eq!(c.node_bootstrap_config().version, "20.18.0");
}
