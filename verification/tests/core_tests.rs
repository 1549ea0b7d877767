use openleash::config::OpenLeashConfig;
use openleash::models::{ApprovalScope, Decision, Policy, ResourceType};
use openleash::policy::PolicyEngine;
use openleash::sandbox::{NetworkMode, SandboxLevel, SandboxProfileGenerator};

fn policy(
    id: &str,
    name: &str,
    resource_type: ResourceType,
    priority: i32,
    patterns: &[&str],
    max_ttl_seconds: u64,
    auto_approve: bool,
    default_scope: ApprovalScope,
) -> Policy {
    Policy {
        id: id.to_string(),
        name: name.to_string(),
        description: None,
        resource_type,
        priority,
        allowed_patterns: patterns.iter().map(|p| p.to_string()).collect(),
        max_ttl_seconds,
        auto_approve,
        default_scope,
    }
}

#[test]
fn test_default_config() {
    let config = OpenLeashConfig::default();
    assert_eq!(config.server.tcp_port, 50051);
    assert!(config.backends.pip.enabled);
    assert!(config.backends.npm.enabled);
    assert_eq!(config.node_bootstrap.version, "20.18.0");
    assert!(config.node_bootstrap.dist_base_url.is_none());
}

#[test]
fn test_policy_evaluation_priority() {
    let policies = vec![
        policy("deny-banned", "Deny Banned", ResourceType::Package, 100, &["banned-pkg"], 3600, false, ApprovalScope::Once),
        policy("allow-all", "Allow All", ResourceType::Package, 0, &[".*"], 3600, true, ApprovalScope::Once),
    ];
    let engine = PolicyEngine::new(policies);
    assert_eq!(engine.evaluate(ResourceType::Package, "banned-pkg"), Decision::PendingApproval(ApprovalScope::Once));
}

#[test]
fn test_approval_scope_inheritance() {
    let policies = vec![policy(
        "task-scope-policy",
        "Task Scope",
        ResourceType::Command,
        10,
        &[".*"],
        0,
        false,
        ApprovalScope::Task,
    )];
    let engine = PolicyEngine::new(policies);
    assert_eq!(engine.evaluate(ResourceType::Command, "some-cmd"), Decision::PendingApproval(ApprovalScope::Task));
}

#[test]
fn test_policy_evaluation_matching() {
    let policies = vec![policy(
        "allow-all-pkgs",
        "Allow All",
        ResourceType::Package,
        0,
        &[".*"],
        3600,
        true,
        ApprovalScope::Once,
    )];
    let engine = PolicyEngine::new(policies);
    assert_eq!(engine.evaluate(ResourceType::Package, "any-pkg"), Decision::Allow);
    assert_eq!(
        engine.evaluate(ResourceType::Secret, "any-secret"),
        Decision::Deny("No matching policy found".to_string())
    );
}

#[test]
fn test_command_policy_regex() {
    let policies = vec![policy("allow-ls", "Allow LS", ResourceType::Command, 10, &["^ls$"], 0, true, ApprovalScope::Once)];
    let engine = PolicyEngine::new(policies);
    assert_eq!(engine.evaluate(ResourceType::Command, "ls"), Decision::Allow);
    assert_eq!(
        engine.evaluate(ResourceType::Command, "ls -la"),
        Decision::Deny("No matching policy found".to_string())
    );
}

#[test]
fn test_sandbox_profile_generation() {
    let home = "/Users/test";
    let project = "/Users/test/projects/leash";
    let gen = SandboxProfileGenerator::new(SandboxLevel::Restrictive, NetworkMode::Closed, home, project);
    let profile = gen.generate();
    assert!(profile.contains(&format!("(allow file-read* (subpath \"{}\"))", project)));
    assert!(profile.contains(&format!("(allow file-read* (subpath \"{}/.leash\"))", home)));
    assert!(profile.contains("(deny network-outbound)"));
    assert!(profile.contains("(allow network-outbound (literal \"localhost\") (literal \"127.0.0.1\"))"));
}

#[test]
fn test_sandbox_feature_activation() {
    let mut config = OpenLeashConfig::default();
    config.backends.brew.enabled = true;
    let gen = SandboxProfileGenerator::new(SandboxLevel::Permissive, NetworkMode::Open, "/home", "/proj").with_config(&config);
    let profile = gen.generate();
    assert!(profile.contains(";; Feature: Homebrew"));
    assert!(profile.contains("(allow file-read* (subpath \"/opt/homebrew\"))"));
}

#[test]
fn equal_priorities_keep_given_order() {
    let policies = vec![
        policy("low", "Low", ResourceType::Package, 1, &[".*"], 0, true, ApprovalScope::Once),
        policy("first", "First", ResourceType::Package, 5, &["^a"], 0, false, ApprovalScope::Task),
        policy("second", "Second", ResourceType::Package, 5, &["^a"], 0, false, ApprovalScope::Permanent),
        policy("bad", "Bad", ResourceType::Package, 9, &["("], 0, true, ApprovalScope::Once),
    ];
    let engine = PolicyEngine::new(policies);
    assert_eq!(engine.evaluate(ResourceType::Package, "abc"), Decision::PendingApproval(ApprovalScope::Task));
    assert_eq!(engine.evaluate(ResourceType::Package, "xyz"), Decision::Allow);
}

#[test]
fn profile_sections_follow_the_enabled_features() {
    let mut config = OpenLeashConfig::default();
    let base = |c: &OpenLeashConfig| {
        SandboxProfileGenerator::new(SandboxLevel::Restrictive, NetworkMode::Closed, "/home", "/proj")
            .with_config(c)
            .generate()
    };
    let all = base(&config);
    assert!(all.contains(";; Feature: Python/Pip") && all.contains(";; Feature: Homebrew") && all.contains(";; Feature: macOS Keychain"));
    config.backends.npm.enabled = false;
    assert_eq!(base(&config), all);
    config.backends.pip.enabled = false;
    config.backends.keychain.enabled = false;
    let some = base(&config);
    assert!(!some.contains(";; Feature: Python/Pip"));
    assert!(some.contains(";; Feature: Homebrew"));
    assert!(!some.contains(";; Feature: macOS Keychain"));
}
