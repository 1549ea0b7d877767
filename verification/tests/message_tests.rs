use openleash::cli::{init_policies, parse_i64, profile_named, sandbox_templates, secret_binding, Args};
use openleash::client::{environment_reply, package_reply, secret_reply, server_address, socket_path, store_reply};
use openleash::codec::{
    lease_status_from_stored, manager_from_stored, override_scope, resource_type_from_stored,
    scope_from_stored, task_status_from_stored,
};
use openleash::config::{OpenLeashConfig, TelegramConfig};
use openleash::daemon::get_default_policies;
use openleash::error::LeashError;
use openleash::flow::{
    install_scope, package_executed, package_manager_named, package_pending, request_identity,
    request_metadata, secret_outcome, store_outcome, task_reference, unlock_step, Refusal, UnlockStep,
};
use openleash::models::{
    ApprovalRequest, ApprovalScope, LeaseStatus, PackageManager, ResourceType, TaskStatus, Timestamp,
};
use openleash::policy::PolicyEngine;
use openleash::sandbox::{NetworkMode, SandboxLevel};
use openleash::telegram::{is_unlock_request, parse_callback, TelegramApprovalBackend};

fn approval(resource_type: ResourceType, resource_id: &str) -> ApprovalRequest {
    ApprovalRequest {
        id: 0xabcdef,
        request_id: 2,
        task_id: None,
        resource_type,
        resource_id: resource_id.to_string(),
        reason: "a <b> & c".to_string(),
        status: "Pending".to_string(),
        scope: ApprovalScope::Once,
        created_at: Timestamp { secs: 0, nanos: 0 },
        expires_at: Timestamp { secs: 45296, nanos: 0 },
    }
}

#[test]
fn stored_labels_read_back() {
    for rt in [ResourceType::Secret, ResourceType::Package, ResourceType::Command, ResourceType::System] {
        assert_eq!(resource_type_from_stored(&rt.label()), rt);
        assert_eq!(rt.label(), format!("{:?}", rt));
    }
    assert_eq!(resource_type_from_stored("SECRET"), ResourceType::Secret);
    assert_eq!(resource_type_from_stored("widget"), ResourceType::Package);
    for s in [ApprovalScope::Once, ApprovalScope::Task, ApprovalScope::Permanent] {
        assert_eq!(scope_from_stored(&s.label()), s);
    }
    assert_eq!(scope_from_stored("task"), ApprovalScope::Once);
    for s in [TaskStatus::Active, TaskStatus::Completed, TaskStatus::Expired] {
        assert_eq!(task_status_from_stored(&s.label()), s);
    }
    for s in [LeaseStatus::Active, LeaseStatus::Expired, LeaseStatus::Revoked] {
        assert_eq!(lease_status_from_stored(&s.label()), s);
    }
    for m in [PackageManager::Pip, PackageManager::Npm, PackageManager::Brew] {
        assert_eq!(manager_from_stored(&m.label()), m);
    }
    assert_eq!(manager_from_stored("Cargo"), PackageManager::Pip);
}

#[test]
fn approver_scope_choice() {
    assert_eq!(override_scope(Some("PERMANENT")), Some(ApprovalScope::Permanent));
    assert_eq!(override_scope(Some("Task")), Some(ApprovalScope::Task));
    assert_eq!(override_scope(Some("once")), Some(ApprovalScope::Once));
    assert_eq!(override_scope(Some("forever")), None);
    assert_eq!(override_scope(None), None);
}

#[test]
fn telegram_message_and_buttons() {
    let req = approval(ResourceType::Secret, "db/<pw>");
    let m = TelegramApprovalBackend::approval_message(&req).unwrap();
    assert_eq!(
        m,
        "\u{1F511} <b>Secret Request</b>\n\n<b>Resource</b>: <code>db/&lt;pw&gt;</code>\n<b>Rationale</b>: <i>a &lt;b&gt; &amp; c</i>\n<b>Expires</b>: 12:34:56 UTC"
    );
    let (approve, deny) = TelegramApprovalBackend::button_data(0xabcdef);
    assert_eq!(approve, "approve:00000000-0000-0000-0000-000000abcdef");
    assert_eq!(parse_callback(&approve), Some(("Approved".to_string(), 0xabcdef)));
    assert_eq!(parse_callback(&deny), Some(("Denied".to_string(), 0xabcdef)));
    assert_eq!(parse_callback("approve:not-a-uuid"), None);
    assert_eq!(parse_callback("maybe:00000000-0000-0000-0000-000000abcdef"), None);
    assert_eq!(parse_callback("approve:a:b"), None);
    assert_eq!(TelegramApprovalBackend::escape_html("<&>"), "&lt;&amp;&gt;");
    let unlock = approval(ResourceType::System, "keychain-unlock");
    assert!(is_unlock_request(&unlock));
    assert_eq!(TelegramApprovalBackend::card(ResourceType::System, "keychain-unlock").1, "Keychain Unlock Request");
    assert_eq!(TelegramApprovalBackend::card(ResourceType::System, "other").1, "System Request");
    let backend = TelegramApprovalBackend::new("bot-token".to_string(), 42);
    assert_eq!(backend.chat(), 42);
}

#[test]
fn request_flow_values() {
    assert_eq!(package_manager_named("brew").unwrap(), PackageManager::Brew);
    match package_manager_named("cargo") {
        Err(Refusal::InvalidArgument(m)) => assert_eq!(m, "Unsupported package manager"),
        _ => panic!(),
    }
    assert_eq!(task_reference(Some("00000000-0000-0000-0000-000000000007")), Some(7));
    assert_eq!(task_reference(Some("nope")), None);
    assert_eq!(request_identity("nope", 99), 99);
    assert_eq!(install_scope(None, "/tmp").unwrap(), "/tmp");
    match install_scope(Some(None), "/tmp") {
        Err(Refusal::FailedPrecondition(m)) => assert_eq!(m, "Task not found or inactive"),
        _ => panic!(),
    }
    let p = package_pending("r1".to_string());
    assert_eq!(p.status, "PENDING_APPROVAL");
    assert_eq!(p.error_message, "Request is pending human approval");
    let e = package_executed("r1".to_string(), 1);
    assert_eq!((e.status.as_str(), e.lease_id.as_str()), ("EXECUTED", "00000000-0000-0000-0000-000000000001"));
    let s = secret_outcome("r".to_string(), Err("no such".to_string()), 5);
    assert_eq!((s.status.as_str(), s.error_message.as_str(), s.lease_id.as_str()), ("DENIED", "no such", ""));
    let s = secret_outcome("r".to_string(), Ok("v".to_string()), 5);
    assert_eq!((s.status.as_str(), s.value.as_str()), ("GRANTED", "v"));
    assert!(store_outcome("r".to_string(), Ok(())).success);
    let md = request_metadata(vec![("reason".to_string(), "x".to_string())], Some("t".to_string()));
    assert_eq!(md[1], ("task_id".to_string(), "t".to_string()));
    let mut found = approval(ResourceType::System, "keychain-unlock");
    assert!(matches!(unlock_step(None), UnlockStep::RequestUnlock));
    assert!(matches!(unlock_step(Some(&found)), UnlockStep::Locked(_)));
    found.status = "Approved".to_string();
    assert!(matches!(unlock_step(Some(&found)), UnlockStep::Unlock));
    found.status = "Denied".to_string();
    assert!(matches!(unlock_step(Some(&found)), UnlockStep::Refuse(Refusal::PermissionDenied(_))));
}

#[test]
fn client_reading_replies() {
    assert_eq!(package_reply("AUTO_APPROVED", "l".to_string(), String::new()).unwrap(), "l");
    assert!(matches!(package_reply("PENDING_APPROVAL", String::new(), "wait".to_string()), Err(LeashError::Backend(_))));
    assert!(matches!(secret_reply("LOCKED", String::new(), "x".to_string()), Err(LeashError::PermissionDenied(_))));
    assert!(store_reply(true, String::new()).is_ok());
    assert!(environment_reply("b".to_string(), "s".to_string(), "gone".to_string()).is_err());
    assert_eq!(server_address(None, None), "unix:///tmp/openleash.sock");
    assert_eq!(server_address(None, Some("http://x".to_string())), "http://x");
    assert_eq!(socket_path("unix:///tmp/openleash.sock"), Some("/tmp/openleash.sock".to_string()));
    assert_eq!(socket_path("unix:///a/unix://b"), Some("/a/b".to_string()));
    assert_eq!(socket_path("http://127.0.0.1:12345"), None);
}

#[test]
fn command_line_parsing() {
    assert_eq!(secret_binding("API_KEY=openai/api-key").unwrap(), ("API_KEY".to_string(), "openai/api-key".to_string()));
    assert_eq!(secret_binding("A=b=c").unwrap(), ("A".to_string(), "b=c".to_string()));
    assert_eq!(secret_binding("oops").unwrap_err(), "Invalid secret format: oops. Use VAR=secret_id");
    assert_eq!(profile_named("restrictive-closed"), Some((SandboxLevel::Restrictive, NetworkMode::Closed)));
    assert_eq!(profile_named("other"), None);
    assert_eq!(sandbox_templates().len(), 4);
    assert_eq!(parse_i64("-42"), Some(-42));
    assert_eq!(parse_i64("+7"), Some(7));
    assert_eq!(parse_i64("9223372036854775807"), Some(i64::MAX));
    assert_eq!(parse_i64("-9223372036854775808"), Some(i64::MIN));
    assert_eq!(parse_i64("9223372036854775808"), None);
    assert_eq!(parse_i64("12a"), None);
    assert_eq!(parse_i64("-"), None);
    assert_eq!(parse_i64(""), None);
    for s in ["0", "-0", "00012", "123456789"] {
        assert_eq!(parse_i64(s), s.parse::<i64>().ok());
    }
}

#[test]
fn daemon_arguments_override_the_file() {
    let mut config = OpenLeashConfig::default();
    config.telegram = Some(TelegramConfig { token: "file-token".to_string(), chat_id: 5 });
    let args = Args {
        config: None,
        port: Some(9000),
        host: None,
        socket: Some("/tmp/custom.sock".to_string()),
        database_url: None,
        policies: Some("/etc/p.yaml".to_string()),
        telegram_token: None,
        telegram_chat_id: Some("not a number".to_string()),
    };
    args.apply_to(&mut config);
    assert_eq!(config.server.tcp_port, 9000);
    assert_eq!(config.server.uds_path, "/tmp/custom.sock");
    assert_eq!(config.server.tcp_host, "127.0.0.1");
    assert_eq!(config.storage.policies_path.as_deref(), Some("/etc/p.yaml"));
    assert_eq!(args.telegram_settings(&config), (Some("file-token".to_string()), Some(5)));
}

#[test]
fn init_and_default_policies() {
    let p = init_policies(true);
    assert_eq!(p.len(), 4);
    assert_eq!(p[2].id, "telegram-approval-for-secrets");
    let engine = PolicyEngine::new(init_policies(false));
    assert_eq!(engine.evaluate(ResourceType::Package, "numpy"), openleash::models::Decision::Allow);
    assert_eq!(
        engine.evaluate(ResourceType::Package, "leftpad"),
        openleash::models::Decision::PendingApproval(ApprovalScope::Once)
    );
    assert_eq!(engine.evaluate(ResourceType::Command, "ls"), openleash::models::Decision::Allow);
    let d = get_default_policies();
    assert_eq!(d.len(), 2);
    let engine = PolicyEngine::new(d);
    assert_eq!(engine.evaluate(ResourceType::Secret, "anything"), openleash::models::Decision::Allow);
}
