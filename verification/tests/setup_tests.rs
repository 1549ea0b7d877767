use openleash::cli::{answers_yes, configure_telegram};
use openleash::config::OpenLeashConfig;
use openleash::service::{service_file, service_kind, service_path, ServiceKind};

#[test]
fn service_kind_by_system() {
    assert_eq!(service_kind("macos"), Some(ServiceKind::LaunchAgent));
    assert_eq!(service_kind("linux"), Some(ServiceKind::SystemdUser));
    assert_eq!(service_kind("windows"), None);
    assert_eq!(service_kind("Linux"), None);
}

#[test]
fn systemd_unit_runs_daemon_with_config() {
    let unit = service_file(ServiceKind::SystemdUser, "/usr/bin/leashd", "/h/.leash/config.yaml", "/h/.leash");
    let expected = "[Unit]\nDescription=Leash AI Daemon\nAfter=network.target\n\n[Service]\n\
ExecStart=/usr/bin/leashd --config /h/.leash/config.yaml\nRestart=always\nRestartSec=5\n\
StandardOutput=file:/h/.leash/leashd.out.log\nStandardError=file:/h/.leash/leashd.err.log\n\n\
[Install]\nWantedBy=default.target\n";
    assert_eq!(unit, expected);
}

#[test]
fn launch_agent_names_daemon_config_and_logs() {
    let plist = service_file(ServiceKind::LaunchAgent, "/bin/leashd", "/h/c.yaml", "/h/.leash");
    assert!(plist.starts_with("<?xml version=\"1.0\" encoding=\"UTF-8\"?>\n"));
    assert!(plist.contains("<string>io.leash-ai.leashd</string>"));
    assert!(plist.contains(
        "<array>\n        <string>/bin/leashd</string>\n        <string>--config</string>\n        <string>/h/c.yaml</string>\n    </array>"
    ));
    assert!(plist.contains("<string>/h/.leash/leashd.out.log</string>"));
    assert!(plist.contains("<string>/h/.leash/leashd.err.log</string>"));
    assert!(plist.ends_with("</dict>\n</plist>\n"));
}

#[test]
fn service_files_go_under_home() {
    assert_eq!(
        service_path(ServiceKind::LaunchAgent, "/Users/a"),
        "/Users/a/Library/LaunchAgents/io.leash-ai.leashd.plist"
    );
    assert_eq!(service_path(ServiceKind::SystemdUser, "/home/a"), "/home/a/.config/systemd/user/leashd.service");
}

#[test]
fn yes_answers() {
    assert!(answers_yes("y\n"));
    assert!(answers_yes("  Y "));
    assert!(!answers_yes("yes"));
    assert!(!answers_yes("\n"));
    assert!(!answers_yes("n"));
}

#[test]
fn telegram_configured_only_with_numeric_chat() {
    let mut config = OpenLeashConfig::for_home("/h");
    assert!(!configure_telegram(&mut config, "tok\n", "abc\n"));
    assert!(!config.backends.telegram.enabled);
    assert!(config.telegram.is_none());

    assert!(configure_telegram(&mut config, " tok\n", " -42\n"));
    assert!(config.backends.telegram.enabled);
    let tg = config.telegram.as_ref().unwrap();
    assert_eq!(tg.token, "tok");
    assert_eq!(tg.chat_id, -42);
    assert!(config.backends.pip.enabled);
    assert_eq!(config.server.tcp_port, 50051);
}
