//! Installing the daemon as a per-user background service: a macOS
//! LaunchAgent or a systemd user unit that runs `leashd --config <file>` and
//! writes its logs into the Leash directory.
use vstd::prelude::*;
use crate::text::{contains_text, lemma_contains_middle, same_text};

verus! {

/// The service managers that `leash install` knows.
#[derive(Debug, Clone, Copy, PartialEq, Eq, Structural)]
pub enum ServiceKind {
    LaunchAgent,
    SystemdUser,
}

/// The service manager for an operating system name as `std::env::consts::OS`
/// gives it: "macos" and "linux" have one, every other system has none.
pub open spec fn service_kind_of(os: Seq<char>) -> Option<ServiceKind> {
    if os == "macos"@ {
        Some(ServiceKind::LaunchAgent)
    } else if os == "linux"@ {
        Some(ServiceKind::SystemdUser)
    } else {
        None
    }
}

/// The service manager for the operating system `os`, `None` where manual
/// installation is needed.
pub fn service_kind(os: &str) -> (r: Option<ServiceKind>)
    ensures
        r == service_kind_of(os@),
{
    proof {
        reveal_strlit("macos");
        reveal_strlit("linux");
    }
    if same_text(os, "macos") {
        Some(ServiceKind::LaunchAgent)
    } else if same_text(os, "linux") {
        Some(ServiceKind::SystemdUser)
    } else {
        None
    }
}

/// The property list of the LaunchAgent that keeps `daemon` running with the
/// configuration file `config`, logging into `log_dir`.
pub open spec fn plist_text(daemon: Seq<char>, config: Seq<char>, log_dir: Seq<char>) -> Seq<char> {
    "<?xml version=\"1.0\" encoding=\"UTF-8\"?>\n"@
        + "<!DOCTYPE plist PUBLIC \"-//Apple//DTD PLIST 1.0//EN\" \"http://www.apple.com/DTDs/PropertyList-1.0.dtd\">\n"@
        + "<plist version=\"1.0\">\n<dict>\n    <key>Label</key>\n    <string>io.leash-ai.leashd</string>\n"@
        + "    <key>ProgramArguments</key>\n    <array>\n        <string>"@ + daemon
        + "</string>\n        <string>--config</string>\n        <string>"@ + config
        + "</string>\n    </array>\n    <key>RunAtLoad</key>\n    <true/>\n    <key>KeepAlive</key>\n    <true/>\n"@
        + "    <key>StandardOutPath</key>\n    <string>"@ + log_dir
        + "/leashd.out.log</string>\n    <key>StandardErrorPath</key>\n    <string>"@ + log_dir
        + "/leashd.err.log</string>\n</dict>\n</plist>\n"@
}

/// The systemd user unit that keeps `daemon` running with the configuration
/// file `config`, logging into `log_dir`.
pub open spec fn unit_text(daemon: Seq<char>, config: Seq<char>, log_dir: Seq<char>) -> Seq<char> {
    "[Unit]\nDescription=Leash AI Daemon\nAfter=network.target\n\n[Service]\nExecStart="@ + daemon
        + " --config "@ + config + "\nRestart=always\nRestartSec=5\nStandardOutput=file:"@ + log_dir
        + "/leashd.out.log\nStandardError=file:"@ + log_dir
        + "/leashd.err.log\n\n[Install]\nWantedBy=default.target\n"@
}

/// The LaunchAgent property list for `daemon`, `config` and `log_dir`.
pub fn launch_agent_plist(daemon: &str, config: &str, log_dir: &str) -> (r: String)
    ensures
        r@ == plist_text(daemon@, config@, log_dir@),
{
    let mut s = String::from_str("<?xml version=\"1.0\" encoding=\"UTF-8\"?>\n");
    s.append(
        "<!DOCTYPE plist PUBLIC \"-//Apple//DTD PLIST 1.0//EN\" \"http://www.apple.com/DTDs/PropertyList-1.0.dtd\">\n",
    );
    s.append("<plist version=\"1.0\">\n<dict>\n    <key>Label</key>\n    <string>io.leash-ai.leashd</string>\n");
    s.append("    <key>ProgramArguments</key>\n    <array>\n        <string>");
    s.append(daemon);
    s.append("</string>\n        <string>--config</string>\n        <string>");
    s.append(config);
    s.append(
        "</string>\n    </array>\n    <key>RunAtLoad</key>\n    <true/>\n    <key>KeepAlive</key>\n    <true/>\n",
    );
    s.append("    <key>StandardOutPath</key>\n    <string>");
    s.append(log_dir);
    s.append("/leashd.out.log</string>\n    <key>StandardErrorPath</key>\n    <string>");
    s.append(log_dir);
    s.append("/leashd.err.log</string>\n</dict>\n</plist>\n");
    s
}

/// The systemd user unit for `daemon`, `config` and `log_dir`.
pub fn systemd_unit(daemon: &str, config: &str, log_dir: &str) -> (r: String)
    ensures
        r@ == unit_text(daemon@, config@, log_dir@),
{
    let mut s = String::from_str(
        "[Unit]\nDescription=Leash AI Daemon\nAfter=network.target\n\n[Service]\nExecStart=",
    );
    s.append(daemon);
    s.append(" --config ");
    s.append(config);
    s.append("\nRestart=always\nRestartSec=5\nStandardOutput=file:");
    s.append(log_dir);
    s.append("/leashd.out.log\nStandardError=file:");
    s.append(log_dir);
    s.append("/leashd.err.log\n\n[Install]\nWantedBy=default.target\n");
    s
}

/// The service file for `kind`.
pub fn service_file(kind: ServiceKind, daemon: &str, config: &str, log_dir: &str) -> (r: String)
    ensures
        r@ == match kind {
            ServiceKind::LaunchAgent => plist_text(daemon@, config@, log_dir@),
            ServiceKind::SystemdUser => unit_text(daemon@, config@, log_dir@),
        },
{
    match kind {
        ServiceKind::LaunchAgent => launch_agent_plist(daemon, config, log_dir),
        ServiceKind::SystemdUser => systemd_unit(daemon, config, log_dir),
    }
}

/// Where the service file goes, below the user's home directory.
pub open spec fn service_path_of(kind: ServiceKind, home: Seq<char>) -> Seq<char> {
    match kind {
        ServiceKind::LaunchAgent => home + "/Library/LaunchAgents/io.leash-ai.leashd.plist"@,
        ServiceKind::SystemdUser => home + "/.config/systemd/user/leashd.service"@,
    }
}

/// Where the service file for `kind` goes, below `home`.
pub fn service_path(kind: ServiceKind, home: &str) -> (r: String)
    ensures
        r@ == service_path_of(kind, home@),
{
    let mut s = String::from_str(home);
    match kind {
        ServiceKind::LaunchAgent => s.append("/Library/LaunchAgents/io.leash-ai.leashd.plist"),
        ServiceKind::SystemdUser => s.append("/.config/systemd/user/leashd.service"),
    }
    s
}

proof fn lemma_split_three(
    x: Seq<char>,
    a: Seq<char>,
    w: Seq<char>,
    b: Seq<char>,
    r1: Seq<char>,
    r2: Seq<char>,
    r3: Seq<char>,
    r4: Seq<char>,
    r5: Seq<char>,
)
    ensures
        x + (a + w + b) + r1 + r2 + r3 + r4 + r5 == (x + a) + w + (b + r1 + r2 + r3 + r4 + r5),
{
    assert(x + (a + w + b) + r1 + r2 + r3 + r4 + r5 =~= (x + a) + w + (b + r1 + r2 + r3 + r4 + r5));
}

proof fn lemma_run_keys()
    ensures
        "</string>\n    </array>\n    <key>RunAtLoad</key>\n    <true/>\n    <key>KeepAlive</key>\n    <true/>\n"@
            == "</string>\n    </array>\n    "@ + "<key>RunAtLoad</key>\n    <true/>"@ + ("\n    "@
            + "<key>KeepAlive</key>\n    <true/>"@ + "\n"@),
        "</string>\n    </array>\n    <key>RunAtLoad</key>\n    <true/>\n    <key>KeepAlive</key>\n    <true/>\n"@
            == ("</string>\n    </array>\n    "@ + "<key>RunAtLoad</key>\n    <true/>"@ + "\n    "@)
            + "<key>KeepAlive</key>\n    <true/>"@ + "\n"@,
{
    reveal_strlit("</string>\n    </array>\n    <key>RunAtLoad</key>\n    <true/>\n    <key>KeepAlive</key>\n    <true/>\n");
    reveal_strlit("</string>\n    </array>\n    ");
    reveal_strlit("<key>RunAtLoad</key>\n    <true/>");
    reveal_strlit("\n    ");
    reveal_strlit("<key>KeepAlive</key>\n    <true/>");
    reveal_strlit("\n");
    assert("</string>\n    </array>\n    <key>RunAtLoad</key>\n    <true/>\n    <key>KeepAlive</key>\n    <true/>\n"@
        =~= "</string>\n    </array>\n    "@ + "<key>RunAtLoad</key>\n    <true/>"@ + ("\n    "@
        + "<key>KeepAlive</key>\n    <true/>"@ + "\n"@));
    assert("</string>\n    </array>\n    <key>RunAtLoad</key>\n    <true/>\n    <key>KeepAlive</key>\n    <true/>\n"@
        =~= ("</string>\n    </array>\n    "@ + "<key>RunAtLoad</key>\n    <true/>"@ + "\n    "@)
        + "<key>KeepAlive</key>\n    <true/>"@ + "\n"@);
}

/// The LaunchAgent starts the daemon at login and keeps it running, with
/// the given configuration: whatever the paths, its property list sets
/// `RunAtLoad` and `KeepAlive` to true, and its program arguments are the
/// daemon, `--config` and the configuration file.
pub proof fn lemma_launch_agent_runs_the_daemon(daemon: Seq<char>, config: Seq<char>, log_dir: Seq<char>)
    ensures
        contains_text(plist_text(daemon, config, log_dir), "<key>RunAtLoad</key>\n    <true/>"@),
        contains_text(plist_text(daemon, config, log_dir), "<key>KeepAlive</key>\n    <true/>"@),
        contains_text(
            plist_text(daemon, config, log_dir),
            "<string>"@ + daemon + "</string>\n        <string>--config</string>\n        <string>"@ + config
                + "</string>"@,
        ),
{
    let l1 = "<?xml version=\"1.0\" encoding=\"UTF-8\"?>\n"@;
    let l2 = "<!DOCTYPE plist PUBLIC \"-//Apple//DTD PLIST 1.0//EN\" \"http://www.apple.com/DTDs/PropertyList-1.0.dtd\">\n"@;
    let l3 = "<plist version=\"1.0\">\n<dict>\n    <key>Label</key>\n    <string>io.leash-ai.leashd</string>\n"@;
    let l4 = "    <key>ProgramArguments</key>\n    <array>\n        <string>"@;
    let l5 = "</string>\n        <string>--config</string>\n        <string>"@;
    let l6 = "</string>\n    </array>\n    <key>RunAtLoad</key>\n    <true/>\n    <key>KeepAlive</key>\n    <true/>\n"@;
    let l7 = "    <key>StandardOutPath</key>\n    <string>"@;
    let l8 = "/leashd.out.log</string>\n    <key>StandardErrorPath</key>\n    <string>"@;
    let l9 = "/leashd.err.log</string>\n</dict>\n</plist>\n"@;
    let x = l1 + l2 + l3 + l4 + daemon + l5 + config;
    let a = "</string>\n    </array>\n    "@;
    let w1 = "<key>RunAtLoad</key>\n    <true/>"@;
    let w2 = "<key>KeepAlive</key>\n    <true/>"@;
    let sp = "\n    "@;
    let nl = "\n"@;
    lemma_run_keys();
    assert(plist_text(daemon, config, log_dir) == x + l6 + l7 + log_dir + l8 + log_dir + l9);
    lemma_split_three(x, a, w1, sp + w2 + nl, l7, log_dir, l8, log_dir, l9);
    lemma_contains_middle(x + a, w1, (sp + w2 + nl) + l7 + log_dir + l8 + log_dir + l9);
    lemma_split_three(x, a + w1 + sp, w2, nl, l7, log_dir, l8, log_dir, l9);
    lemma_contains_middle(x + (a + w1 + sp), w2, nl + l7 + log_dir + l8 + log_dir + l9);
    lemma_program_arguments(daemon, config, log_dir);
}

proof fn lemma_program_arguments(daemon: Seq<char>, config: Seq<char>, log_dir: Seq<char>)
    ensures
        contains_text(
            plist_text(daemon, config, log_dir),
            "<string>"@ + daemon + "</string>\n        <string>--config</string>\n        <string>"@ + config
                + "</string>"@,
        ),
{
    let l1 = "<?xml version=\"1.0\" encoding=\"UTF-8\"?>\n"@;
    let l2 = "<!DOCTYPE plist PUBLIC \"-//Apple//DTD PLIST 1.0//EN\" \"http://www.apple.com/DTDs/PropertyList-1.0.dtd\">\n"@;
    let l3 = "<plist version=\"1.0\">\n<dict>\n    <key>Label</key>\n    <string>io.leash-ai.leashd</string>\n"@;
    let l4 = "    <key>ProgramArguments</key>\n    <array>\n        <string>"@;
    let l5 = "</string>\n        <string>--config</string>\n        <string>"@;
    let l6 = "</string>\n    </array>\n    <key>RunAtLoad</key>\n    <true/>\n    <key>KeepAlive</key>\n    <true/>\n"@;
    let rest = "\n    </array>\n    <key>RunAtLoad</key>\n    <true/>\n    <key>KeepAlive</key>\n    <true/>\n"@;
    let l7 = "    <key>StandardOutPath</key>\n    <string>"@;
    let l8 = "/leashd.out.log</string>\n    <key>StandardErrorPath</key>\n    <string>"@;
    let l9 = "/leashd.err.log</string>\n</dict>\n</plist>\n"@;
    let head = "    <key>ProgramArguments</key>\n    <array>\n        "@;
    let open_tag = "<string>"@;
    let close = "</string>"@;
    reveal_strlit("    <key>ProgramArguments</key>\n    <array>\n        <string>");
    reveal_strlit("    <key>ProgramArguments</key>\n    <array>\n        ");
    reveal_strlit("<string>");
    reveal_strlit("</string>\n    </array>\n    <key>RunAtLoad</key>\n    <true/>\n    <key>KeepAlive</key>\n    <true/>\n");
    reveal_strlit("</string>");
    reveal_strlit("\n    </array>\n    <key>RunAtLoad</key>\n    <true/>\n    <key>KeepAlive</key>\n    <true/>\n");
    assert(l4 =~= head + open_tag);
    assert(l6 =~= close + rest);
    let w = open_tag + daemon + l5 + config + close;
    let pre = l1 + l2 + l3 + head;
    let post = rest + l7 + log_dir + l8 + log_dir + l9;
    assert(plist_text(daemon, config, log_dir) =~= pre + w + post);
    lemma_contains_middle(pre, w, post);
}

/// The systemd unit runs the daemon with the configuration and restarts it
/// always: whatever the paths, it holds `ExecStart=<daemon> --config
/// <config>` followed by `Restart=always`.
pub proof fn lemma_unit_runs_the_daemon(daemon: Seq<char>, config: Seq<char>, log_dir: Seq<char>)
    ensures
        contains_text(
            unit_text(daemon, config, log_dir),
            "ExecStart="@ + daemon + " --config "@ + config + "\nRestart=always\n"@,
        ),
{
    let u1 = "[Unit]\nDescription=Leash AI Daemon\nAfter=network.target\n\n[Service]\nExecStart="@;
    let pre = "[Unit]\nDescription=Leash AI Daemon\nAfter=network.target\n\n[Service]\n"@;
    let ex = "ExecStart="@;
    let u2 = " --config "@;
    let u3 = "\nRestart=always\nRestartSec=5\nStandardOutput=file:"@;
    let ra = "\nRestart=always\n"@;
    let u3rest = "RestartSec=5\nStandardOutput=file:"@;
    let u4 = "/leashd.out.log\nStandardError=file:"@;
    let u5 = "/leashd.err.log\n\n[Install]\nWantedBy=default.target\n"@;
    reveal_strlit("[Unit]\nDescription=Leash AI Daemon\nAfter=network.target\n\n[Service]\nExecStart=");
    reveal_strlit("[Unit]\nDescription=Leash AI Daemon\nAfter=network.target\n\n[Service]\n");
    reveal_strlit("ExecStart=");
    reveal_strlit("\nRestart=always\nRestartSec=5\nStandardOutput=file:");
    reveal_strlit("\nRestart=always\n");
    reveal_strlit("RestartSec=5\nStandardOutput=file:");
    assert(u1 =~= pre + ex);
    assert(u3 =~= ra + u3rest);
    let w = ex + daemon + u2 + config + ra;
    let post = u3rest + log_dir + u4 + log_dir + u5;
    assert(unit_text(daemon, config, log_dir) =~= pre + w + post);
    lemma_contains_middle(pre, w, post);
}

} // verus!
