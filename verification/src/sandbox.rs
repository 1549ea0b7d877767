//! macOS sandbox profiles (Seatbelt language) for agent processes.
use vstd::prelude::*;
use crate::config::OpenLeashConfig;
use crate::text::{contains_text, lemma_contains_middle};

verus! {

/// How much of the filesystem an agent may read.
#[derive(Debug, Clone, Copy, PartialEq, Eq, Structural)]
pub enum SandboxLevel {
    Permissive,
    Restrictive,
}

/// Whether an agent may use the network.
#[derive(Debug, Clone, Copy, PartialEq, Eq, Structural)]
pub enum NetworkMode {
    Open,
    Closed,
}

/// The backends whose tools the profile opens up.
#[derive(Debug, Clone, Copy, PartialEq, Eq, Structural)]
pub struct SandboxFeatures {
    pub pip: bool,
    pub npm: bool,
    pub brew: bool,
    pub keychain: bool,
}

/// Builds a sandbox profile for an agent.
pub struct SandboxProfileGenerator {
    level: SandboxLevel,
    network: NetworkMode,
    features: SandboxFeatures,
    home_dir: String,
    project_dir: String,
}

/// The opening of every profile: everything is denied unless allowed below.
pub open spec fn profile_header() -> Seq<char> {
    ";; OpenLeash Agent Sandbox Profile\n(version 1)\n(deny default)\n\n"@
}

/// The system libraries and metadata that every profile may read.
pub open spec fn profile_core() -> Seq<char> {
    ";; Basic system libraries and metadata\n"@
        + "(allow file-read* (subpath \"/usr/lib\") (subpath \"/usr/share\") (subpath \"/System/Library\"))\n"@
        + "(allow file-read-metadata (subpath \"/\"))\n"@
}

/// What the profile may read, by level.
pub open spec fn profile_reads(level: SandboxLevel, home: Seq<char>, project: Seq<char>) -> Seq<char> {
    match level {
        SandboxLevel::Permissive => ";; Permissive: Allow reading most of the filesystem\n"@
            + "(allow file-read* (subpath \"/\"))\n"@
            + "(deny file-read* (subpath \"/Users/shared\") (subpath \"/var/db\"))\n"@,
        SandboxLevel::Restrictive => ";; Restrictive: Only allow reading project and Leash config\n"@
            + "(allow file-read* (subpath \""@ + project + "\"))\n"@ + "(allow file-read* (subpath \""@
            + home + "/.leash\"))\n"@,
    }
}

/// What the profile says of the network.
pub open spec fn profile_network(network: NetworkMode) -> Seq<char> {
    match network {
        NetworkMode::Open => "\n;; Network: Allowed\n(allow network-outbound)\n(allow network-inbound)\n"@,
        NetworkMode::Closed => "\n;; Network: Blocked\n(deny network-outbound)\n(deny network-inbound)\n"@
            + "(allow network-outbound (literal \"localhost\") (literal \"127.0.0.1\"))\n"@,
    }
}

/// The daemon's socket and task scopes, which every profile may use.
pub open spec fn profile_infrastructure() -> Seq<char> {
    "\n;; Leash Infrastructure\n"@ + "(allow file-read* file-write* (literal \"/tmp/openleash.sock\"))\n"@
        + "(allow file-read* file-write* (subpath \"/tmp/openleash-tasks\"))\n"@
        + "(allow process-exec (subpath \"/tmp/openleash-tasks\"))\n"@
        + "(allow file-write* (subpath \"/dev/stdout\") (subpath \"/dev/stderr\") (subpath \"/dev/tty\"))\n"@
}

/// The Python section.
pub open spec fn profile_pip() -> Seq<char> {
    "\n;; Feature: Python/Pip\n"@ + "(allow process-exec (literal \"/usr/bin/python3\"))\n"@
        + "(allow file-read* (subpath \"/Library/Developer/CommandLineTools/usr/bin\"))\n"@
}

/// The Homebrew section.
pub open spec fn profile_brew() -> Seq<char> {
    "\n;; Feature: Homebrew\n"@ + "(allow file-read* (subpath \"/opt/homebrew\"))\n"@
        + "(allow process-exec (subpath \"/opt/homebrew\"))\n"@
}

/// The Keychain section.
pub open spec fn profile_keychain() -> Seq<char> {
    "\n;; Feature: macOS Keychain (IPC to securityd)\n"@
        + "(allow mach-lookup (global-name \"com.apple.securityd\"))\n"@
        + "(allow mach-lookup (global-name \"com.apple.SecurityServer\"))\n"@
}

/// `text` where `on` holds, nothing otherwise.
pub open spec fn when(on: bool, text: Seq<char>) -> Seq<char> {
    if on {
        text
    } else {
        Seq::empty()
    }
}

/// The whole profile.
pub open spec fn profile_text(
    level: SandboxLevel,
    network: NetworkMode,
    features: SandboxFeatures,
    home: Seq<char>,
    project: Seq<char>,
) -> Seq<char> {
    profile_header() + profile_core() + profile_reads(level, home, project) + profile_network(network)
        + profile_infrastructure() + when(features.pip, profile_pip()) + when(features.brew, profile_brew())
        + when(features.keychain, profile_keychain())
}

impl SandboxProfileGenerator {
    /// A generator for the given level and network mode, with no backend
    /// opened up.
    pub fn new(level: SandboxLevel, network: NetworkMode, home_dir: &str, project_dir: &str) -> (r: Self)
        ensures
            r.level() == level,
            r.network() == network,
            r.features() == (SandboxFeatures { pip: false, npm: false, brew: false, keychain: false }),
            r.home_dir() == home_dir@,
            r.project_dir() == project_dir@,
    {
        SandboxProfileGenerator {
            level,
            network,
            features: SandboxFeatures { pip: false, npm: false, brew: false, keychain: false },
            home_dir: String::from_str(home_dir),
            project_dir: String::from_str(project_dir),
        }
    }

    /// The level.
    pub closed spec fn level(&self) -> SandboxLevel {
        self.level
    }

    /// The network mode.
    pub closed spec fn network(&self) -> NetworkMode {
        self.network
    }

    /// The backends opened up.
    pub closed spec fn features(&self) -> SandboxFeatures {
        self.features
    }

    /// The home directory.
    pub closed spec fn home_dir(&self) -> Seq<char> {
        self.home_dir@
    }

    /// The project directory.
    pub closed spec fn project_dir(&self) -> Seq<char> {
        self.project_dir@
    }

    /// The generator with the enabled backends of `config` opened up as well
    /// (pip, npm, brew and the keychain; Telegram needs nothing).
    pub fn with_config(self, config: &OpenLeashConfig) -> (r: Self)
        ensures
            r.level() == self.level(),
            r.network() == self.network(),
            r.home_dir() == self.home_dir(),
            r.project_dir() == self.project_dir(),
            r.features() == (SandboxFeatures {
                pip: self.features().pip || config.backends.pip.enabled,
                npm: self.features().npm || config.backends.npm.enabled,
                brew: self.features().brew || config.backends.brew.enabled,
                keychain: self.features().keychain || config.backends.keychain.enabled,
            }),
    {
        let mut g = self;
        if config.backends.pip.enabled {
            g.features.pip = true;
        }
        if config.backends.npm.enabled {
            g.features.npm = true;
        }
        if config.backends.brew.enabled {
            g.features.brew = true;
        }
        if config.backends.keychain.enabled {
            g.features.keychain = true;
        }
        g
    }

    /// The profile text: the deny-by-default header, the system basics, the
    /// reads of the level, the network rules, the daemon's socket and task
    /// scopes, then a section for each opened backend (pip, brew, keychain).
    pub fn generate(&self) -> (r: String)
        ensures
            r@ == profile_text(self.level(), self.network(), self.features(), self.home_dir(), self.project_dir()),
            r@.subrange(0, profile_header().len() as int) == profile_header(),
    {
        let mut sb = String::from_str(";; OpenLeash Agent Sandbox Profile\n(version 1)\n(deny default)\n\n");
        let ghost h = sb@;
        push_core(&mut sb);
        push_reads(&mut sb, self.level, self.home_dir.as_str(), self.project_dir.as_str());
        push_network(&mut sb, self.network);
        push_infrastructure(&mut sb);
        push_pip(&mut sb, self.features.pip);
        push_brew(&mut sb, self.features.brew);
        push_keychain(&mut sb, self.features.keychain);
        proof {
            let rest = profile_core() + profile_reads(self.level, self.home_dir@, self.project_dir@)
                + profile_network(self.network) + profile_infrastructure() + when(
                self.features.pip,
                profile_pip(),
            ) + when(self.features.brew, profile_brew()) + when(self.features.keychain, profile_keychain());
            assert(sb@ =~= h + rest);
            assert(sb@.subrange(0, h.len() as int) =~= h);
        }
        sb
    }
}

fn push_core(sb: &mut String)
    ensures
        final(sb)@ == old(sb)@ + profile_core(),
{
    sb.append(";; Basic system libraries and metadata\n");
    sb.append("(allow file-read* (subpath \"/usr/lib\") (subpath \"/usr/share\") (subpath \"/System/Library\"))\n");
    sb.append("(allow file-read-metadata (subpath \"/\"))\n");
}

fn push_reads(sb: &mut String, level: SandboxLevel, home: &str, project: &str)
    ensures
        final(sb)@ == old(sb)@ + profile_reads(level, home@, project@),
{
    match level {
        SandboxLevel::Permissive => {
            sb.append(";; Permissive: Allow reading most of the filesystem\n");
            sb.append("(allow file-read* (subpath \"/\"))\n");
            sb.append("(deny file-read* (subpath \"/Users/shared\") (subpath \"/var/db\"))\n");
        },
        SandboxLevel::Restrictive => {
            sb.append(";; Restrictive: Only allow reading project and Leash config\n");
            sb.append("(allow file-read* (subpath \"");
            sb.append(project);
            sb.append("\"))\n");
            sb.append("(allow file-read* (subpath \"");
            sb.append(home);
            sb.append("/.leash\"))\n");
        },
    }
}

fn push_network(sb: &mut String, network: NetworkMode)
    ensures
        final(sb)@ == old(sb)@ + profile_network(network),
{
    match network {
        NetworkMode::Open => {
            sb.append("\n;; Network: Allowed\n(allow network-outbound)\n(allow network-inbound)\n");
        },
        NetworkMode::Closed => {
            sb.append("\n;; Network: Blocked\n(deny network-outbound)\n(deny network-inbound)\n");
            sb.append("(allow network-outbound (literal \"localhost\") (literal \"127.0.0.1\"))\n");
        },
    }
}

fn push_infrastructure(sb: &mut String)
    ensures
        final(sb)@ == old(sb)@ + profile_infrastructure(),
{
    sb.append("\n;; Leash Infrastructure\n");
    sb.append("(allow file-read* file-write* (literal \"/tmp/openleash.sock\"))\n");
    sb.append("(allow file-read* file-write* (subpath \"/tmp/openleash-tasks\"))\n");
    sb.append("(allow process-exec (subpath \"/tmp/openleash-tasks\"))\n");
    sb.append("(allow file-write* (subpath \"/dev/stdout\") (subpath \"/dev/stderr\") (subpath \"/dev/tty\"))\n");
}

fn push_pip(sb: &mut String, on: bool)
    ensures
        final(sb)@ == old(sb)@ + when(on, profile_pip()),
{
    if on {
        sb.append("\n;; Feature: Python/Pip\n");
        sb.append("(allow process-exec (literal \"/usr/bin/python3\"))\n");
        sb.append("(allow file-read* (subpath \"/Library/Developer/CommandLineTools/usr/bin\"))\n");
    } else {
        assert(old(sb)@ + when(on, profile_pip()) =~= old(sb)@);
    }
}

fn push_brew(sb: &mut String, on: bool)
    ensures
        final(sb)@ == old(sb)@ + when(on, profile_brew()),
{
    if on {
        sb.append("\n;; Feature: Homebrew\n");
        sb.append("(allow file-read* (subpath \"/opt/homebrew\"))\n");
        sb.append("(allow process-exec (subpath \"/opt/homebrew\"))\n");
    } else {
        assert(old(sb)@ + when(on, profile_brew()) =~= old(sb)@);
    }
}

fn push_keychain(sb: &mut String, on: bool)
    ensures
        final(sb)@ == old(sb)@ + when(on, profile_keychain()),
{
    if on {
        sb.append("\n;; Feature: macOS Keychain (IPC to securityd)\n");
        sb.append("(allow mach-lookup (global-name \"com.apple.securityd\"))\n");
        sb.append("(allow mach-lookup (global-name \"com.apple.SecurityServer\"))\n");
    } else {
        assert(old(sb)@ + when(on, profile_keychain()) =~= old(sb)@);
    }
}

/// The part of a profile that every feature set shares: header, system
/// libraries, reads, network and the daemon's infrastructure.
pub open spec fn profile_base(level: SandboxLevel, network: NetworkMode, home: Seq<char>, project: Seq<char>) -> Seq<char> {
    profile_header() + profile_core() + profile_reads(level, home, project) + profile_network(network)
        + profile_infrastructure()
}

/// A profile ends with the sections of exactly the enabled features, in the
/// order pip, Homebrew, Keychain, each opening with its marker line
/// (";; Feature: Python/Pip", ";; Feature: Homebrew", ";; Feature: macOS
/// Keychain …"); npm has no section, so switching it changes nothing.
pub proof fn lemma_profile_sections(
    level: SandboxLevel,
    network: NetworkMode,
    f: SandboxFeatures,
    g: SandboxFeatures,
    home: Seq<char>,
    project: Seq<char>,
)
    ensures
        profile_text(level, network, f, home, project) == profile_base(level, network, home, project) + when(
            f.pip,
            profile_pip(),
        ) + when(f.brew, profile_brew()) + when(f.keychain, profile_keychain()),
        profile_pip().subrange(0, 24) == "\n;; Feature: Python/Pip\n"@,
        profile_brew().subrange(0, 22) == "\n;; Feature: Homebrew\n"@,
        profile_keychain().subrange(0, 27) == "\n;; Feature: macOS Keychain"@,
        (f.pip == g.pip && f.brew == g.brew && f.keychain == g.keychain) ==> profile_text(
            level,
            network,
            f,
            home,
            project,
        ) == profile_text(level, network, g, home, project),
{
    reveal_strlit("\n;; Feature: Python/Pip\n");
    reveal_strlit("\n;; Feature: Homebrew\n");
    reveal_strlit("\n;; Feature: macOS Keychain (IPC to securityd)\n");
    reveal_strlit("\n;; Feature: macOS Keychain");
    assert(profile_pip().subrange(0, 24) =~= "\n;; Feature: Python/Pip\n"@);
    assert(profile_brew().subrange(0, 22) =~= "\n;; Feature: Homebrew\n"@);
    assert(profile_keychain().subrange(0, 27) =~= "\n;; Feature: macOS Keychain"@);
}

proof fn lemma_regroup(
    x: Seq<char>,
    n1: Seq<char>,
    n2: Seq<char>,
    n3: Seq<char>,
    i: Seq<char>,
    p: Seq<char>,
    b: Seq<char>,
    k: Seq<char>,
)
    ensures
        x + (n1 + n2 + n3) + i + p + b + k == (x + n1) + n2 + (n3 + i + p + b + k),
        x + (n1 + n2) + i + p + b + k == (x + n1) + n2 + (Seq::<char>::empty() + i + p + b + k),
{
    assert(x + (n1 + n2 + n3) + i + p + b + k =~= (x + n1) + n2 + (n3 + i + p + b + k));
    assert(x + (n1 + n2) + i + p + b + k =~= (x + n1) + n2 + (Seq::<char>::empty() + i + p + b + k));
}

proof fn lemma_network_sections()
    ensures
        profile_network(NetworkMode::Open) == "\n"@ + ";; Network: Allowed\n(allow network-outbound)\n(allow network-inbound)\n"@,
        profile_network(NetworkMode::Closed) == "\n"@ + ";; Network: Blocked\n(deny network-outbound)\n(deny network-inbound)\n"@
            + "(allow network-outbound (literal \"localhost\") (literal \"127.0.0.1\"))\n"@,
{
    reveal_strlit("\n;; Network: Allowed\n(allow network-outbound)\n(allow network-inbound)\n");
    reveal_strlit(";; Network: Allowed\n(allow network-outbound)\n(allow network-inbound)\n");
    reveal_strlit("\n;; Network: Blocked\n(deny network-outbound)\n(deny network-inbound)\n");
    reveal_strlit(";; Network: Blocked\n(deny network-outbound)\n(deny network-inbound)\n");
    reveal_strlit("\n");
    assert(profile_network(NetworkMode::Open) =~= "\n"@ + ";; Network: Allowed\n(allow network-outbound)\n(allow network-inbound)\n"@);
    assert("\n;; Network: Blocked\n(deny network-outbound)\n(deny network-inbound)\n"@ =~= "\n"@
        + ";; Network: Blocked\n(deny network-outbound)\n(deny network-inbound)\n"@);
}

/// An open network is allowed and a closed one denied: whatever the level,
/// features and directories, a profile for `NetworkMode::Open` allows
/// outbound and inbound traffic under ";; Network: Allowed", and one for
/// `NetworkMode::Closed` denies both under ";; Network: Blocked", letting
/// only localhost out.
pub proof fn lemma_network_mode_is_honoured(
    level: SandboxLevel,
    features: SandboxFeatures,
    home: Seq<char>,
    project: Seq<char>,
)
    ensures
        contains_text(
            profile_text(level, NetworkMode::Open, features, home, project),
            ";; Network: Allowed\n(allow network-outbound)\n(allow network-inbound)\n"@,
        ),
        contains_text(
            profile_text(level, NetworkMode::Closed, features, home, project),
            ";; Network: Blocked\n(deny network-outbound)\n(deny network-inbound)\n"@,
        ),
        contains_text(
            profile_text(level, NetworkMode::Closed, features, home, project),
            "(allow network-outbound (literal \"localhost\") (literal \"127.0.0.1\"))\n"@,
        ),
{
    lemma_network_sections();
    let pre = profile_header() + profile_core() + profile_reads(level, home, project);
    let i = profile_infrastructure();
    let p = when(features.pip, profile_pip());
    let b = when(features.brew, profile_brew());
    let k = when(features.keychain, profile_keychain());
    let nl = "\n"@;
    let open = ";; Network: Allowed\n(allow network-outbound)\n(allow network-inbound)\n"@;
    let closed = ";; Network: Blocked\n(deny network-outbound)\n(deny network-inbound)\n"@;
    let local = "(allow network-outbound (literal \"localhost\") (literal \"127.0.0.1\"))\n"@;
    lemma_regroup(pre, nl, open, Seq::empty(), i, p, b, k);
    lemma_contains_middle(pre + nl, open, Seq::empty() + i + p + b + k);
    lemma_regroup(pre, nl + closed, local, Seq::empty(), i, p, b, k);
    lemma_contains_middle(pre + (nl + closed), local, Seq::empty() + i + p + b + k);
    lemma_regroup(pre, nl, closed, local, i, p, b, k);
    lemma_contains_middle(pre + nl, closed, local + i + p + b + k);
}

} // verus!
