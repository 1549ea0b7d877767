//! Installing a package into a task scope, and removing a scope, as a state
//! machine over the file system and the commands it runs: the scope's venv
//! is created where missing, a portable Homebrew or Node.js is bootstrapped
//! where the manager needs one, and the manager runs with the scope's
//! activation environment.
use vstd::prelude::*;
use crate::backends::{versioned, versioned_spec};
use crate::cli::{texts, texts_of};
use crate::config::NodeBootstrapConfig;
use crate::error::{LeashError, LeashErrorView};
use crate::models::PackageManager;
use crate::text::{join2, pairs_view, trim_text};
use crate::venv::{
    activation_pairs, bin_dir_of, brew_dir_of, node_dir_of, node_mirror, node_platform, node_tarball,
    path_join, NodeDownload, VenvManager,
};

verus! {

/// A command to run: the program, its arguments, and the variables it gets on
/// top of the daemon's environment.
#[derive(Debug)]
pub struct CommandLine {
    pub program: String,
    pub args: Vec<String>,
    pub env: Vec<(String, String)>,
}

/// How a command that ran ended: whether it succeeded, and its exit status as
/// the system writes it.
#[derive(Debug)]
pub struct ExitReport {
    pub success: bool,
    pub status: String,
}

/// What a provisioning session is for.
#[derive(Debug, Clone, Copy, PartialEq, Eq, Structural)]
pub enum Goal {
    /// Install the package with the session's manager.
    Install,
    /// Remove the scope.
    Remove,
}

/// Where a provisioning session stands: what it waits for.
#[derive(Debug)]
pub enum ProvisionPhase {
    Received,
    /// Whether the scope exists (for its venv).
    VenvCheck,
    /// `python3 -m venv`.
    VenvCreate,
    /// Whether the portable Homebrew exists.
    BrewCheck,
    /// Its directory's creation.
    BrewMkdir,
    /// The Homebrew clone.
    BrewClone,
    /// Whether the portable Node.js directory exists.
    NodeDirCheck,
    /// Whether its npm exists.
    NpmCheck,
    /// The Node.js directory's creation, for this download.
    NodeMkdir(NodeDownload),
    /// The download.
    Downloading(NodeDownload),
    /// The removal of a failed download.
    DiscardFailedDownload,
    /// The extraction.
    Extracting(NodeDownload),
    /// The removal of the archive after an extraction that succeeded or not.
    DiscardArchive(bool),
    /// Whether npm is there after the extraction.
    NpmExtractedCheck,
    /// Whether the portable Node.js executables exist (for the environment).
    EnvNode,
    /// Whether the portable Homebrew executables exist.
    EnvBrew(bool),
    /// The daemon's `PATH`.
    EnvPath(bool, bool),
    /// The package manager's run.
    Installing,
    /// Whether the scope exists (for its removal).
    RemoveCheck,
    /// The scope's removal.
    Removing,
    Finished,
}

/// What the last action brought back.
#[derive(Debug)]
pub enum ProvisionEvent {
    Begin,
    /// Whether the path asked about exists.
    Exists(bool),
    /// How the command ended, or why it could not be started.
    Ran(Result<ExitReport, String>),
    /// The outcome of a file system change.
    Done(Result<(), String>),
    /// The daemon's `PATH` (empty where it has none).
    PathValue(String),
}

/// What to do next.
#[derive(Debug)]
pub enum ProvisionAction {
    CheckExists(String),
    MakeDir(String),
    Run(CommandLine),
    RemoveFile(String),
    RemoveDir(String),
    ReadPath,
    /// The session's outcome.
    Finish(Result<(), LeashError>),
}

/// Provisioning of one scope.
#[derive(Debug)]
pub struct ProvisionSession {
    pub goal: Goal,
    pub manager: PackageManager,
    /// The package argument of the install command.
    pub spec: String,
    /// The scope's root.
    pub root: String,
    pub node: NodeBootstrapConfig,
    /// The operating system and architecture, as `std::env::consts` names them.
    pub os: String,
    pub arch: String,
    pub phase: ProvisionPhase,
}

/// What separates a package from its version for a manager.
pub open spec fn separator_of(m: PackageManager) -> Seq<char> {
    match m {
        PackageManager::Pip => "=="@,
        _ => "@"@,
    }
}

/// `c` runs `program` with `args` and `env`.
pub open spec fn command_is(
    c: CommandLine,
    program: Seq<char>,
    args: Seq<Seq<char>>,
    env: Seq<(Seq<char>, Seq<char>)>,
) -> bool {
    &&& c.program@ == program
    &&& texts(c.args@) == args
    &&& pairs_view(c.env@) == env
}

/// The program a manager installs with, in the scope rooted at `root`.
pub open spec fn installer_of(m: PackageManager, root: Seq<char>) -> Seq<char> {
    match m {
        PackageManager::Pip => path_join(bin_dir_of(root), "pip"@),
        PackageManager::Npm => path_join(path_join(node_dir_of(root), "bin"@), "npm"@),
        PackageManager::Brew => path_join(path_join(brew_dir_of(root), "bin"@), "brew"@),
    }
}

/// The arguments a manager installs `spec` with.
pub open spec fn install_args(m: PackageManager, spec: Seq<char>) -> Seq<Seq<char>> {
    match m {
        PackageManager::Npm => seq!["install"@, "-g"@, spec],
        _ => seq!["install"@, spec],
    }
}

/// The error for a manager that could not be started.
pub open spec fn start_failure(m: PackageManager) -> Seq<char> {
    match m {
        PackageManager::Pip => "Failed to run pip: "@,
        PackageManager::Npm => "Failed to run npm: "@,
        PackageManager::Brew => "Failed to run local brew: "@,
    }
}

/// The error for a manager that failed.
pub open spec fn exit_failure(m: PackageManager) -> Seq<char> {
    match m {
        PackageManager::Pip => "pip install exited with status: "@,
        PackageManager::Npm => "npm install exited with status: "@,
        PackageManager::Brew => "Local brew install exited with status: "@,
    }
}

/// `p` in double quotes, escaped as `{:?}` escapes a path's characters:
/// `"` and `\` by a backslash, NUL, tab, carriage return and line feed as
/// `\0`, `\t`, `\r`, `\n`.
pub open spec fn quoted(p: Seq<char>) -> Seq<char> {
    "\""@ + escaped_quotes(p) + "\""@
}

/// How one character is written in a quoted path.
pub open spec fn escaped_char(c: char) -> Seq<char> {
    if c == '"' || c == '\\' {
        seq!['\\', c]
    } else if c == '\0' {
        seq!['\\', '0']
    } else if c == '\t' {
        seq!['\\', 't']
    } else if c == '\r' {
        seq!['\\', 'r']
    } else if c == '\n' {
        seq!['\\', 'n']
    } else {
        seq![c]
    }
}

/// `p` with each character written as [`escaped_char`] says.
pub open spec fn escaped_quotes(p: Seq<char>) -> Seq<char>
    decreases p.len(),
{
    if p.len() == 0 {
        Seq::empty()
    } else {
        escaped_quotes(p.drop_last()) + escaped_char(p.last())
    }
}

/// The session keeps what it was given.
pub open spec fn keeps_setup(s: ProvisionSession, t: ProvisionSession) -> bool {
    &&& t.goal == s.goal
    &&& t.manager == s.manager
    &&& t.spec == s.spec
    &&& t.root == s.root
    &&& t.node == s.node
    &&& t.os == s.os
    &&& t.arch == s.arch
}

/// The session ends with this error.
pub open spec fn fails_with(t: ProvisionSession, a: ProvisionAction, e: LeashErrorView) -> bool {
    &&& t.phase is Finished
    &&& a matches ProvisionAction::Finish(Err(f)) && f@ == e
}

/// The session ends well.
pub open spec fn succeeds(t: ProvisionSession, a: ProvisionAction) -> bool {
    &&& t.phase is Finished
    &&& a matches ProvisionAction::Finish(Ok(()))
}

/// The session asks whether `path` exists, in phase `p`.
pub open spec fn asks_exists(t: ProvisionSession, a: ProvisionAction, path: Seq<char>) -> bool {
    a matches ProvisionAction::CheckExists(q) && q@ == path
}

/// `d` is the download of the configured Node.js for platform `p`.
pub open spec fn download_is(d: NodeDownload, s: ProvisionSession, p: (Seq<char>, Seq<char>)) -> bool {
    let version = trim_text(s.node.version@);
    let tarball = node_tarball(version, p.0, p.1);
    &&& d.tarball_name@ == tarball
    &&& d.url@ == node_mirror(s.node) + "/v"@ + version + "/"@ + tarball
    &&& d.archive_path@ == path_join(node_dir_of(s.root@), tarball)
}

/// What follows the venv: pip runs at once; npm needs its portable Node.js
/// and brew its portable Homebrew.
pub open spec fn after_venv(s: ProvisionSession, t: ProvisionSession, a: ProvisionAction) -> bool {
    &&& keeps_setup(s, t)
    &&& match s.manager {
        PackageManager::Pip => t.phase is Installing && (a matches ProvisionAction::Run(c) && command_is(
            c,
            installer_of(PackageManager::Pip, s.root@),
            install_args(PackageManager::Pip, s.spec@),
            Seq::empty(),
        )),
        PackageManager::Npm => t.phase is NodeDirCheck && asks_exists(t, a, node_dir_of(s.root@)),
        PackageManager::Brew => t.phase is BrewCheck && asks_exists(t, a, brew_dir_of(s.root@)),
    }
}

/// The activation environment is gathered next, beginning with whether the
/// portable Node.js executables exist.
pub open spec fn to_environment(s: ProvisionSession, t: ProvisionSession, a: ProvisionAction) -> bool {
    &&& keeps_setup(s, t)
    &&& t.phase is EnvNode
    &&& asks_exists(t, a, path_join(node_dir_of(s.root@), "bin"@))
}

/// Node.js is to be downloaded: its directory is made, for the platform's
/// tarball, or the platform's refusal ends the session.
pub open spec fn to_download(s: ProvisionSession, t: ProvisionSession, a: ProvisionAction) -> bool {
    match node_platform(s.os@, s.arch@) {
        Err(e) => fails_with(t, a, e),
        Ok(p) => {
            &&& keeps_setup(s, t)
            &&& t.phase matches ProvisionPhase::NodeMkdir(d) && download_is(d, s, p)
            &&& a matches ProvisionAction::MakeDir(n) && n@ == node_dir_of(s.root@)
        },
    }
}

/// The event a session waits for in its phase.
pub open spec fn provision_accepts(s: ProvisionSession, e: ProvisionEvent) -> bool {
    match s.phase {
        ProvisionPhase::Received => e is Begin,
        ProvisionPhase::VenvCheck | ProvisionPhase::BrewCheck | ProvisionPhase::NodeDirCheck
        | ProvisionPhase::NpmCheck | ProvisionPhase::NpmExtractedCheck | ProvisionPhase::EnvNode
        | ProvisionPhase::EnvBrew(_) | ProvisionPhase::RemoveCheck => e is Exists,
        ProvisionPhase::VenvCreate | ProvisionPhase::BrewClone | ProvisionPhase::Downloading(_)
        | ProvisionPhase::Extracting(_) | ProvisionPhase::Installing => e is Ran,
        ProvisionPhase::BrewMkdir | ProvisionPhase::NodeMkdir(_) | ProvisionPhase::DiscardFailedDownload
        | ProvisionPhase::DiscardArchive(_) | ProvisionPhase::Removing => e is Done,
        ProvisionPhase::EnvPath(_, _) => e is PathValue,
        ProvisionPhase::Finished => false,
    }
}

/// One step of provisioning, from `s` on `e` to `t` and `a`.
pub open spec fn provision_steps_to(s: ProvisionSession, e: ProvisionEvent, t: ProvisionSession, a: ProvisionAction) -> bool {
    let root = s.root@;
    match s.phase {
        ProvisionPhase::Received => keeps_setup(s, t) && asks_exists(t, a, root) && match s.goal {
            Goal::Install => t.phase is VenvCheck,
            Goal::Remove => t.phase is RemoveCheck,
        },
        ProvisionPhase::VenvCheck => match e {
            ProvisionEvent::Exists(true) => after_venv(s, t, a),
            ProvisionEvent::Exists(false) => {
                &&& keeps_setup(s, t)
                &&& t.phase is VenvCreate
                &&& a matches ProvisionAction::Run(c) && command_is(
                    c,
                    "python3"@,
                    seq!["-m"@, "venv"@, root],
                    Seq::empty(),
                )
            },
            _ => true,
        },
        ProvisionPhase::VenvCreate => match e {
            ProvisionEvent::Ran(Err(m)) => fails_with(t, a, LeashErrorView::Backend("Failed to create venv: "@ + m@)),
            ProvisionEvent::Ran(Ok(r)) => if r.success {
                after_venv(s, t, a)
            } else {
                fails_with(t, a, LeashErrorView::Backend("python3 -m venv failed with status "@ + r.status@))
            },
            _ => true,
        },
        ProvisionPhase::BrewCheck => match e {
            ProvisionEvent::Exists(true) => to_environment(s, t, a),
            ProvisionEvent::Exists(false) => {
                &&& keeps_setup(s, t)
                &&& t.phase is BrewMkdir
                &&& a matches ProvisionAction::MakeDir(d) && d@ == brew_dir_of(root)
            },
            _ => true,
        },
        ProvisionPhase::BrewMkdir => match e {
            ProvisionEvent::Done(Err(m)) => fails_with(t, a, LeashErrorView::Backend("Failed to create brew dir: "@ + m@)),
            ProvisionEvent::Done(Ok(())) => {
                &&& keeps_setup(s, t)
                &&& t.phase is BrewClone
                &&& a matches ProvisionAction::Run(c) && command_is(
                    c,
                    "git"@,
                    seq!["clone"@, "--depth=1"@, "https://github.com/Homebrew/brew"@, brew_dir_of(root)],
                    Seq::empty(),
                )
            },
            _ => true,
        },
        ProvisionPhase::BrewClone => match e {
            ProvisionEvent::Ran(Err(m)) => fails_with(t, a, LeashErrorView::Backend("Failed to clone Homebrew: "@ + m@)),
            ProvisionEvent::Ran(Ok(r)) => if r.success {
                to_environment(s, t, a)
            } else {
                fails_with(t, a, LeashErrorView::Backend("Homebrew clone failed with status "@ + r.status@))
            },
            _ => true,
        },
        ProvisionPhase::NodeDirCheck => match e {
            ProvisionEvent::Exists(true) => {
                &&& keeps_setup(s, t)
                &&& t.phase is NpmCheck
                &&& asks_exists(t, a, installer_of(PackageManager::Npm, root))
            },
            ProvisionEvent::Exists(false) => to_download(s, t, a),
            _ => true,
        },
        ProvisionPhase::NpmCheck => match e {
            ProvisionEvent::Exists(true) => to_environment(s, t, a),
            ProvisionEvent::Exists(false) => to_download(s, t, a),
            _ => true,
        },
        ProvisionPhase::NodeMkdir(d) => match e {
            ProvisionEvent::Done(Err(m)) => fails_with(t, a, LeashErrorView::Backend("Failed to create node dir: "@ + m@)),
            ProvisionEvent::Done(Ok(())) => {
                &&& keeps_setup(s, t)
                &&& t.phase == ProvisionPhase::Downloading(d)
                &&& a matches ProvisionAction::Run(c) && command_is(
                    c,
                    "curl"@,
                    seq!["-sL"@, "-o"@, d.archive_path@, d.url@],
                    Seq::empty(),
                )
            },
            _ => true,
        },
        ProvisionPhase::Downloading(d) => match e {
            ProvisionEvent::Ran(Err(m)) => fails_with(t, a, LeashErrorView::Backend("Failed to run curl: "@ + m@)),
            ProvisionEvent::Ran(Ok(r)) => if r.success {
                &&& keeps_setup(s, t)
                &&& t.phase == ProvisionPhase::Extracting(d)
                &&& a matches ProvisionAction::Run(c) && command_is(
                    c,
                    "tar"@,
                    seq!["-xzf"@, d.archive_path@, "-C"@, node_dir_of(root), "--strip-components=1"@],
                    Seq::empty(),
                )
            } else {
                &&& keeps_setup(s, t)
                &&& t.phase is DiscardFailedDownload
                &&& a matches ProvisionAction::RemoveFile(f) && f@ == d.archive_path@
            },
            _ => true,
        },
        ProvisionPhase::DiscardFailedDownload => fails_with(
            t,
            a,
            LeashErrorView::Backend("Failed to download Node.js tarball"@),
        ),
        ProvisionPhase::Extracting(d) => match e {
            ProvisionEvent::Ran(Err(m)) => fails_with(t, a, LeashErrorView::Backend("Failed to run tar: "@ + m@)),
            ProvisionEvent::Ran(Ok(r)) => {
                &&& keeps_setup(s, t)
                &&& t.phase == ProvisionPhase::DiscardArchive(r.success)
                &&& a matches ProvisionAction::RemoveFile(f) && f@ == d.archive_path@
            },
            _ => true,
        },
        ProvisionPhase::DiscardArchive(extracted) => if extracted {
            &&& keeps_setup(s, t)
            &&& t.phase is NpmExtractedCheck
            &&& asks_exists(t, a, installer_of(PackageManager::Npm, root))
        } else {
            fails_with(t, a, LeashErrorView::Backend("Failed to extract Node.js tarball"@))
        },
        ProvisionPhase::NpmExtractedCheck => match e {
            ProvisionEvent::Exists(true) => to_environment(s, t, a),
            ProvisionEvent::Exists(false) => fails_with(
                t,
                a,
                LeashErrorView::Backend(
                    "npm binary not found at "@ + quoted(installer_of(PackageManager::Npm, root)) + " after extract"@,
                ),
            ),
            _ => true,
        },
        ProvisionPhase::EnvNode => match e {
            ProvisionEvent::Exists(b) => {
                &&& keeps_setup(s, t)
                &&& t.phase == ProvisionPhase::EnvBrew(b)
                &&& asks_exists(t, a, path_join(brew_dir_of(root), "bin"@))
            },
            _ => true,
        },
        ProvisionPhase::EnvBrew(node_bin) => match e {
            ProvisionEvent::Exists(b) => keeps_setup(s, t) && t.phase == ProvisionPhase::EnvPath(node_bin, b)
                && a is ReadPath,
            _ => true,
        },
        ProvisionPhase::EnvPath(node_bin, brew_bin) => match e {
            ProvisionEvent::PathValue(p) => {
                &&& keeps_setup(s, t)
                &&& t.phase is Installing
                &&& a matches ProvisionAction::Run(c) && command_is(
                    c,
                    installer_of(s.manager, root),
                    install_args(s.manager, s.spec@),
                    activation_pairs(root, p@, node_bin, brew_bin),
                )
            },
            _ => true,
        },
        ProvisionPhase::Installing => match e {
            ProvisionEvent::Ran(Err(m)) => fails_with(t, a, LeashErrorView::Backend(start_failure(s.manager) + m@)),
            ProvisionEvent::Ran(Ok(r)) => if r.success {
                succeeds(t, a)
            } else {
                fails_with(t, a, LeashErrorView::Backend(exit_failure(s.manager) + r.status@))
            },
            _ => true,
        },
        ProvisionPhase::RemoveCheck => match e {
            ProvisionEvent::Exists(false) => succeeds(t, a),
            ProvisionEvent::Exists(true) => {
                &&& keeps_setup(s, t)
                &&& t.phase is Removing
                &&& a matches ProvisionAction::RemoveDir(d) && d@ == root
            },
            _ => true,
        },
        ProvisionPhase::Removing => match e {
            ProvisionEvent::Done(Err(m)) => fails_with(t, a, LeashErrorView::Backend("Failed to remove venv: "@ + m@)),
            ProvisionEvent::Done(Ok(())) => succeeds(t, a),
            _ => true,
        },
        ProvisionPhase::Finished => true,
    }
}

fn command(program: String, args: Vec<&str>, env: Vec<(String, String)>) -> (r: CommandLine)
    ensures
        r.program == program,
        texts(r.args@) == args@.map_values(|x: &str| x@),
        r.env == env,
{
    CommandLine { program, args: texts_of(args), env }
}

/// `p` quoted as [`quoted`] says.
fn quote(p: &str) -> (r: String)
    ensures
        r@ == quoted(p@),
{
    let n = p.unicode_len();
    let mut r = String::new();
    let mut i: usize = 0;
    while i < n
        invariant
            n == p@.len(),
            i <= n,
            r@ == escaped_quotes(p@.subrange(0, i as int)),
        decreases n - i,
    {
        let c = p.get_char(i);
        if c == '"' || c == '\\' {
            r.append("\\");
            r.append(p.substring_char(i, i + 1));
        } else if c == '\0' {
            r.append("\\0");
        } else if c == '\t' {
            r.append("\\t");
        } else if c == '\r' {
            r.append("\\r");
        } else if c == '\n' {
            r.append("\\n");
        } else {
            r.append(p.substring_char(i, i + 1));
        }
        proof {
            reveal_strlit("\\");
            reveal_strlit("\\0");
            reveal_strlit("\\t");
            reveal_strlit("\\r");
            reveal_strlit("\\n");
            assert(p@.subrange(0, i + 1).drop_last() =~= p@.subrange(0, i as int));
            assert(p@.subrange(i as int, i + 1) =~= seq![c]);
        }
        i = i + 1;
    }
    assert(p@.subrange(0, n as int) =~= p@);
    let mut q = String::from_str("\"");
    q.append(r.as_str());
    q.append("\"");
    q
}

fn fail(s: ProvisionSession, e: LeashError) -> (r: (ProvisionSession, ProvisionAction))
    ensures
        keeps_setup(s, r.0),
        fails_with(r.0, r.1, e@),
{
    let mut t = s;
    t.phase = ProvisionPhase::Finished;
    (t, ProvisionAction::Finish(Err(e)))
}

fn succeed(s: ProvisionSession) -> (r: (ProvisionSession, ProvisionAction))
    ensures
        keeps_setup(s, r.0),
        succeeds(r.0, r.1),
{
    let mut t = s;
    t.phase = ProvisionPhase::Finished;
    (t, ProvisionAction::Finish(Ok(())))
}

fn backend_error(prefix: &str, detail: &str) -> (r: LeashError)
    ensures
        r@ == LeashErrorView::Backend(prefix@ + detail@),
{
    LeashError::Backend(join2(prefix, detail))
}

fn installer(m: PackageManager, root: &str) -> (r: String)
    ensures
        r@ == installer_of(m, root@),
{
    let v = VenvManager::new(root);
    match m {
        PackageManager::Pip => {
            let b = v.bin_dir();
            crate::venv::join_path(b.as_str(), "pip")
        },
        PackageManager::Npm => v.npm_bin(),
        PackageManager::Brew => v.brew_bin(),
    }
}

fn after_venv_step(s: ProvisionSession) -> (r: (ProvisionSession, ProvisionAction))
    ensures
        after_venv(s, r.0, r.1),
{
    let mut t = s;
    match t.manager {
        PackageManager::Pip => {
            let program = installer(PackageManager::Pip, t.root.as_str());
            let c = command(program, vec!["install", t.spec.as_str()], Vec::new());
            assert(texts(c.args@) =~= install_args(PackageManager::Pip, t.spec@));
            assert(pairs_view(c.env@) =~= Seq::<(Seq<char>, Seq<char>)>::empty());
            t.phase = ProvisionPhase::Installing;
            (t, ProvisionAction::Run(c))
        },
        PackageManager::Npm => {
            let d = VenvManager::new(t.root.as_str()).node_dir();
            t.phase = ProvisionPhase::NodeDirCheck;
            (t, ProvisionAction::CheckExists(d))
        },
        PackageManager::Brew => {
            let d = VenvManager::new(t.root.as_str()).brew_dir();
            t.phase = ProvisionPhase::BrewCheck;
            (t, ProvisionAction::CheckExists(d))
        },
    }
}

fn environment_step(s: ProvisionSession) -> (r: (ProvisionSession, ProvisionAction))
    ensures
        to_environment(s, r.0, r.1),
{
    let mut t = s;
    let d = VenvManager::new(t.root.as_str()).node_bin_dir();
    t.phase = ProvisionPhase::EnvNode;
    (t, ProvisionAction::CheckExists(d))
}

fn download_step(s: ProvisionSession) -> (r: (ProvisionSession, ProvisionAction))
    ensures
        to_download(s, r.0, r.1),
{
    let v = VenvManager::new(s.root.as_str());
    match v.node_download(&s.node, s.os.as_str(), s.arch.as_str()) {
        Err(e) => fail(s, e),
        Ok(d) => {
            let mut t = s;
            let dir = v.node_dir();
            t.phase = ProvisionPhase::NodeMkdir(d);
            (t, ProvisionAction::MakeDir(dir))
        },
    }
}

impl ProvisionSession {
    /// A session that installs `package` (at `version`, where one is asked
    /// for) with `manager` into the scope rooted at `scope`, bootstrapping
    /// Node.js as `node` says on the platform `os`/`arch` where needed.
    pub fn install(
        manager: PackageManager,
        package: &str,
        version: Option<&str>,
        scope: &str,
        node: NodeBootstrapConfig,
        os: &str,
        arch: &str,
    ) -> (r: Self)
        ensures
            r.goal == Goal::Install,
            r.manager == manager,
            r.spec@ == versioned(
                package@,
                separator_of(manager),
                match version {
                    Some(v) => Some(v@),
                    None => None,
                },
            ),
            r.root@ == scope@,
            r.node == node,
            r.os@ == os@,
            r.arch@ == arch@,
            r.phase is Received,
    {
        let sep = match manager {
            PackageManager::Pip => "==",
            _ => "@",
        };
        ProvisionSession {
            goal: Goal::Install,
            manager,
            spec: versioned_spec(package, sep, version),
            root: String::from_str(scope),
            node,
            os: String::from_str(os),
            arch: String::from_str(arch),
            phase: ProvisionPhase::Received,
        }
    }

    /// A session that removes the scope rooted at `scope`.
    pub fn remove(scope: &str) -> (r: Self)
        ensures
            r.goal == Goal::Remove,
            r.root@ == scope@,
            r.phase is Received,
    {
        ProvisionSession {
            goal: Goal::Remove,
            manager: PackageManager::Pip,
            spec: String::new(),
            root: String::from_str(scope),
            node: NodeBootstrapConfig::default(),
            os: String::new(),
            arch: String::new(),
            phase: ProvisionPhase::Received,
        }
    }

    /// Whether the session has ended.
    pub fn is_finished(&self) -> (r: bool)
        ensures
            r == self.phase is Finished,
    {
        match self.phase {
            ProvisionPhase::Finished => true,
            _ => false,
        }
    }

    /// The next step: see [`provision_steps_to`].
    pub fn step(self, event: ProvisionEvent) -> (r: (ProvisionSession, ProvisionAction))
        requires
            provision_accepts(self, event),
        ensures
            provision_steps_to(self, event, r.0, r.1),
    {
        let ghost s0 = self;
        let mut s = self;
        let mut phase = ProvisionPhase::Finished;
        std::mem::swap(&mut phase, &mut s.phase);
        assert(keeps_setup(s0, s));
        match phase {
            ProvisionPhase::Received => {
                let root = s.root.clone();
                s.phase = match s.goal {
                    Goal::Install => ProvisionPhase::VenvCheck,
                    Goal::Remove => ProvisionPhase::RemoveCheck,
                };
                (s, ProvisionAction::CheckExists(root))
            },
            ProvisionPhase::VenvCheck => match event {
                ProvisionEvent::Exists(true) => after_venv_step(s),
                _ => {
                    let c = command(String::from_str("python3"), vec!["-m", "venv", s.root.as_str()], Vec::new());
                    proof {
                        reveal_strlit("-m");
                        reveal_strlit("venv");
                    }
                    assert(texts(c.args@) =~= seq!["-m"@, "venv"@, s.root@]);
                    assert(pairs_view(c.env@) =~= Seq::<(Seq<char>, Seq<char>)>::empty());
                    s.phase = ProvisionPhase::VenvCreate;
                    (s, ProvisionAction::Run(c))
                },
            },
            ProvisionPhase::VenvCreate => match event {
                ProvisionEvent::Ran(Ok(r)) => if r.success {
                    after_venv_step(s)
                } else {
                    fail(s, backend_error("python3 -m venv failed with status ", r.status.as_str()))
                },
                ProvisionEvent::Ran(Err(m)) => fail(s, backend_error("Failed to create venv: ", m.as_str())),
                _ => {
                    assert(false);
                    succeed(s)
                },
            },
            ProvisionPhase::BrewCheck => match event {
                ProvisionEvent::Exists(true) => environment_step(s),
                _ => {
                    let d = VenvManager::new(s.root.as_str()).brew_dir();
                    s.phase = ProvisionPhase::BrewMkdir;
                    (s, ProvisionAction::MakeDir(d))
                },
            },
            ProvisionPhase::BrewMkdir => match event {
                ProvisionEvent::Done(Ok(())) => {
                    let d = VenvManager::new(s.root.as_str()).brew_dir();
                    let c = command(
                        String::from_str("git"),
                        vec!["clone", "--depth=1", "https://github.com/Homebrew/brew", d.as_str()],
                        Vec::new(),
                    );
                    assert(texts(c.args@) =~= seq!["clone"@, "--depth=1"@, "https://github.com/Homebrew/brew"@, d@]);
                    assert(pairs_view(c.env@) =~= Seq::<(Seq<char>, Seq<char>)>::empty());
                    s.phase = ProvisionPhase::BrewClone;
                    (s, ProvisionAction::Run(c))
                },
                ProvisionEvent::Done(Err(m)) => fail(s, backend_error("Failed to create brew dir: ", m.as_str())),
                _ => {
                    assert(false);
                    succeed(s)
                },
            },
            ProvisionPhase::BrewClone => match event {
                ProvisionEvent::Ran(Ok(r)) => if r.success {
                    environment_step(s)
                } else {
                    fail(s, backend_error("Homebrew clone failed with status ", r.status.as_str()))
                },
                ProvisionEvent::Ran(Err(m)) => fail(s, backend_error("Failed to clone Homebrew: ", m.as_str())),
                _ => {
                    assert(false);
                    succeed(s)
                },
            },
            ProvisionPhase::NodeDirCheck => match event {
                ProvisionEvent::Exists(true) => {
                    let n = installer(PackageManager::Npm, s.root.as_str());
                    s.phase = ProvisionPhase::NpmCheck;
                    (s, ProvisionAction::CheckExists(n))
                },
                _ => download_step(s),
            },
            ProvisionPhase::NpmCheck => match event {
                ProvisionEvent::Exists(true) => environment_step(s),
                _ => download_step(s),
            },
            ProvisionPhase::NodeMkdir(d) => match event {
                ProvisionEvent::Done(Ok(())) => {
                    let c = command(
                        String::from_str("curl"),
                        vec!["-sL", "-o", d.archive_path.as_str(), d.url.as_str()],
                        Vec::new(),
                    );
                    assert(texts(c.args@) =~= seq!["-sL"@, "-o"@, d.archive_path@, d.url@]);
                    assert(pairs_view(c.env@) =~= Seq::<(Seq<char>, Seq<char>)>::empty());
                    s.phase = ProvisionPhase::Downloading(d);
                    (s, ProvisionAction::Run(c))
                },
                ProvisionEvent::Done(Err(m)) => fail(s, backend_error("Failed to create node dir: ", m.as_str())),
                _ => {
                    assert(false);
                    succeed(s)
                },
            },
            ProvisionPhase::Downloading(d) => match event {
                ProvisionEvent::Ran(Ok(r)) => if r.success {
                    let dir = VenvManager::new(s.root.as_str()).node_dir();
                    let c = command(
                        String::from_str("tar"),
                        vec!["-xzf", d.archive_path.as_str(), "-C", dir.as_str(), "--strip-components=1"],
                        Vec::new(),
                    );
                    assert(texts(c.args@) =~= seq!["-xzf"@, d.archive_path@, "-C"@, dir@, "--strip-components=1"@]);
                    assert(pairs_view(c.env@) =~= Seq::<(Seq<char>, Seq<char>)>::empty());
                    s.phase = ProvisionPhase::Extracting(d);
                    (s, ProvisionAction::Run(c))
                } else {
                    let f = d.archive_path.clone();
                    s.phase = ProvisionPhase::DiscardFailedDownload;
                    (s, ProvisionAction::RemoveFile(f))
                },
                ProvisionEvent::Ran(Err(m)) => fail(s, backend_error("Failed to run curl: ", m.as_str())),
                _ => {
                    assert(false);
                    succeed(s)
                },
            },
            ProvisionPhase::DiscardFailedDownload => fail(
                s,
                LeashError::Backend(String::from_str("Failed to download Node.js tarball")),
            ),
            ProvisionPhase::Extracting(d) => match event {
                ProvisionEvent::Ran(Ok(r)) => {
                    let f = d.archive_path.clone();
                    s.phase = ProvisionPhase::DiscardArchive(r.success);
                    (s, ProvisionAction::RemoveFile(f))
                },
                ProvisionEvent::Ran(Err(m)) => fail(s, backend_error("Failed to run tar: ", m.as_str())),
                _ => {
                    assert(false);
                    succeed(s)
                },
            },
            ProvisionPhase::DiscardArchive(extracted) => if extracted {
                let n = installer(PackageManager::Npm, s.root.as_str());
                s.phase = ProvisionPhase::NpmExtractedCheck;
                (s, ProvisionAction::CheckExists(n))
            } else {
                fail(s, LeashError::Backend(String::from_str("Failed to extract Node.js tarball")))
            },
            ProvisionPhase::NpmExtractedCheck => match event {
                ProvisionEvent::Exists(true) => environment_step(s),
                _ => {
                    let n = installer(PackageManager::Npm, s.root.as_str());
                    let q = quote(n.as_str());
                    let mut m = join2("npm binary not found at ", q.as_str());
                    m.append(" after extract");
                    fail(s, LeashError::Backend(m))
                },
            },
            ProvisionPhase::EnvNode => match event {
                ProvisionEvent::Exists(b) => {
                    let d = VenvManager::new(s.root.as_str()).brew_dir();
                    let bin = crate::venv::join_path(d.as_str(), "bin");
                    s.phase = ProvisionPhase::EnvBrew(b);
                    (s, ProvisionAction::CheckExists(bin))
                },
                _ => {
                    assert(false);
                    succeed(s)
                },
            },
            ProvisionPhase::EnvBrew(node_bin) => match event {
                ProvisionEvent::Exists(b) => {
                    s.phase = ProvisionPhase::EnvPath(node_bin, b);
                    (s, ProvisionAction::ReadPath)
                },
                _ => {
                    assert(false);
                    succeed(s)
                },
            },
            ProvisionPhase::EnvPath(node_bin, brew_bin) => match event {
                ProvisionEvent::PathValue(p) => {
                    let v = VenvManager::new(s.root.as_str());
                    let env = v.activation_env(p.as_str(), node_bin, brew_bin);
                    let program = installer(s.manager, s.root.as_str());
                    let c = match s.manager {
                        PackageManager::Npm => command(program, vec!["install", "-g", s.spec.as_str()], env),
                        _ => command(program, vec!["install", s.spec.as_str()], env),
                    };
                    assert(texts(c.args@) =~= install_args(s.manager, s.spec@));
                    s.phase = ProvisionPhase::Installing;
                    (s, ProvisionAction::Run(c))
                },
                _ => {
                    assert(false);
                    succeed(s)
                },
            },
            ProvisionPhase::Installing => match event {
                ProvisionEvent::Ran(Ok(r)) => if r.success {
                    succeed(s)
                } else {
                    let prefix = match s.manager {
                        PackageManager::Pip => "pip install exited with status: ",
                        PackageManager::Npm => "npm install exited with status: ",
                        PackageManager::Brew => "Local brew install exited with status: ",
                    };
                    fail(s, backend_error(prefix, r.status.as_str()))
                },
                ProvisionEvent::Ran(Err(m)) => {
                    let prefix = match s.manager {
                        PackageManager::Pip => "Failed to run pip: ",
                        PackageManager::Npm => "Failed to run npm: ",
                        PackageManager::Brew => "Failed to run local brew: ",
                    };
                    fail(s, backend_error(prefix, m.as_str()))
                },
                _ => {
                    assert(false);
                    succeed(s)
                },
            },
            ProvisionPhase::RemoveCheck => match event {
                ProvisionEvent::Exists(true) => {
                    let root = s.root.clone();
                    s.phase = ProvisionPhase::Removing;
                    (s, ProvisionAction::RemoveDir(root))
                },
                _ => succeed(s),
            },
            ProvisionPhase::Removing => match event {
                ProvisionEvent::Done(Ok(())) => succeed(s),
                ProvisionEvent::Done(Err(m)) => fail(s, backend_error("Failed to remove venv: ", m.as_str())),
                _ => {
                    assert(false);
                    succeed(s)
                },
            },
            ProvisionPhase::Finished => {
                assert(false);
                succeed(s)
            },
        }
    }
}

/// How many steps a session in this phase has left at most.
pub open spec fn provision_steps_left(p: ProvisionPhase) -> nat {
    match p {
        ProvisionPhase::Received => 14,
        ProvisionPhase::VenvCheck => 13,
        ProvisionPhase::RemoveCheck => 13,
        ProvisionPhase::VenvCreate => 12,
        ProvisionPhase::NodeDirCheck => 11,
        ProvisionPhase::BrewCheck => 11,
        ProvisionPhase::NpmCheck => 10,
        ProvisionPhase::BrewMkdir => 10,
        ProvisionPhase::NodeMkdir(_) => 9,
        ProvisionPhase::BrewClone => 9,
        ProvisionPhase::Downloading(_) => 8,
        ProvisionPhase::Extracting(_) => 7,
        ProvisionPhase::DiscardArchive(_) => 6,
        ProvisionPhase::NpmExtractedCheck => 5,
        ProvisionPhase::EnvNode => 4,
        ProvisionPhase::EnvBrew(_) => 3,
        ProvisionPhase::EnvPath(_, _) => 2,
        ProvisionPhase::Installing => 1,
        ProvisionPhase::DiscardFailedDownload => 1,
        ProvisionPhase::Removing => 1,
        ProvisionPhase::Finished => 0,
    }
}

/// Provisioning ends: each step brings the session closer to its outcome,
/// which no session takes more than fourteen steps to reach.
pub proof fn lemma_provisioning_ends(s: ProvisionSession, e: ProvisionEvent, t: ProvisionSession, a: ProvisionAction)
    requires
        provision_accepts(s, e),
        provision_steps_to(s, e, t, a),
    ensures
        provision_steps_left(t.phase) < provision_steps_left(s.phase),
        t.phase is Finished <==> a is Finish,
{
}

proof fn lemma_join_keeps_base(base: Seq<char>, segment: Seq<char>)
    ensures
        path_join(base, segment).len() >= base.len(),
        path_join(base, segment).subrange(0, base.len() as int) == base,
{
    if base.len() == 0 || base.last() == '/' {
        assert((base + segment).subrange(0, base.len() as int) =~= base);
    } else {
        assert((base + "/"@ + segment).subrange(0, base.len() as int) =~= base);
    }
}

proof fn lemma_installer_in_scope(m: PackageManager, root: Seq<char>)
    ensures
        installer_of(m, root).len() >= root.len(),
        installer_of(m, root).subrange(0, root.len() as int) == root,
{
    let inner = match m {
        PackageManager::Pip => bin_dir_of(root),
        PackageManager::Npm => path_join(node_dir_of(root), "bin"@),
        PackageManager::Brew => path_join(brew_dir_of(root), "bin"@),
    };
    let last = match m {
        PackageManager::Pip => "pip"@,
        PackageManager::Npm => "npm"@,
        PackageManager::Brew => "brew"@,
    };
    match m {
        PackageManager::Pip => lemma_join_keeps_base(root, "bin"@),
        PackageManager::Npm => {
            lemma_join_keeps_base(root, ".node"@);
            lemma_join_keeps_base(node_dir_of(root), "bin"@);
            assert(inner.subrange(0, root.len() as int) =~= node_dir_of(root).subrange(0, root.len() as int));
        },
        PackageManager::Brew => {
            lemma_join_keeps_base(root, ".brew"@);
            lemma_join_keeps_base(brew_dir_of(root), "bin"@);
            assert(inner.subrange(0, root.len() as int) =~= brew_dir_of(root).subrange(0, root.len() as int));
        },
    }
    lemma_join_keeps_base(inner, last);
    assert(installer_of(m, root) == path_join(inner, last));
    assert(path_join(inner, last).subrange(0, root.len() as int) =~= inner.subrange(0, root.len() as int));
}

/// Installs stay in the scope: the package manager that runs is the scope's
/// own (its path begins with the scope's root), and npm and brew run with the
/// scope activated, their global prefix being the scope.
pub proof fn lemma_installs_stay_in_scope(s: ProvisionSession, e: ProvisionEvent, t: ProvisionSession, a: ProvisionAction)
    requires
        provision_accepts(s, e),
        provision_steps_to(s, e, t, a),
        t.phase is Installing,
    ensures
        a matches ProvisionAction::Run(c) && c.program@.len() >= s.root@.len() && c.program@.subrange(
            0,
            s.root@.len() as int,
        ) == s.root@,
        s.manager != PackageManager::Pip ==> (a matches ProvisionAction::Run(c) && pairs_view(c.env@).contains(
            ("VIRTUAL_ENV"@, s.root@),
        ) && pairs_view(c.env@).contains(("NPM_CONFIG_PREFIX"@, s.root@))),
{
    lemma_installer_in_scope(s.manager, s.root@);
    let c = a->Run_0;
    if s.manager != PackageManager::Pip {
        let env = pairs_view(c.env@);
        assert(env[0] == ("VIRTUAL_ENV"@, s.root@));
        assert(env[env.len() - 1] == ("NPM_CONFIG_PREFIX"@, s.root@));
    }
}

} // verus!
