//! Per-task scopes: the layout of a scope directory (Python venv, portable
//! Homebrew and Node.js), the environment that activates it, and the plan for
//! bootstrapping Node.js into it.
use vstd::prelude::*;
use crate::config::NodeBootstrapConfig;
use crate::error::{LeashError, LeashErrorView};
use crate::text::{join2, pairs_view, same_text, trim, trim_end_char, trim_end_where, trim_text};

verus! {

/// `base` joined with the relative path `segment`, as `PathBuf::join` does on
/// Unix: a separator is put between them unless `base` is empty or already
/// ends in one.
pub open spec fn path_join(base: Seq<char>, segment: Seq<char>) -> Seq<char> {
    if base.len() == 0 || base.last() == '/' {
        base + segment
    } else {
        base + "/"@ + segment
    }
}

/// `base` joined with the relative path `segment`.
pub fn join_path(base: &str, segment: &str) -> (r: String)
    ensures
        r@ == path_join(base@, segment@),
{
    let n = base.unicode_len();
    if n == 0 || base.get_char(n - 1) == '/' {
        join2(base, segment)
    } else {
        let mut r = join2(base, "/");
        r.append(segment);
        r
    }
}

/// The layout of one scope directory.
pub struct VenvManager {
    root_path: String,
}

impl View for VenvManager {
    type V = Seq<char>;

    /// The scope's root directory.
    closed spec fn view(&self) -> Seq<char> {
        self.root_path@
    }
}

/// Where the venv's executables live.
pub open spec fn bin_dir_of(root: Seq<char>) -> Seq<char> {
    path_join(root, "bin"@)
}

/// Where the portable Homebrew lives.
pub open spec fn brew_dir_of(root: Seq<char>) -> Seq<char> {
    path_join(root, ".brew"@)
}

/// Where the portable Node.js lives.
pub open spec fn node_dir_of(root: Seq<char>) -> Seq<char> {
    path_join(root, ".node"@)
}

impl VenvManager {
    /// The layout of the scope rooted at `root_path`.
    pub fn new(root_path: &str) -> (r: Self)
        ensures
            r@ == root_path@,
    {
        VenvManager { root_path: String::from_str(root_path) }
    }

    /// The scope's root directory.
    pub fn path_for_scope(&self) -> (r: &str)
        ensures
            r@ == self@,
    {
        self.root_path.as_str()
    }

    /// The venv's executables: `root`/bin.
    pub fn bin_dir(&self) -> (r: String)
        ensures
            r@ == bin_dir_of(self@),
    {
        join_path(self.root_path.as_str(), "bin")
    }

    /// The portable Homebrew: `root`/.brew.
    pub fn brew_dir(&self) -> (r: String)
        ensures
            r@ == brew_dir_of(self@),
    {
        join_path(self.root_path.as_str(), ".brew")
    }

    /// The portable `brew` binary: `root`/.brew/bin/brew.
    pub fn brew_bin(&self) -> (r: String)
        ensures
            r@ == path_join(path_join(brew_dir_of(self@), "bin"@), "brew"@),
    {
        let d = self.brew_dir();
        let b = join_path(d.as_str(), "bin");
        join_path(b.as_str(), "brew")
    }

    /// Directory for the portable Node.js installation: `root`/.node.
    pub fn node_dir(&self) -> (r: String)
        ensures
            r@ == node_dir_of(self@),
    {
        join_path(self.root_path.as_str(), ".node")
    }

    /// Binary directory of the portable Node.js (node, npm, npx).
    pub fn node_bin_dir(&self) -> (r: String)
        ensures
            r@ == path_join(node_dir_of(self@), "bin"@),
    {
        let d = self.node_dir();
        join_path(d.as_str(), "bin")
    }

    /// Path to the portable `npm` binary.
    pub fn npm_bin(&self) -> (r: String)
        ensures
            r@ == path_join(path_join(node_dir_of(self@), "bin"@), "npm"@),
    {
        let d = self.node_bin_dir();
        join_path(d.as_str(), "npm")
    }

    /// The environment that activates the scope, in order: `VIRTUAL_ENV` (the
    /// root), `PATH` (the venv's executables, then the portable Node.js and
    /// Homebrew executables where they exist, then the `current_path` where it
    /// is not empty, separated by ':'), `HOMEBREW_PREFIX` where the portable
    /// Homebrew exists, and `NPM_CONFIG_PREFIX` (the root).
    pub fn activation_env(&self, current_path: &str, node_bin_exists: bool, brew_bin_exists: bool) -> (r: Vec<(String, String)>)
        ensures
            pairs_view(r@) == activation_pairs(self@, current_path@, node_bin_exists, brew_bin_exists),
    {
        let mut env: Vec<(String, String)> = Vec::new();
        env.push((String::from_str("VIRTUAL_ENV"), self.root_path.clone()));
        let mut path = self.bin_dir();
        let ghost p0 = path@;
        if node_bin_exists {
            path.append(":");
            let nb = self.node_bin_dir();
            path.append(nb.as_str());
        }
        let ghost p1 = path@;
        if brew_bin_exists {
            path.append(":");
            let bd = self.brew_dir();
            let bb = join_path(bd.as_str(), "bin");
            path.append(bb.as_str());
        }
        let ghost p2 = path@;
        if current_path.unicode_len() > 0 {
            path.append(":");
            path.append(current_path);
        }
        proof {
            assert(p1 =~= p0 + colon_then(node_bin_exists, path_join(node_dir_of(self@), "bin"@)));
            assert(p2 =~= p1 + colon_then(brew_bin_exists, path_join(brew_dir_of(self@), "bin"@)));
            assert(path@ =~= p2 + colon_then(current_path@.len() > 0, current_path@));
        }
        env.push((String::from_str("PATH"), path));
        if brew_bin_exists {
            env.push((String::from_str("HOMEBREW_PREFIX"), self.brew_dir()));
        }
        env.push((String::from_str("NPM_CONFIG_PREFIX"), self.root_path.clone()));
        proof {
            let pairs = activation_pairs(self@, current_path@, node_bin_exists, brew_bin_exists);
            assert(pairs_view(env@) =~= pairs);
        }
        env
    }
}

/// ":" followed by `text` where `on` holds, nothing otherwise.
pub open spec fn colon_then(on: bool, text: Seq<char>) -> Seq<char> {
    if on {
        ":"@ + text
    } else {
        Seq::empty()
    }
}

/// The `PATH` of an activated scope.
pub open spec fn activation_path(root: Seq<char>, current_path: Seq<char>, node_bin: bool, brew_bin: bool) -> Seq<char> {
    bin_dir_of(root) + colon_then(node_bin, path_join(node_dir_of(root), "bin"@)) + colon_then(
        brew_bin,
        path_join(brew_dir_of(root), "bin"@),
    ) + colon_then(current_path.len() > 0, current_path)
}

/// The environment of an activated scope, as (name, value) pairs in order.
pub open spec fn activation_pairs(root: Seq<char>, current_path: Seq<char>, node_bin: bool, brew_bin: bool) -> Seq<(Seq<char>, Seq<char>)> {
    seq![("VIRTUAL_ENV"@, root), ("PATH"@, activation_path(root, current_path, node_bin, brew_bin))]
        + if brew_bin {
        seq![("HOMEBREW_PREFIX"@, brew_dir_of(root))]
    } else {
        Seq::empty()
    } + seq![("NPM_CONFIG_PREFIX"@, root)]
}

/// The Node.js tarball names of an operating system and architecture (as
/// `std::env::consts` names them): darwin or linux, x64, arm64 or armv7l;
/// Windows and other systems are refused.
pub open spec fn node_platform(os: Seq<char>, arch: Seq<char>) -> Result<(Seq<char>, Seq<char>), LeashErrorView> {
    let o = if os == "macos"@ {
        Ok("darwin"@)
    } else if os == "linux"@ {
        Ok("linux"@)
    } else if os == "windows"@ {
        Err(LeashErrorView::Backend(
            "Portable Node bootstrap is not yet supported on Windows; use system npm or add win support"@,
        ))
    } else {
        Err(LeashErrorView::Backend("Unsupported OS for portable Node: "@ + os))
    };
    match o {
        Err(e) => Err(e),
        Ok(o) => if arch == "x86_64"@ {
            Ok((o, "x64"@))
        } else if arch == "aarch64"@ || arch == "arm64"@ {
            Ok((o, "arm64"@))
        } else if arch == "arm"@ {
            Ok((o, "armv7l"@))
        } else {
            Err(LeashErrorView::Backend("Unsupported arch for portable Node: "@ + arch))
        },
    }
}

/// Map an operating system and architecture to Node.js official tarball
/// naming (nodejs.org/dist).
pub fn platform_for_node(os: &str, arch: &str) -> (r: Result<(String, String), LeashError>)
    ensures
        match (r, node_platform(os@, arch@)) {
            (Ok(p), Ok(q)) => p.0@ == q.0 && p.1@ == q.1,
            (Err(e), Err(f)) => e@ == f,
            _ => false,
        },
{
    let o = if same_text(os, "macos") {
        String::from_str("darwin")
    } else if same_text(os, "linux") {
        String::from_str("linux")
    } else if same_text(os, "windows") {
        return Err(
            LeashError::Backend(
                String::from_str(
                    "Portable Node bootstrap is not yet supported on Windows; use system npm or add win support",
                ),
            ),
        );
    } else {
        return Err(LeashError::Backend(join2("Unsupported OS for portable Node: ", os)));
    };
    if same_text(arch, "x86_64") {
        Ok((o, String::from_str("x64")))
    } else if same_text(arch, "aarch64") || same_text(arch, "arm64") {
        Ok((o, String::from_str("arm64")))
    } else if same_text(arch, "arm") {
        Ok((o, String::from_str("armv7l")))
    } else {
        Err(LeashError::Backend(join2("Unsupported arch for portable Node: ", arch)))
    }
}

/// Where a portable Node.js comes from and where its tarball is put.
#[derive(Debug)]
pub struct NodeDownload {
    pub tarball_name: String,
    pub url: String,
    pub archive_path: String,
}

/// The mirror used where the configuration names none.
pub open spec fn default_node_mirror() -> Seq<char> {
    "https://nodejs.org/dist"@
}

/// The Node.js mirror of a configuration, without trailing slashes.
pub open spec fn node_mirror(config: NodeBootstrapConfig) -> Seq<char> {
    trim_end_where(
        match config.dist_base_url {
            Some(u) => u@,
            None => default_node_mirror(),
        },
        |x: char| x == '/',
    )
}

/// The tarball of a Node.js version for a platform.
pub open spec fn node_tarball(version: Seq<char>, os: Seq<char>, arch: Seq<char>) -> Seq<char> {
    "node-v"@ + version + "-"@ + os + "-"@ + arch + ".tar.gz"@
}

impl VenvManager {
    /// The plan for bootstrapping the configured Node.js into the scope on the
    /// given platform: the tarball `node-v<version>-<os>-<arch>.tar.gz` (the
    /// configured version without surrounding white space), fetched from
    /// `<mirror>/v<version>/<tarball>` (the configured mirror, or
    /// nodejs.org/dist, without trailing slashes) into the scope's Node.js
    /// directory; the platform's refusal where it has no portable Node.js.
    pub fn node_download(&self, config: &NodeBootstrapConfig, os: &str, arch: &str) -> (r: Result<NodeDownload, LeashError>)
        ensures
            node_platform(os@, arch@) matches Err(e) ==> (r matches Err(f) && f@ == e),
            node_platform(os@, arch@) matches Ok(p) ==> (r matches Ok(d) && {
                let version = trim_text(config.version@);
                let tarball = node_tarball(version, p.0, p.1);
                &&& d.tarball_name@ == tarball
                &&& d.url@ == node_mirror(*config) + "/v"@ + version + "/"@ + tarball
                &&& d.archive_path@ == path_join(node_dir_of(self@), tarball)
            }),
    {
        let version = trim(config.version.as_str());
        let base = match &config.dist_base_url {
            Some(u) => trim_end_char(u.as_str(), '/'),
            None => trim_end_char("https://nodejs.org/dist", '/'),
        };
        let (o, a) = match platform_for_node(os, arch) {
            Ok(p) => p,
            Err(e) => return Err(e),
        };
        let mut tarball = join2("node-v", version.as_str());
        tarball.append("-");
        tarball.append(o.as_str());
        tarball.append("-");
        tarball.append(a.as_str());
        tarball.append(".tar.gz");
        let mut url = join2(base.as_str(), "/v");
        url.append(version.as_str());
        url.append("/");
        url.append(tarball.as_str());
        let dir = self.node_dir();
        let archive_path = join_path(dir.as_str(), tarball.as_str());
        proof {
            assert(tarball@ =~= node_tarball(version@, o@, a@));
            assert(url@ =~= node_mirror(*config) + "/v"@ + version@ + "/"@ + tarball@);
        }
        Ok(NodeDownload { tarball_name: tarball, url, archive_path })
    }
}

} // verus!
