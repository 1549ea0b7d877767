//! The package and secret backends: what each derives from a request before
//! it runs its tool, and how the keychain's answers are read.
use vstd::prelude::*;
use crate::config::NodeBootstrapConfig;
use crate::error::{LeashError, LeashErrorView};
use crate::text::{join2, join3};
use crate::venv::{bin_dir_of, brew_dir_of, path_join, VenvManager};

verus! {

/// A package manager that installs into a scope directory. Installing and
/// removing are done by the daemon's runtime; this is what they are given.
pub trait PackageBackend {
    /// Directory containing installed executables (e.g. venv `bin/`).
    fn executable_directory(&self, scope_path: &str) -> String;

    /// The package argument of the install command.
    fn package_spec(&self, package: &str, version: Option<&str>) -> String;
}

/// `package`, or `package` + `separator` + `version` where a version is asked for.
pub open spec fn versioned(package: Seq<char>, separator: Seq<char>, version: Option<Seq<char>>) -> Seq<char> {
    match version {
        Some(v) => package + separator + v,
        None => package,
    }
}

pub(crate) fn versioned_spec(package: &str, separator: &str, version: Option<&str>) -> (r: String)
    ensures
        r@ == versioned(
            package@,
            separator@,
            match version {
                Some(v) => Some(v@),
                None => None,
            },
        ),
{
    match version {
        Some(v) => join3(package, separator, v),
        None => String::from_str(package),
    }
}

/// Python packages, installed with the venv's pip.
pub struct PipBackend;

impl PackageBackend for PipBackend {
    /// The venv's `bin` directory.
    fn executable_directory(&self, scope_path: &str) -> (r: String)
        ensures
            r@ == bin_dir_of(scope_path@),
    {
        VenvManager::new(scope_path).bin_dir()
    }

    /// `package` or `package==version`.
    fn package_spec(&self, package: &str, version: Option<&str>) -> (r: String)
        ensures
            r@ == versioned(
                package@,
                "=="@,
                match version {
                    Some(v) => Some(v@),
                    None => None,
                },
            ),
    {
        versioned_spec(package, "==", version)
    }
}

impl PipBackend {
    /// The pip of the venv rooted at `scope_path`.
    pub fn pip_executable(scope_path: &str) -> (r: String)
        ensures
            r@ == path_join(bin_dir_of(scope_path@), "pip"@),
    {
        let b = VenvManager::new(scope_path).bin_dir();
        crate::venv::join_path(b.as_str(), "pip")
    }
}

/// Node packages, installed globally into the scope with a portable npm.
pub struct NpmBackend {
    pub node_config: NodeBootstrapConfig,
}

impl NpmBackend {
    /// An npm backend that bootstraps Node.js as `node_config` says.
    pub fn new(node_config: NodeBootstrapConfig) -> (r: Self)
        ensures
            r.node_config == node_config,
    {
        NpmBackend { node_config }
    }
}

impl Default for NpmBackend {
    fn default() -> (r: Self)
        ensures
            r.node_config.version@ == "20.18.0"@,
            r.node_config.dist_base_url is None,
    {
        NpmBackend::new(NodeBootstrapConfig::default())
    }
}

impl PackageBackend for NpmBackend {
    /// Global npm installs go into `scope_path`/bin.
    fn executable_directory(&self, scope_path: &str) -> (r: String)
        ensures
            r@ == bin_dir_of(scope_path@),
    {
        VenvManager::new(scope_path).bin_dir()
    }

    /// `package` or `package@version`.
    fn package_spec(&self, package: &str, version: Option<&str>) -> (r: String)
        ensures
            r@ == versioned(
                package@,
                "@"@,
                match version {
                    Some(v) => Some(v@),
                    None => None,
                },
            ),
    {
        versioned_spec(package, "@", version)
    }
}

/// Homebrew formulae, installed with a portable Homebrew inside the scope.
pub struct BrewBackend;

impl PackageBackend for BrewBackend {
    /// The portable Homebrew's `bin` directory.
    fn executable_directory(&self, scope_path: &str) -> (r: String)
        ensures
            r@ == path_join(brew_dir_of(scope_path@), "bin"@),
    {
        let d = VenvManager::new(scope_path).brew_dir();
        crate::venv::join_path(d.as_str(), "bin")
    }

    /// `package` or `package@version`.
    fn package_spec(&self, package: &str, version: Option<&str>) -> (r: String)
        ensures
            r@ == versioned(
                package@,
                "@"@,
                match version {
                    Some(v) => Some(v@),
                    None => None,
                },
            ),
    {
        versioned_spec(package, "@", version)
    }
}

/// Secrets kept in the macOS Keychain under the service "leash-ai".
pub struct KeychainBackend;

/// The Security framework's code for an item that is not in the keychain.
pub const ERR_SEC_ITEM_NOT_FOUND: i32 = -25300;

/// The Security framework's code for a keychain that needs interaction
/// (it is locked).
pub const ERR_SEC_INTERACTION_NOT_ALLOWED: i32 = -25308;

impl KeychainBackend {
    /// The keychain service under which secrets are kept.
    pub fn service() -> (r: &'static str)
        ensures
            r@ == "leash-ai"@,
    {
        "leash-ai"
    }

    /// The error for a failed secret lookup with the Security framework's
    /// `code` and `detail`: not found, locked, or another keychain error.
    pub fn lookup_error(code: i32, secret_id: &str, detail: &str) -> (r: LeashError)
        ensures
            code == ERR_SEC_ITEM_NOT_FOUND ==> r@ == LeashErrorView::NotFound(
                "Secret '"@ + secret_id@ + "' not found in Keychain"@,
            ),
            code == ERR_SEC_INTERACTION_NOT_ALLOWED ==> r@ == LeashErrorView::Backend(
                "Keychain is locked or interaction is required"@,
            ),
            code != ERR_SEC_ITEM_NOT_FOUND && code != ERR_SEC_INTERACTION_NOT_ALLOWED ==> r@
                == LeashErrorView::Backend("Keychain error: "@ + detail@),
    {
        if code == ERR_SEC_ITEM_NOT_FOUND {
            let mut m = join2("Secret '", secret_id);
            m.append("' not found in Keychain");
            LeashError::NotFound(m)
        } else if code == ERR_SEC_INTERACTION_NOT_ALLOWED {
            LeashError::Backend(String::from_str("Keychain is locked or interaction is required"))
        } else {
            LeashError::Backend(join2("Keychain error: ", detail))
        }
    }

    /// Whether the keychain is locked, from the outcome of a probe lookup:
    /// only a lookup refused for want of interaction says so.
    pub fn locked_from(probe_error: Option<i32>) -> (r: bool)
        ensures
            r == (probe_error == Some(ERR_SEC_INTERACTION_NOT_ALLOWED)),
    {
        match probe_error {
            Some(code) => code == ERR_SEC_INTERACTION_NOT_ALLOWED,
            None => false,
        }
    }
}

} // verus!
