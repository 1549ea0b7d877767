//! The daemon's configuration and its defaults.
use vstd::prelude::*;
use crate::text::join2;

verus! {

/// Config for bootstrapping a portable Node.js (and npm) into each task scope.
#[derive(Debug)]
pub struct NodeBootstrapConfig {
    /// Node.js version (e.g. "20.18.0" LTS). Must match a tarball at nodejs.org/dist.
    pub version: String,
    /// Base URL for Node dist (default: https://nodejs.org/dist). Use for mirrors or air-gap.
    pub dist_base_url: Option<String>,
}

impl Default for NodeBootstrapConfig {
    fn default() -> (r: Self)
        ensures
            r.version@ == "20.18.0"@,
            r.dist_base_url is None,
    {
        NodeBootstrapConfig { version: String::from_str("20.18.0"), dist_base_url: None }
    }
}

impl Clone for NodeBootstrapConfig {
    fn clone(&self) -> (r: Self)
        ensures
            r == *self,
    {
        NodeBootstrapConfig {
            version: self.version.clone(),
            dist_base_url: match &self.dist_base_url {
                Some(u) => Some(u.clone()),
                None => None,
            },
        }
    }
}

/// The Telegram bot that carries approval requests.
#[derive(Debug)]
pub struct TelegramConfig {
    pub token: String,
    pub chat_id: i64,
}

/// Where the daemon listens.
#[derive(Debug)]
pub struct ServerConfig {
    pub uds_path: String,
    pub tcp_host: String,
    pub tcp_port: u16,
}

/// Where the daemon keeps its records and reads its policies.
#[derive(Debug)]
pub struct StorageConfig {
    pub database_url: String,
    pub policies_path: Option<String>,
}

/// Whether a backend is switched on.
#[derive(Debug, Clone, Copy, PartialEq, Eq, Structural)]
pub struct FeatureConfig {
    pub enabled: bool,
}

/// Which backends are switched on.
#[derive(Debug, Clone, Copy, PartialEq, Eq, Structural)]
pub struct BackendConfig {
    pub pip: FeatureConfig,
    pub npm: FeatureConfig,
    pub brew: FeatureConfig,
    pub keychain: FeatureConfig,
    pub telegram: FeatureConfig,
}

/// The daemon's configuration.
#[derive(Debug)]
pub struct OpenLeashConfig {
    pub server: ServerConfig,
    pub storage: StorageConfig,
    pub backends: BackendConfig,
    /// Drives portable Node.js (npm) bootstrap per scope.
    pub node_bootstrap: NodeBootstrapConfig,
    pub telegram: Option<TelegramConfig>,
}

/// The directory under the home directory that holds the daemon's files.
pub open spec fn config_dir(home: Seq<char>) -> Seq<char> {
    home + "/.openleash"@
}

impl OpenLeashConfig {
    /// The default configuration for a user whose home directory is `home`:
    /// sockets on /tmp/openleash.sock and 127.0.0.1:50051, the database and
    /// policies under `home`/.openleash, every backend but Telegram on, Node
    /// 20.18.0 from the default mirror, and no Telegram bot.
    pub fn for_home(home: &str) -> (r: Self)
        ensures
            r.server.uds_path@ == "/tmp/openleash.sock"@,
            r.server.tcp_host@ == "127.0.0.1"@,
            r.server.tcp_port == 50051,
            r.storage.database_url@ == "sqlite://"@ + config_dir(home@) + "/leash.db"@,
            r.storage.policies_path matches Some(p) && p@ == config_dir(home@) + "/policies.yaml"@,
            r.backends.pip.enabled && r.backends.npm.enabled && r.backends.brew.enabled
                && r.backends.keychain.enabled && !r.backends.telegram.enabled,
            r.node_bootstrap.version@ == "20.18.0"@,
            r.node_bootstrap.dist_base_url is None,
            r.telegram is None,
    {
        let dir = join2(home, "/.openleash");
        let mut db = String::from_str("sqlite://");
        db.append(dir.as_str());
        db.append("/leash.db");
        let policies = join2(dir.as_str(), "/policies.yaml");
        OpenLeashConfig {
            server: ServerConfig {
                uds_path: String::from_str("/tmp/openleash.sock"),
                tcp_host: String::from_str("127.0.0.1"),
                tcp_port: 50051,
            },
            storage: StorageConfig { database_url: db, policies_path: Some(policies) },
            backends: BackendConfig {
                pip: FeatureConfig { enabled: true },
                npm: FeatureConfig { enabled: true },
                brew: FeatureConfig { enabled: true },
                keychain: FeatureConfig { enabled: true },
                telegram: FeatureConfig { enabled: false },
            },
            node_bootstrap: NodeBootstrapConfig::default(),
            telegram: None,
        }
    }

    /// Node bootstrap config to use for the NPM backend.
    pub fn node_bootstrap_config(&self) -> (r: NodeBootstrapConfig)
        ensures
            r == self.node_bootstrap,
    {
        self.node_bootstrap.clone()
    }
}

impl Default for OpenLeashConfig {
    /// The default configuration rooted at the current directory (what a
    /// process without a home directory gets); see [`OpenLeashConfig::for_home`].
    fn default() -> (r: Self)
        ensures
            r.server.uds_path@ == "/tmp/openleash.sock"@,
            r.server.tcp_host@ == "127.0.0.1"@,
            r.server.tcp_port == 50051,
            r.storage.database_url@ == "sqlite://"@ + config_dir("."@) + "/leash.db"@,
            r.storage.policies_path matches Some(p) && p@ == config_dir("."@) + "/policies.yaml"@,
            r.backends.pip.enabled && r.backends.npm.enabled && r.backends.brew.enabled
                && r.backends.keychain.enabled && !r.backends.telegram.enabled,
            r.node_bootstrap.version@ == "20.18.0"@,
            r.node_bootstrap.dist_base_url is None,
            r.telegram is None,
    {
        OpenLeashConfig::for_home(".")
    }
}

} // verus!
