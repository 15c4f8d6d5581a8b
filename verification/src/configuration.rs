//! The configuration of a node, and where it is kept on disk.
//!
//! Reading and writing the file is left to the program around the library.
//! The library says where the file is, what may be done with it, and what
//! its text starts with.

use crate::quorum::BasicQuorum;
use crate::quorum_consensus::Settings;
use vstd::prelude::*;
use vstd::string::StringExecFns;

verus! {

#[derive(Debug, Clone, PartialEq)]
pub struct Configuration {
    pub node_config: NodeConfig,
    pub quorum: BroadcastProtocolSettings,
    pub libp2p: Libp2pSettings,
    pub db_config: DbConfig,
    pub ws_config: WsConfig,
    pub network_client_listener_config: NetworkClientListenerConfig,
    pub http_config: HttpConfig,
}

#[derive(Debug, Clone, PartialEq)]
pub struct NodeConfig {
    pub address: String,
    pub pub_key: String,
    pub priv_key: String,
}

#[derive(Debug, Clone, Copy, PartialEq)]
pub struct BroadcastProtocolSettings {
    pub quorum_threshold_size: usize,
    pub cluster_size: usize,
}

#[derive(Debug, Clone, PartialEq)]
pub struct Libp2pSettings {
    pub topic_name: String,
    pub heartbeat_interval_sec: u64,
    pub peers: Vec<PeerSetting>,
}

#[derive(Debug, Clone, PartialEq)]
pub struct PeerSetting {
    pub name: String,
    pub address: String,
    pub pub_key: String,
}

#[derive(Debug, Clone, PartialEq)]
pub struct DbConfig {
    pub db_path: String,
}

#[derive(Debug, Clone, PartialEq)]
pub struct WsConfig {
    pub ws_address: String,
}

#[derive(Debug, Clone, PartialEq)]
pub struct NetworkClientListenerConfig {
    pub address: String,
}

#[derive(Debug, Clone, PartialEq)]
pub struct HttpConfig {
    pub address: String,
}

/// Why the configuration could not be found, made or changed. Each variant
/// but the last carries the path of the file.
#[derive(Debug, Clone, PartialEq)]
pub enum ConfigurationError {
    ConfigurationFileExists(String),
    ConfigurationFileDoesNotExists(String),
    IoError(String),
    Other(String),
}

/// The directory of all nodes, below the home directory.
pub const EPHEMERA_DIR_NAME: &'static str = ".ephemera";

/// The file of a node, in the directory of the node.
pub const EPHEMERA_CONFIG_FILE: &'static str = "ephemera.toml";

/// The line every configuration file starts with.
pub const GENERATED_NOTICE: &'static str =
    "#This file is generated by cli and automatically overwritten every time when cli is run\n";

/// The path `std::path::Path::join` makes of a path and what is joined to
/// it, both as text.
pub uninterp spec fn joined(base: Seq<char>, part: Seq<char>) -> Seq<char>;

/// `std::path::Path::join`, on text and back to text.
#[verifier::external_body]
fn join_path(base: &str, part: &str) -> (path: String)
    ensures
        path@ == joined(base@, part@),
{
    std::path::Path::new(base).join(part).to_string_lossy().into_owned()
}

/// `dirs::home_dir`, as text. It depends on the environment of the process:
/// nothing is claimed of it.
#[verifier::external_body]
fn home_dir() -> Option<String> {
    match dirs::home_dir() {
        Some(path) => Some(path.to_string_lossy().into_owned()),
        None => None,
    }
}

/// The directory of the node `node_name` below `home`.
pub open spec fn node_dir_in(home: Seq<char>, node_name: Seq<char>) -> Seq<char> {
    joined(joined(home, EPHEMERA_DIR_NAME@), node_name)
}

/// The configuration file of the node `node_name` below `home`.
pub open spec fn config_file_in(home: Seq<char>, node_name: Seq<char>) -> Seq<char> {
    joined(node_dir_in(home, node_name), EPHEMERA_CONFIG_FILE@)
}

/// What is to be done to create the configuration of a node.
#[derive(Debug, Clone, PartialEq)]
pub struct CreatePlan {
    /// The directory to create first, if it is missing.
    pub create_dir: Option<String>,
    /// The file to write.
    pub file: String,
}

impl Configuration {
    /// The text that refuses a missing home directory.
    pub open spec fn no_home() -> Seq<char> {
        "Could not find home directory"@
    }

    /// The directory of the node below the given home directory. Without a
    /// home directory there is none.
    pub fn node_dir_below(home: Option<String>, node_name: &str) -> (r: Result<
        String,
        ConfigurationError,
    >)
        ensures
            match (home, r) {
                (Some(h), Ok(path)) => path@ == node_dir_in(h@, node_name@),
                (None, Err(ConfigurationError::Other(text))) => text@ == Self::no_home(),
                _ => false,
            },
    {
        match home {
            Some(h) => {
                let all = join_path(h.as_str(), EPHEMERA_DIR_NAME);
                Ok(join_path(all.as_str(), node_name))
            },
            None => Err(ConfigurationError::Other("Could not find home directory".to_string())),
        }
    }

    /// The configuration file of the node below the given home directory.
    pub fn config_file_below(home: Option<String>, node_name: &str) -> (r: Result<
        String,
        ConfigurationError,
    >)
        ensures
            match (home, r) {
                (Some(h), Ok(path)) => path@ == config_file_in(h@, node_name@),
                (None, Err(ConfigurationError::Other(text))) => text@ == Self::no_home(),
                _ => false,
            },
    {
        match Self::node_dir_below(home, node_name) {
            Ok(dir) => Ok(join_path(dir.as_str(), EPHEMERA_CONFIG_FILE)),
            Err(e) => Err(e),
        }
    }

    /// The directory of the node below the home directory of the user.
    pub fn ephemera_node_dir(node_name: &str) -> (r: Result<String, ConfigurationError>)
        ensures
            match r {
                Ok(path) => exists|home: Seq<char>| path@ == node_dir_in(home, node_name@),
                Err(ConfigurationError::Other(text)) => text@ == Self::no_home(),
                Err(_) => false,
            },
    {
        let home = home_dir();
        let ghost found = home;
        let r = Self::node_dir_below(home, node_name);
        proof {
            if found.is_some() {
                assert(r.unwrap()@ == node_dir_in(found.unwrap()@, node_name@));
            }
        }
        r
    }

    /// The configuration file of the node below the home directory of the
    /// user.
    pub fn ephemera_config_file(node_name: &str) -> (r: Result<String, ConfigurationError>)
        ensures
            match r {
                Ok(path) => exists|home: Seq<char>| path@ == config_file_in(home, node_name@),
                Err(ConfigurationError::Other(text)) => text@ == Self::no_home(),
                Err(_) => false,
            },
    {
        let home = home_dir();
        let ghost found = home;
        let r = Self::config_file_below(home, node_name);
        proof {
            if found.is_some() {
                assert(r.unwrap()@ == config_file_in(found.unwrap()@, node_name@));
            }
        }
        r
    }

    /// The file `file` in the directory of the node below the given home
    /// directory: where a configuration under another name is loaded from.
    pub fn node_file_below(home: Option<String>, node_name: &str, file: &str) -> (r: Result<
        String,
        ConfigurationError,
    >)
        ensures
            match (home, r) {
                (Some(h), Ok(path)) => path@ == joined(node_dir_in(h@, node_name@), file@),
                (None, Err(ConfigurationError::Other(text))) => text@ == Self::no_home(),
                _ => false,
            },
    {
        match Self::node_dir_below(home, node_name) {
            Ok(dir) => Ok(join_path(dir.as_str(), file)),
            Err(e) => Err(e),
        }
    }

    /// What to do to create the configuration, given the directory of the
    /// node, its file, and what of the two is on disk. A file that is there
    /// is not overwritten.
    pub fn try_create(dir: String, file: String, dir_exists: bool, file_exists: bool) -> (r: Result<
        CreatePlan,
        ConfigurationError,
    >)
        ensures
            match r {
                Ok(plan) => !file_exists && plan.file == file && plan.create_dir == if dir_exists {
                    None::<String>
                } else {
                    Some(dir)
                },
                Err(e) => file_exists && e == ConfigurationError::ConfigurationFileExists(file),
            },
    {
        if file_exists {
            return Err(ConfigurationError::ConfigurationFileExists(file));
        }
        let create_dir = if dir_exists {
            None
        } else {
            Some(dir)
        };
        Ok(CreatePlan { create_dir, file })
    }

    /// The file to overwrite to change the configuration, given whether it
    /// is on disk. A file that is missing is not created.
    pub fn try_update(file: String, file_exists: bool) -> (r: Result<String, ConfigurationError>)
        ensures
            r == if file_exists {
                Ok::<String, ConfigurationError>(file)
            } else {
                Err::<String, ConfigurationError>(
                    ConfigurationError::ConfigurationFileDoesNotExists(file),
                )
            },
    {
        if !file_exists {
            return Err(ConfigurationError::ConfigurationFileDoesNotExists(file));
        }
        Ok(file)
    }

    /// The text of the configuration file: the notice that the file is
    /// generated, then the configuration as it was serialised.
    pub fn write(serialised: &str) -> (text: String)
        ensures
            text@ == GENERATED_NOTICE@ + serialised@,
    {
        let notice = String::from_str(GENERATED_NOTICE);
        notice.concat(serialised)
    }

    /// What the engine is set up with.
    pub fn settings(&self) -> (settings: Settings)
        ensures
            settings.address@ == self.node_config.address@,
    {
        Settings { address: self.node_config.address.clone() }
    }

    /// The quorum policy the configuration asks for.
    pub fn quorum_policy(&self) -> (policy: BasicQuorum)
        ensures
            policy.threshold_size == self.quorum.quorum_threshold_size,
            policy.cluster_size == self.quorum.cluster_size,
    {
        BasicQuorum::new(self.quorum.quorum_threshold_size, self.quorum.cluster_size)
    }
}

} // verus!
