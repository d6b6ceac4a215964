//! Configuration types: what the controller is configured with, where the
//! configuration came from, and the errors met while loading it.

use vstd::prelude::*;
use crate::algorithm::Algorithm;

verus! {

/// An error met while locating, reading or writing the configuration.
#[derive(Debug, Clone)]
pub enum ConfigError {
    /// The file at the first path did not parse; the second is the reason.
    ParseError(String, String),
    /// Reading or copying the file failed.
    FileIOError(String, String),
    /// No configuration file was found.
    FileNotFoundError(),
    /// The configuration could not be serialised.
    SerializationError(String),
    /// A configuration file already exists where one was to be created.
    FileAlreadyExistsError(),
}

/// The text shown for a configuration error.
pub open spec fn config_error_text(e: ConfigError) -> Seq<char> {
    match e {
        ConfigError::ParseError(file, msg) => "Error parsing configuration file at "@ + file@ + " - "@ + msg@,
        ConfigError::FileIOError(file, msg) => msg@ + " "@ + file@,
        ConfigError::FileNotFoundError() => "Could not find a valid epic-miner.toml!"@,
        ConfigError::SerializationError(msg) => "Error serializing configuration: "@ + msg@,
        ConfigError::FileAlreadyExistsError() =>
            "It's not possible to create a new epic-miner.toml, a file with the same name already exists in this folder!"@,
    }
}

impl ConfigError {
    /// The text shown for this error.
    pub fn to_string(&self) -> (r: String)
        ensures
            r@ == config_error_text(*self),
    {
        match self {
            ConfigError::ParseError(file, msg) => {
                let mut s = String::from_str("Error parsing configuration file at ");
                s.append(file.as_str());
                s.append(" - ");
                s.append(msg.as_str());
                s
            },
            ConfigError::FileIOError(file, msg) => {
                let mut s = msg.clone();
                s.append(" ");
                s.append(file.as_str());
                s
            },
            ConfigError::FileNotFoundError() => String::from_str("Could not find a valid epic-miner.toml!"),
            ConfigError::SerializationError(msg) => {
                let mut s = String::from_str("Error serializing configuration: ");
                s.append(msg.as_str());
                s
            },
            ConfigError::FileAlreadyExistsError() => String::from_str(
                "It's not possible to create a new epic-miner.toml, a file with the same name already exists in this folder!",
            ),
        }
    }
}

/// The mining settings the controller is built from.
#[derive(Debug, Clone)]
pub struct MinerConfig {
    pub algorithm: Algorithm,
    pub stratum_server_addr: String,
    pub stratum_server_login: Option<String>,
    pub stratum_server_password: Option<String>,
    pub stratum_server_tls_enabled: Option<bool>,
}

/// The sections of a configuration file.
#[derive(Debug, Clone)]
pub struct ConfigMembers {
    pub mining: MinerConfig,
}

/// The configuration in use and where it came from.
#[derive(Debug, Clone)]
pub struct GlobalConfig {
    /// The file the configuration was read from, if any.
    pub config_file_path: Option<String>,
    /// Whether the members come from a file rather than the defaults.
    pub using_config_file: bool,
    pub members: Option<ConfigMembers>,
}

impl Default for MinerConfig {
    fn default() -> (r: MinerConfig)
        ensures
            r.algorithm == Algorithm::Cuckoo,
            r.stratum_server_addr@ == "127.0.0.1:3416"@,
            r.stratum_server_login is None,
            r.stratum_server_password is None,
            r.stratum_server_tls_enabled is None,
    {
        MinerConfig {
            algorithm: Algorithm::Cuckoo,
            stratum_server_addr: String::from_str("127.0.0.1:3416"),
            stratum_server_login: None,
            stratum_server_password: None,
            stratum_server_tls_enabled: None,
        }
    }
}

impl Default for ConfigMembers {
    fn default() -> (r: ConfigMembers)
        ensures
            r.mining.algorithm == Algorithm::Cuckoo,
            r.mining.stratum_server_addr@ == "127.0.0.1:3416"@,
            r.mining.stratum_server_login is None,
            r.mining.stratum_server_password is None,
            r.mining.stratum_server_tls_enabled is None,
    {
        ConfigMembers { mining: MinerConfig::default() }
    }
}

impl Default for GlobalConfig {
    fn default() -> (r: GlobalConfig)
        ensures
            r.config_file_path is None,
            !r.using_config_file,
            r.members is Some,
            r.members->Some_0.mining.algorithm == Algorithm::Cuckoo,
            r.members->Some_0.mining.stratum_server_addr@ == "127.0.0.1:3416"@,
    {
        GlobalConfig {
            config_file_path: None,
            using_config_file: false,
            members: Some(ConfigMembers::default()),
        }
    }
}

/// The index of the first candidate that exists, if any.
pub open spec fn first_existing(candidates: Seq<(String, bool)>, i: int) -> Option<int>
    decreases candidates.len() - i,
{
    if i < 0 || i >= candidates.len() {
        None
    } else if candidates[i].1 {
        Some(i)
    } else {
        first_existing(candidates, i + 1)
    }
}

impl GlobalConfig {
    /// Settles on the first of the candidate locations that exists, in
    /// order of preference; each candidate is a path and whether it exists.
    pub fn select_config_location(&mut self, candidates: &Vec<(String, bool)>) -> (r: Result<(), ConfigError>)
        ensures
            match first_existing(candidates@, 0) {
                Some(i) => r is Ok && final(self).config_file_path == Some(candidates@[i].0),
                None => r is Err && r->Err_0 is FileNotFoundError && final(self).config_file_path
                    == old(self).config_file_path,
            },
            final(self).using_config_file == old(self).using_config_file,
            final(self).members == old(self).members,
    {
        let mut i: usize = 0;
        while i < candidates.len()
            invariant
                0 <= i <= candidates@.len(),
                first_existing(candidates@, i as int) == first_existing(candidates@, 0),
                *self == *old(self),
            decreases candidates@.len() - i,
        {
            if candidates[i].1 {
                self.config_file_path = Some(candidates[i].0.clone());
                return Ok(());
            }
            i = i + 1;
        }
        Err(ConfigError::FileNotFoundError())
    }
}

} // verus!
