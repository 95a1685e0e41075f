use vstd::prelude::*;

verus! {

/// Why loading the configuration failed.
#[derive(Debug)]
pub enum ConfigError {
    /// A mandatory variable was absent; `name` says which.
    LoadEnvError { name: String },
}

/// The process configuration: both values are mandatory.
#[derive(Debug, Clone, PartialEq, Eq)]
pub struct Config {
    pub server_port: String,
    pub database_url: String,
}

impl Config {
    /// Builds the configuration from the two looked-up environment
    /// values, failing fast on the first absent one.
    pub fn from_env(server_port: Option<String>, database_url: Option<String>) -> (r: Result<
        Config,
        ConfigError,
    >)
        ensures
            server_port is Some && database_url is Some ==> (r matches Ok(c) && c.server_port
                == server_port->0 && c.database_url == database_url->0),
            server_port is None ==> (r matches Err(e) && e matches ConfigError::LoadEnvError {
                name,
            } && name@ == "SERVER_PORT"@),
            server_port is Some && database_url is None ==> (r matches Err(e) && e matches
                ConfigError::LoadEnvError { name } && name@ == "DATABASE_URL"@),
    {
        let server_port = match server_port {
            Some(p) => p,
            None => {
                return Err(ConfigError::LoadEnvError { name: "SERVER_PORT".to_owned() });
            },
        };
        let database_url = match database_url {
            Some(u) => u,
            None => {
                return Err(ConfigError::LoadEnvError { name: "DATABASE_URL".to_owned() });
            },
        };
        Ok(Config { server_port, database_url })
    }
}

} // verus!
