//! The bot's configuration, read from a TOML file at start-up.

use vstd::prelude::*;

verus! {

/// The configuration: the bot's Discord token.
pub struct Config {
    pub token: String,
}

/// The token a fresh configuration file holds, for the user to replace.
pub open spec fn placeholder_token() -> Seq<char> {
    "insert_token_here"@
}

impl Config {
    /// The configuration written to an empty configuration file.
    pub fn default_config() -> (config: Config)
        ensures
            config.token@ == placeholder_token(),
    {
        Config { token: String::from_str("insert_token_here") }
    }

    /// Start-up with the text of the configuration file: read it, or, when
    /// it is empty, fill it with the default configuration.
    pub fn new(contents: &str) -> (step: ConfigLoad)
        ensures
            contents@.len() == 0 ==> (step matches ConfigLoad::WriteDefault(config) && config.token@
                == placeholder_token()),
            contents@.len() != 0 ==> step is Parse,
    {
        if contents.is_empty() {
            ConfigLoad::WriteDefault(Config::default_config())
        } else {
            ConfigLoad::Parse
        }
    }
}

impl Config {
    /// Start-up with `talky.toml`: read it when it exists, else create it
    /// with the default configuration and stop.
    pub fn startup(file_exists: bool) -> (step: ConfigLoad)
        ensures
            file_exists ==> step is Parse,
            !file_exists ==> (step matches ConfigLoad::WriteDefault(config) && config.token@
                == placeholder_token()),
    {
        if file_exists {
            ConfigLoad::Parse
        } else {
            ConfigLoad::WriteDefault(Config::default_config())
        }
    }
}

/// What start-up does with the configuration file.
pub enum ConfigLoad {
    /// The file is empty: write this configuration to it and stop, so that
    /// the user can fill it in.
    WriteDefault(Config),
    /// Read the configuration from the text.
    Parse,
}

} // verus!
