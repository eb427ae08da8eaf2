//! The host's configuration.

use vstd::prelude::*;
use crate::error::FileRead;
use crate::text::{concat2, owned};

verus! {

/// Where the host listens, where it finds its modules and its socket, and
/// how much it logs.
#[derive(Debug, Clone)]
pub struct Config {
    pub host: String,
    pub port: u16,
    pub modules_dir: String,
    pub socket_path: String,
    pub log_level: String,
}

/// The configuration used where no file gives one.
pub open spec fn is_default_config(c: Config) -> bool {
    &&& c.host@ == "127.0.0.1"@
    &&& c.port == 8001
    &&& c.modules_dir@ == "./modules"@
    &&& c.socket_path@ == "/tmp/alpee-core.sock"@
    &&& c.log_level@ == "info"@
}

impl Default for Config {
    fn default() -> (res: Self)
        ensures
            is_default_config(res),
    {
        Config {
            host: owned("127.0.0.1"),
            port: 8001,
            modules_dir: owned("./modules"),
            socket_path: owned("/tmp/alpee-core.sock"),
            log_level: owned("info"),
        }
    }
}

impl Config {
    /// The configuration that reading `alpee.toml` gives: the default where
    /// the file is absent, its contents where they parse, and otherwise the
    /// reason, prefixed by what failed.
    pub fn from_file(read: FileRead<Config>) -> (res: Result<Config, String>)
        ensures
            match read {
                FileRead::Missing => res matches Ok(c) && is_default_config(c),
                FileRead::Unreadable(why) => res matches Err(e)
                    && e@ == "Failed to read alpee.toml: "@ + why@,
                FileRead::Malformed(why) => res matches Err(e)
                    && e@ == "Failed to parse alpee.toml: "@ + why@,
                FileRead::Parsed(c) => res == Ok::<Config, String>(c),
            },
    {
        match read {
            FileRead::Missing => Ok(Config::default()),
            FileRead::Unreadable(why) => Err(concat2("Failed to read alpee.toml: ", why.as_str())),
            FileRead::Malformed(why) => Err(concat2("Failed to parse alpee.toml: ", why.as_str())),
            FileRead::Parsed(c) => Ok(c),
        }
    }
}

} // verus!
