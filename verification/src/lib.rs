//! Request handling, configuration and text rules of a small subscription web service.
pub mod configuration;
pub mod error;
pub mod routes;
pub mod startup;
pub mod utils;

use vstd::prelude::*;

verus! {

/// The command-line options of the server; each one that is given overrides a setting.
#[derive(Debug)]
pub struct Opt {
    /// The log level.
    pub log_level: Option<String>,
    /// The address to listen on.
    pub addr: Option<String>,
    /// The port to listen on.
    pub port: Option<u16>,
    /// The directory where the static files are found.
    pub static_dir: Option<String>,
}

impl Default for Opt {
    fn default() -> (opt: Opt)
        ensures
            opt.log_level is None,
            opt.addr is None,
            opt.port is None,
            opt.static_dir is None,
    {
        Opt { log_level: None, addr: None, port: None, static_dir: None }
    }
}

} // verus!
