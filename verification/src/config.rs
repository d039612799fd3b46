//! The configuration parameters for the service.
//!
//! The surrounding process reads these from its command line or environment
//! and hands them over as plain values.

use vstd::prelude::*;

verus! {

/// Connection parameters: the backing store's URL, the port the caller's
/// HTTP layer listens on, and the message transport's URL.
pub struct Config {
    pub database_url: String,
    pub port: Option<u16>,
    pub nats_url: String,
}

impl Config {
    pub fn new(database_url: String, port: Option<u16>, nats_url: String) -> (r: Config)
        ensures
            r.database_url == database_url,
            r.port == port,
            r.nats_url == nats_url,
    {
        Config { database_url, port, nats_url }
    }
}

} // verus!
