//! Administrative API surface: the server configuration and key-value
//! store handle that the HTTP endpoints serve. The endpoint wiring
//! itself (filters, sockets) belongs to the server runtime outside this
//! crate.

use vstd::prelude::*;

verus! {

/// Configuration consumed by the administrative endpoints.
#[derive(Debug)]
pub struct Config {
    pub http_api_address: String,
}

impl Clone for Config {
    fn clone(&self) -> (r: Self)
        ensures
            r == *self,
    {
        Config { http_api_address: self.http_api_address.clone() }
    }
}

/// In-memory key-value store served by the administrative API.
#[derive(Debug)]
pub struct KvStore {
    pub entries: Vec<(String, String)>,
}

impl KvStore {
    /// A fresh, empty store.
    pub fn create() -> (r: Self)
        ensures
            r.entries@.len() == 0,
    {
        KvStore { entries: Vec::new() }
    }
}

/// Pairs the configuration with the key-value store the administrative
/// endpoints operate on.
#[derive(Debug)]
pub struct Router {
    pub cfg: Config,
    pub kv: KvStore,
}

impl Router {
    /// A router over `cfg` with a fresh key-value store.
    pub fn create(cfg: Config) -> (r: Self)
        ensures
            r.cfg == cfg,
            r.kv.entries@.len() == 0,
    {
        let kv = KvStore::create();
        Router { cfg, kv }
    }
}

} // verus!
