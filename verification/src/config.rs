//! Startup configuration, as plain values. Reading the configuration file
//! and decoding it is I/O and lives outside the library; the library only
//! consumes the resulting values.

use vstd::prelude::*;

use std::collections::HashSet;

verus! {

/// Listener configuration.
#[derive(Debug, Clone, Copy, PartialEq, Eq, Structural)]
pub struct Service {
    pub listening_port: u16,
}

/// Connection coordinates of the primary database.
#[derive(Debug, PartialEq, Eq)]
pub struct DB {
    pub host: String,
    pub port: u16,
    pub username: String,
    pub password: String,
    pub db_name: String,
}

impl Clone for DB {
    fn clone(&self) -> (r: Self)
        ensures
            r == *self,
    {
        DB {
            host: self.host.clone(),
            port: self.port,
            username: self.username.clone(),
            password: self.password.clone(),
            db_name: self.db_name.clone(),
        }
    }
}

/// Configuration of the ingestion and swap orchestrator. The swap interval
/// is in seconds.
#[derive(Debug, PartialEq, Eq)]
pub struct Updater {
    pub db: DB,
    pub swap_interval: u64,
}

impl Clone for Updater {
    fn clone(&self) -> (r: Self)
        ensures
            r == *self,
    {
        Updater { db: self.db.clone(), swap_interval: self.swap_interval }
    }
}

/// Per-worker behavioral flags.
#[derive(Debug, Clone, Copy, PartialEq, Eq, Structural)]
pub struct Worker {
    pub need_multi: bool,
}

/// Worker-pool configuration. `non_worker_cores` names cores reserved for
/// the non-worker threads when best-effort core binding is available.
#[derive(Debug, PartialEq, Eq)]
pub struct Engine {
    pub worker: Worker,
    pub non_worker_cores: HashSet<u16>,
}

/// The whole server configuration.
#[derive(Debug, PartialEq, Eq)]
pub struct Server {
    pub service: Service,
    pub engine: Engine,
    pub updater: Updater,
}

} // verus!
