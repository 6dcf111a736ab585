//! What can be configured: how often the store may be flushed, and how many
//! workers run blocking operations.

use crate::db_sync::MIN_SYNC_INTERVAL;
use vstd::prelude::*;

verus! {

/// The options of the core.
#[derive(Debug, Clone, Copy)]
pub struct Config {
    /// The minimum time between two flushes, in milliseconds.
    pub min_sync_interval: u64,
    /// The size of the worker pool; where none is given, the pool is as large
    /// as the machine's parallelism.
    pub pool_size: Option<usize>,
}

impl Default for Config {
    /// Two seconds between flushes, and a pool as large as the machine's
    /// parallelism.
    fn default() -> (config: Config)
        ensures
            config.min_sync_interval == MIN_SYNC_INTERVAL,
            config.pool_size is None,
    {
        Config { min_sync_interval: MIN_SYNC_INTERVAL, pool_size: None }
    }
}

impl Config {
    /// The number of workers to start on a machine that runs `available`
    /// threads in parallel.
    pub fn workers(&self, available: usize) -> (workers: usize)
        ensures
            workers == match self.pool_size {
                Some(size) => size,
                None => available,
            },
    {
        match self.pool_size {
            Some(size) => size,
            None => available,
        }
    }
}

} // verus!
