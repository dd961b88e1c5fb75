use vstd::prelude::*;

verus! {

/// The number of resources a pool keeps open at most when nothing else is said.
pub const DEFAULT_POOL_SIZE: usize = 10;

/// How a pool is set up: the most resources it keeps open at once, idle and
/// lent together.
pub struct Config {
    pub(crate) pool_size: usize,
}

impl Config {
    /// The configured ceiling on open resources.
    pub open(crate) spec fn spec_pool_size(&self) -> nat {
        self.pool_size as nat
    }

    /// A configuration with the given ceiling, which must be positive.
    pub fn new(pool_size: usize) -> (c: Config)
        requires
            pool_size > 0,
        ensures
            c.spec_pool_size() == pool_size,
    {
        Config { pool_size }
    }

    /// The configured ceiling on open resources.
    pub fn pool_size(&self) -> (n: usize)
        ensures
            n == self.spec_pool_size(),
    {
        self.pool_size
    }
}

impl Default for Config {
    /// A pool of ten resources.
    fn default() -> (c: Config)
        ensures
            c.spec_pool_size() == DEFAULT_POOL_SIZE,
    {
        Config { pool_size: DEFAULT_POOL_SIZE }
    }
}

} // verus!
