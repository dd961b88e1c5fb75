//! A pool that lends reusable, expensive-to-create resources to callers,
//! bounds how many of them are open at once, and queues callers in arrival
//! order while the bound is reached.
//!
//! The pool's bookkeeping and every decision it takes are verified here; the
//! asynchronous plumbing that runs those decisions lives around the library.

mod config;
mod laws;
mod model;
mod pool;

pub use config::{Config, DEFAULT_POOL_SIZE};
pub use model::{Acquire, PoolEvent, PoolModel};
pub use pool::InnerPool;
pub use laws::{
    lemma_blocked_waiter_queued_at_back, lemma_capacity_never_exceeded, lemma_lend_and_return,
    lemma_loss_accounting, lemma_step_keeps_wf, lemma_waiters_woken_in_order,
    lemma_woken_waiter_served,
};
