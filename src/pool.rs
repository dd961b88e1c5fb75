use std::collections::VecDeque;
use vstd::prelude::*;

use crate::config::Config;
use crate::model::{Acquire, PoolModel};

verus! {

/// The state of one pool: its configuration, the idle resources in queue
/// order, the suspended callers in arrival order, the number of resources lent
/// out and the number of creations under way.
///
/// A creation reserves its slot before it starts, so two acquisitions that both
/// see room cannot open more resources together than the ceiling allows.
///
/// `C` is the resource; `W` is the token by which a suspended caller is woken.
pub struct InnerPool<C, W> {
    config: Config,
    conns: VecDeque<C>,
    blocked: VecDeque<W>,
    lent: usize,
    connecting: usize,
}

impl<C, W> View for InnerPool<C, W> {
    type V = PoolModel<C, W>;

    closed spec fn view(&self) -> PoolModel<C, W> {
        PoolModel {
            idle: self.conns@,
            waiters: self.blocked@,
            lent: self.lent as nat,
            creating: self.connecting as nat,
            pool_size: self.config.spec_pool_size(),
        }
    }
}

impl<C, W> InnerPool<C, W> {
    /// The pool keeps its model well formed: the open resources stay under a
    /// positive ceiling.
    pub open spec fn wf(&self) -> bool {
        self@.wf()
    }

    /// An empty pool with the given configuration.
    pub fn new(config: Config) -> (p: Self)
        requires
            config.spec_pool_size() > 0,
        ensures
            p.wf(),
            p@ == PoolModel::<C, W>::empty(config.spec_pool_size()),
    {
        InnerPool { config, conns: VecDeque::new(), blocked: VecDeque::new(), lent: 0, connecting: 0 }
    }

    /// The configured ceiling on open resources.
    pub fn pool_size(&self) -> (n: usize)
        ensures
            n == self@.pool_size,
    {
        self.config.pool_size()
    }

    /// The resources open or being opened: idle, lent, and under creation.
    pub fn live_conns(&self) -> (n: usize)
        requires
            self.wf(),
        ensures
            n == self@.live(),
    {
        proof { self.lemma_view_fits(); }
        self.conns.len() + self.lent + self.connecting
    }

    /// The number of idle resources.
    pub fn idle_count(&self) -> (n: usize)
        ensures
            n == self@.idle.len(),
    {
        proof { self.lemma_view_fits(); }
        self.conns.len()
    }

    /// The number of resources lent out.
    pub fn lent_count(&self) -> (n: usize)
        ensures
            n == self@.lent,
    {
        proof { self.lemma_view_fits(); }
        self.lent
    }

    /// The number of creations under way.
    pub fn creating_count(&self) -> (n: usize)
        ensures
            n == self@.creating,
    {
        proof { self.lemma_view_fits(); }
        self.connecting
    }

    /// The number of suspended callers.
    pub fn waiting_count(&self) -> (n: usize)
        ensures
            n == self@.waiters.len(),
    {
        proof { self.lemma_view_fits(); }
        self.blocked.len()
    }

    proof fn lemma_view_fits(&self)
        ensures
            self@.idle.len() == self.conns@.len(),
            self@.waiters.len() == self.blocked@.len(),
            self@.lent == self.lent,
            self@.creating == self.connecting,
            self@.pool_size == self.config.spec_pool_size(),
            self.config.spec_pool_size() <= usize::MAX,
    {
    }

    /// Take the longest-waiting caller off the queue, if any.
    fn wake_one(&mut self) -> (woken: Option<W>)
        ensures
            (final(self)@, woken) == old(self)@.wake(),
    {
        self.blocked.pop_front()
    }

    /// Advance an acquisition on behalf of `waiter`: hand out the front idle
    /// resource, or reserve a slot for a creation, or queue `waiter` at the
    /// back until a resource or a slot comes free. A woken caller calls this
    /// again, since another caller may have taken what came free.
    ///
    /// Queued waiters are never taken off the queue but by a wake. An
    /// acquisition that is dropped while parked leaves its entry queued, and a
    /// wake that later reaches that entry is lost to the callers behind it; a
    /// caller polled again while still parked is queued once more.
    pub fn poll(&mut self, waiter: W) -> (step: Acquire<C>)
        requires
            old(self).wf(),
        ensures
            final(self).wf(),
            (final(self)@, step) == old(self)@.acquire(waiter),
            step is Blocked ==> {
                &&& final(self)@.waiters == old(self)@.waiters.push(waiter)
                &&& final(self)@.idle == old(self)@.idle
                &&& final(self)@.lent == old(self)@.lent
                &&& final(self)@.creating == old(self)@.creating
            },
    {
        proof { self.lemma_view_fits(); }
        match self.conns.pop_front() {
            Some(conn) => {
                self.lent = self.lent + 1;
                Acquire::Ready(conn)
            },
            None => {
                if self.conns.len() + self.lent + self.connecting >= self.config.pool_size() {
                    self.blocked.push_back(waiter);
                    Acquire::Blocked
                } else {
                    self.connecting = self.connecting + 1;
                    Acquire::Create
                }
            },
        }
    }

    /// A creation started by `poll` succeeded: its resource is now lent to the
    /// caller that created it.
    pub fn connected(&mut self)
        requires
            old(self).wf(),
            old(self)@.creating > 0,
        ensures
            final(self).wf(),
            final(self)@ == old(self)@.created(),
    {
        proof { self.lemma_view_fits(); }
        self.connecting = self.connecting - 1;
        self.lent = self.lent + 1;
    }

    /// A creation started by `poll` failed: its slot is freed, and the
    /// longest-waiting caller, if any, is returned to be woken.
    pub fn connect_failed(&mut self) -> (woken: Option<W>)
        requires
            old(self).wf(),
            old(self)@.creating > 0,
        ensures
            final(self).wf(),
            (final(self)@, woken) == old(self)@.create_failed(),
    {
        proof { self.lemma_view_fits(); }
        self.connecting = self.connecting - 1;
        self.wake_one()
    }

    /// A lent resource comes back to the back of the idle queue, and the
    /// longest-waiting caller, if any, is returned to be woken.
    pub fn return_conn(&mut self, conn: C) -> (woken: Option<W>)
        requires
            old(self).wf(),
            old(self)@.lent > 0,
        ensures
            final(self).wf(),
            (final(self)@, woken) == old(self)@.give_back(conn),
    {
        proof { self.lemma_view_fits(); }
        self.conns.push_back(conn);
        self.lent = self.lent - 1;
        self.wake_one()
    }

    /// A lent resource is gone for good: one fewer is lent, while the idle
    /// queue and the waiter queue are left as they were and no one is woken.
    pub fn apologize(&mut self) -> (woken: Option<W>)
        requires
            old(self).wf(),
            old(self)@.lent > 0,
        ensures
            final(self).wf(),
            final(self)@.lent == old(self)@.lent - 1,
            final(self)@.idle == old(self)@.idle,
            final(self)@.waiters == old(self)@.waiters,
            woken.is_none(),
            (final(self)@, woken) == old(self)@.lose(),
    {
        proof { self.lemma_view_fits(); }
        self.lent = self.lent - 1;
        None
    }

    /// Settle the outcome of a unit of work that held a lent resource. On
    /// success the resource comes back and the value is handed on. On failure
    /// the resource comes back if the work still vouches for it, and is lost
    /// otherwise; the error is handed on. Also returned: the caller to wake,
    /// if a resource came back and someone waits.
    pub fn settle<T, E>(&mut self, outcome: Result<(T, C), (E, Option<C>)>) -> (r: (
        Result<T, E>,
        Option<W>,
    ))
        requires
            old(self).wf(),
            old(self)@.lent > 0,
        ensures
            final(self).wf(),
            match outcome {
                Ok((v, c)) => r.0 == Ok::<T, E>(v) && (final(self)@, r.1) == old(self)@.settle(
                    Some(c),
                ),
                Err((e, kept)) => r.0 == Err::<T, E>(e) && (final(self)@, r.1) == old(
                    self,
                )@.settle(kept),
            },
    {
        match outcome {
            Ok((v, c)) => {
                let woken = self.return_conn(c);
                (Ok(v), woken)
            },
            Err((e, kept)) => {
                let woken = match kept {
                    Some(c) => self.return_conn(c),
                    None => self.apologize(),
                };
                (Err(e), woken)
            },
        }
    }
}

} // verus!
