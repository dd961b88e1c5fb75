use vstd::prelude::*;

verus! {

/// What one step of an acquisition decided.
pub enum Acquire<C> {
    /// An idle resource was taken off the front of the idle queue; it is now lent.
    Ready(C),
    /// There was room under the ceiling: a slot is reserved for a resource that
    /// the caller is now to create, and to report back on.
    Create,
    /// No idle resource and no room: the waiter was queued, to be woken when a
    /// resource or a slot comes free.
    Blocked,
}

/// The abstract state of a pool: idle resources in queue order, suspended
/// callers in arrival order, the resources lent out, the creations under way
/// (each holding a reserved slot) and the configured ceiling.
pub struct PoolModel<C, W> {
    pub idle: Seq<C>,
    pub waiters: Seq<W>,
    pub lent: nat,
    pub creating: nat,
    pub pool_size: nat,
}

/// One thing that can happen to a pool.
pub enum PoolEvent<C, W> {
    /// A caller, known by its waiter token, advances an acquisition.
    Acquire(W),
    /// A creation under way succeeded; its resource goes to the caller.
    Created,
    /// A creation under way failed.
    CreateFailed,
    /// A lent resource comes back.
    Return(C),
    /// A lent resource is reported unusable.
    Lost,
}

impl<C, W> PoolModel<C, W> {
    /// The resources open or being opened: idle, lent, and under creation.
    pub open spec fn live(self) -> nat {
        self.idle.len() + self.lent + self.creating
    }

    /// A positive ceiling that the open resources never pass.
    pub open spec fn wf(self) -> bool {
        &&& self.pool_size > 0
        &&& self.live() <= self.pool_size
    }

    /// A fresh pool with the given ceiling.
    pub open spec fn empty(pool_size: nat) -> Self {
        PoolModel { idle: Seq::empty(), waiters: Seq::empty(), lent: 0, creating: 0, pool_size }
    }

    /// One advance of an acquisition on behalf of waiter `w`: take the front
    /// idle resource if there is one, else reserve a slot if the ceiling allows,
    /// else queue `w`.
    pub open spec fn acquire(self, w: W) -> (Self, Acquire<C>) {
        if self.idle.len() > 0 {
            (
                PoolModel { idle: self.idle.drop_first(), lent: self.lent + 1, ..self },
                Acquire::Ready(self.idle[0]),
            )
        } else if self.live() < self.pool_size {
            (PoolModel { creating: self.creating + 1, ..self }, Acquire::Create)
        } else {
            (PoolModel { waiters: self.waiters.push(w), ..self }, Acquire::Blocked)
        }
    }

    /// Take the longest-waiting caller off the queue, if any, to be woken.
    pub open spec fn wake(self) -> (Self, Option<W>) {
        if self.waiters.len() > 0 {
            (PoolModel { waiters: self.waiters.drop_first(), ..self }, Some(self.waiters[0]))
        } else {
            (self, None)
        }
    }

    /// A creation under way succeeded: its slot turns into a lent resource.
    pub open spec fn created(self) -> Self
        recommends
            self.creating > 0,
    {
        PoolModel { creating: (self.creating - 1) as nat, lent: self.lent + 1, ..self }
    }

    /// A creation under way failed: its slot is freed and one waiter is woken.
    pub open spec fn create_failed(self) -> (Self, Option<W>)
        recommends
            self.creating > 0,
    {
        PoolModel { creating: (self.creating - 1) as nat, ..self }.wake()
    }

    /// A lent resource comes back: it joins the back of the idle queue and one
    /// waiter is woken.
    pub open spec fn give_back(self, c: C) -> (Self, Option<W>)
        recommends
            self.lent > 0,
    {
        PoolModel { idle: self.idle.push(c), lent: (self.lent - 1) as nat, ..self }.wake()
    }

    /// A lent resource is gone for good: one fewer is lent. Nothing joins the
    /// idle queue, so no waiter is woken and the queue is left as it is.
    pub open spec fn lose(self) -> (Self, Option<W>)
        recommends
            self.lent > 0,
    {
        (PoolModel { lent: (self.lent - 1) as nat, ..self }, None)
    }

    /// After a unit of work: a resource that it still vouches for comes back,
    /// otherwise the resource is lost.
    pub open spec fn settle(self, kept: Option<C>) -> (Self, Option<W>)
        recommends
            self.lent > 0,
    {
        match kept {
            Some(c) => self.give_back(c),
            None => self.lose(),
        }
    }

    /// The state after one event. An event that the state does not allow (a
    /// return or a loss with nothing lent, an outcome with no creation under
    /// way) changes nothing, as the pool's operations do not accept it.
    pub open spec fn step(self, e: PoolEvent<C, W>) -> Self {
        match e {
            PoolEvent::Acquire(w) => self.acquire(w).0,
            PoolEvent::Created => if self.creating > 0 { self.created() } else { self },
            PoolEvent::CreateFailed => if self.creating > 0 { self.create_failed().0 } else { self },
            PoolEvent::Return(c) => if self.lent > 0 { self.give_back(c).0 } else { self },
            PoolEvent::Lost => if self.lent > 0 { self.lose().0 } else { self },
        }
    }

    /// The state after a sequence of events, in order.
    pub open spec fn run(self, es: Seq<PoolEvent<C, W>>) -> Self
        decreases es.len(),
    {
        if es.len() == 0 {
            self
        } else {
            self.step(es[0]).run(es.drop_first())
        }
    }
}

} // verus!
