use vstd::prelude::*;

use crate::model::{Acquire, PoolEvent, PoolModel};

verus! {

broadcast use vstd::seq_lib::group_to_multiset_ensures;

/// Whatever events a pool goes through, it stays well formed, and the idle
/// resources together with those lent out never exceed the ceiling; with the
/// creations under way counted in, neither do they. Since a creation reserves
/// its slot before it starts, racing creations cannot overshoot the ceiling.
pub proof fn lemma_capacity_never_exceeded<C, W>(m: PoolModel<C, W>, es: Seq<PoolEvent<C, W>>)
    requires
        m.wf(),
    ensures
        m.run(es).wf(),
        m.run(es).idle.len() + m.run(es).lent <= m.run(es).pool_size,
        m.run(es).pool_size == m.pool_size,
    decreases es.len(),
{
    if es.len() > 0 {
        lemma_step_keeps_wf(m, es[0]);
        lemma_capacity_never_exceeded(m.step(es[0]), es.drop_first());
    }
}

/// One event keeps a pool well formed and leaves its ceiling as it was.
pub proof fn lemma_step_keeps_wf<C, W>(m: PoolModel<C, W>, e: PoolEvent<C, W>)
    requires
        m.wf(),
    ensures
        m.step(e).wf(),
        m.step(e).pool_size == m.pool_size,
{
}

/// Waiters are woken in the order they were queued: when waiter `a` is
/// queued strictly before waiter `b`, with no return in between, a resource
/// that then comes back wakes the front of the queue, which is `a` when no one
/// waited before; `b` stays queued behind it.
pub proof fn lemma_waiters_woken_in_order<C, W>(m: PoolModel<C, W>, a: W, b: W, c: C)
    requires
        m.wf(),
        m.lent > 0,
        m.idle.len() == 0,
        m.live() >= m.pool_size,
    ensures
        ({
            let (m1, s1) = m.acquire(a);
            let (m2, s2) = m1.acquire(b);
            let (m3, woken) = m2.give_back(c);
            &&& s1 == Acquire::<C>::Blocked
            &&& s2 == Acquire::<C>::Blocked
            &&& m2.waiters == m.waiters.push(a).push(b)
            &&& woken == Some(m2.waiters[0])
            &&& m3.waiters == m2.waiters.drop_first()
            &&& m.waiters.len() == 0 ==> woken == Some(a) && m3.waiters == seq![b]
        }),
{
    let (m1, s1) = m.acquire(a);
    let (m2, s2) = m1.acquire(b);
    let (m3, woken) = m2.give_back(c);
    if m.waiters.len() == 0 {
        assert(m3.waiters =~= seq![b]);
    }
}

/// Taking an idle resource and handing it straight back leaves the lent count,
/// the creations under way and the waiter queue as they were, and the idle
/// resources the same collection: the one taken from the front rejoins at the
/// back. With a single idle resource the whole state is as it was.
pub proof fn lemma_lend_and_return<C, W>(m: PoolModel<C, W>, w: W)
    requires
        m.wf(),
        m.idle.len() > 0,
        m.waiters.len() == 0,
    ensures
        ({
            let (m1, step) = m.acquire(w);
            let (m2, woken) = m1.settle(Some(m.idle[0]));
            &&& step == Acquire::Ready(m.idle[0])
            &&& woken.is_none()
            &&& m2.lent == m.lent
            &&& m2.creating == m.creating
            &&& m2.waiters == m.waiters
            &&& m2.pool_size == m.pool_size
            &&& m2.idle == m.idle.drop_first().push(m.idle[0])
            &&& m2.idle.to_multiset() == m.idle.to_multiset()
            &&& m.idle.len() == 1 ==> m2 == m
        }),
{
    let (m1, step) = m.acquire(w);
    let (m2, woken) = m1.settle(Some(m.idle[0]));
    let x = m.idle[0];
    assert(m.idle.drop_first() =~= m.idle.remove(0));
    assert(m.idle.to_multiset().remove(x).insert(x) =~= m.idle.to_multiset());
    if m.idle.len() == 1 {
        assert(m2.idle =~= m.idle);
    }
}

/// A unit of work that fails without handing its resource back loses it: one
/// fewer is lent, the idle queue is left as it was, and since nothing came
/// back the waiter queue is left as it was and no one is woken.
pub proof fn lemma_loss_accounting<C, W>(m: PoolModel<C, W>)
    requires
        m.wf(),
        m.lent > 0,
    ensures
        m.settle(None).0.lent == m.lent - 1,
        m.settle(None).0.idle == m.idle,
        m.settle(None).0.waiters == m.waiters,
        m.settle(None).1.is_none(),
        m.settle(None).0.wf(),
{
}

/// An acquisition that finds nothing idle and no room queues its waiter at
/// the back, and changes nothing else, so waiters are woken in the order
/// they were queued.
pub proof fn lemma_blocked_waiter_queued_at_back<C, W>(m: PoolModel<C, W>, w: W)
    requires
        m.wf(),
        m.idle.len() == 0,
        m.live() >= m.pool_size,
    ensures
        m.acquire(w).1 == Acquire::<C>::Blocked,
        m.acquire(w).0 == (PoolModel { waiters: m.waiters.push(w), ..m }),
{
}

/// A resource that comes back wakes the longest-waiting caller and leaves the
/// rest queued; when that caller advances its acquisition next, it is handed
/// the front idle resource, which is the returned one when nothing else was
/// idle.
pub proof fn lemma_woken_waiter_served<C, W>(m: PoolModel<C, W>, c: C)
    requires
        m.wf(),
        m.lent > 0,
        m.waiters.len() > 0,
    ensures
        ({
            let (m1, woken) = m.give_back(c);
            let (m2, step) = m1.acquire(m.waiters[0]);
            &&& woken == Some(m.waiters[0])
            &&& m1.waiters == m.waiters.drop_first()
            &&& m1.idle == m.idle.push(c)
            &&& step == Acquire::Ready(m.idle.push(c)[0])
            &&& m.idle.len() == 0 ==> step == Acquire::Ready(c)
            &&& m2.wf()
        }),
{
}

} // verus!
