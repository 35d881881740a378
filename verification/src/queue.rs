//! The queue of actions waiting to be run, first in, first out.

use vstd::prelude::*;
use std::collections::VecDeque;
use crate::clock::{Instant, now};
use crate::command::{Action, ActionIssuer};

verus! {

/// An action with the instant it was issued and who issued it.
#[derive(Debug)]
pub struct DeferredAction {
    pub action: Action,
    pub issued_at: Instant,
    pub issuer: ActionIssuer,
}

/// Actions waiting to be run, oldest first.
#[derive(Debug)]
pub struct ActionQueue {
    inner: VecDeque<DeferredAction>,
}

/// What dequeuing from a queue holding `items` gives: the oldest item, and
/// the items that stay.
pub open spec fn dequeue_result(items: Seq<DeferredAction>) -> (Option<DeferredAction>, Seq<
    DeferredAction,
>) {
    if items.len() == 0 {
        (None, items)
    } else {
        (Some(items[0]), items.drop_first())
    }
}

impl ActionQueue {
    /// The waiting actions, oldest first.
    pub closed spec fn spec_items(&self) -> Seq<DeferredAction> {
        self.inner@
    }

    /// An empty queue.
    pub fn new() -> (res: ActionQueue)
        ensures
            res.spec_items() == Seq::<DeferredAction>::empty(),
    {
        ActionQueue { inner: VecDeque::new() }
    }

    /// Queues `action`, issued now by `issuer`.
    pub fn enqueue_now(&mut self, action: Action, issuer: ActionIssuer)
        ensures
            final(self).spec_items().len() == old(self).spec_items().len() + 1,
            final(self).spec_items().drop_last() == old(self).spec_items(),
            final(self).spec_items().last().action == action,
            final(self).spec_items().last().issuer == issuer,
    {
        let issued_at = now();
        self.enqueue_deferred(DeferredAction { action, issued_at, issuer });
    }

    /// Queues `action`, issued at `issued_at` by `issuer`.
    pub fn enqueue_at(&mut self, action: Action, issued_at: Instant, issuer: ActionIssuer)
        ensures
            final(self).spec_items() == old(self).spec_items().push(
                DeferredAction { action, issued_at, issuer },
            ),
    {
        self.enqueue_deferred(DeferredAction { action, issued_at, issuer });
    }

    /// Queues `action` behind the waiting ones.
    pub fn enqueue_deferred(&mut self, action: DeferredAction)
        ensures
            final(self).spec_items() == old(self).spec_items().push(action),
    {
        self.inner.push_back(action);
    }

    /// Takes the oldest waiting action, if there is one.
    pub fn dequeue(&mut self) -> (res: Option<DeferredAction>)
        ensures
            (res, final(self).spec_items()) == dequeue_result(old(self).spec_items()),
    {
        let res = self.inner.pop_front();
        proof {
            if old(self).spec_items().len() > 0 {
                assert(self.inner@ =~= old(self).spec_items().drop_first());
            }
        }
        res
    }

    /// No action is waiting.
    pub fn is_empty(&self) -> (res: bool)
        ensures
            res == (self.spec_items().len() == 0),
    {
        self.inner.len() == 0
    }
}

impl Default for ActionQueue {
    fn default() -> (res: ActionQueue)
        ensures
            res.spec_items() == Seq::<DeferredAction>::empty(),
    {
        ActionQueue::new()
    }
}

/// Law: the queue is first in, first out: an action queued behind others
/// comes out only after them, and an action queued on an empty queue comes
/// out next.
pub proof fn law_queue_fifo(items: Seq<DeferredAction>, item: DeferredAction)
    ensures
        items.len() == 0 ==> dequeue_result(items.push(item)) == (
            Some(item),
            Seq::<DeferredAction>::empty(),
        ),
        items.len() > 0 ==> dequeue_result(items.push(item)) == (
            Some(items[0]),
            dequeue_result(items).1.push(item),
        ),
{
    if items.len() == 0 {
        assert(items.push(item).drop_first() =~= Seq::<DeferredAction>::empty());
    } else {
        assert(items.push(item).drop_first() =~= items.drop_first().push(item));
    }
}

/// The queue and the dequeue results after the calls `calls` on a queue
/// holding `items`: `Some(d)` queues `d` (as every enqueue method does, with
/// the action it builds), `None` dequeues. The results hold one entry per
/// dequeue, `None` where the queue was empty.
pub open spec fn run_calls(items: Seq<DeferredAction>, calls: Seq<Option<DeferredAction>>) -> (Seq<
    DeferredAction,
>, Seq<Option<DeferredAction>>)
    decreases calls.len(),
{
    if calls.len() == 0 {
        (items, Seq::empty())
    } else {
        let (q, outs) = run_calls(items, calls.drop_last());
        match calls.last() {
            Some(d) => (q.push(d), outs),
            None => (dequeue_result(q).1, outs.push(dequeue_result(q).0)),
        }
    }
}

/// The actions that the calls queue, in order.
pub open spec fn queued_by(calls: Seq<Option<DeferredAction>>) -> Seq<DeferredAction>
    decreases calls.len(),
{
    if calls.len() == 0 {
        Seq::empty()
    } else {
        match calls.last() {
            Some(d) => queued_by(calls.drop_last()).push(d),
            None => queued_by(calls.drop_last()),
        }
    }
}

/// The actions that dequeue results hand out, in order (the empty results
/// left out).
pub open spec fn handed_out(outs: Seq<Option<DeferredAction>>) -> Seq<DeferredAction>
    decreases outs.len(),
{
    if outs.len() == 0 {
        Seq::empty()
    } else {
        match outs.last() {
            Some(d) => handed_out(outs.drop_last()).push(d),
            None => handed_out(outs.drop_last()),
        }
    }
}

/// Law: the queue is first in, first out over any interleaving of calls:
/// what the dequeues hand out, followed by what is still waiting, is what
/// was waiting at the start followed by everything queued, in order. So the
/// k-th dequeue that gives an action gives the k-th action queued (on a
/// queue that starts empty), and no more actions are handed out than were
/// queued.
pub proof fn law_queue_fifo_calls(items: Seq<DeferredAction>, calls: Seq<Option<DeferredAction>>)
    ensures
        handed_out(run_calls(items, calls).1) + run_calls(items, calls).0 == items + queued_by(calls),
        forall|k: int|
            0 <= k < handed_out(run_calls(items, calls).1).len() ==> #[trigger] handed_out(
                run_calls(items, calls).1,
            )[k] == (items + queued_by(calls))[k],
        items.len() == 0 ==> handed_out(run_calls(items, calls).1).len() <= queued_by(calls).len(),
    decreases calls.len(),
{
    if calls.len() > 0 {
        let prev = calls.drop_last();
        law_queue_fifo_calls(items, prev);
        let (q, outs) = run_calls(items, prev);
        match calls.last() {
            Some(d) => {
                assert(handed_out(outs) + q.push(d) =~= (handed_out(outs) + q).push(d));
                assert(items + queued_by(prev).push(d) =~= (items + queued_by(prev)).push(d));
            },
            None => {
                if q.len() == 0 {
                    assert(handed_out(outs.push(None::<DeferredAction>)) == handed_out(outs)) by {
                        assert(outs.push(None::<DeferredAction>).drop_last() =~= outs);
                    }
                } else {
                    let o = Some(q[0]);
                    assert(outs.push(o).drop_last() =~= outs);
                    assert(handed_out(outs).push(q[0]) + q.drop_first() =~= handed_out(outs) + q);
                }
            },
        }
    }
    let all = handed_out(run_calls(items, calls).1) + run_calls(items, calls).0;
    assert forall|k: int|
        0 <= k < handed_out(run_calls(items, calls).1).len() implies #[trigger] handed_out(
            run_calls(items, calls).1,
        )[k] == (items + queued_by(calls))[k] by {
        assert(all[k] == handed_out(run_calls(items, calls).1)[k]);
    }
}

} // verus!
