//! Ordered queue of serialized outbound items, drained toward the wire.
//!
//! The queue is strictly first-in first-out: no reordering and no
//! priority lanes, so image payloads queued before the audio of the same
//! turn stay ahead of it.  An item the sender could not put on the wire
//! is requeued at the front, never silently dropped.

use std::collections::VecDeque;

use vstd::prelude::*;

verus! {

/// A fully-serialized unit ready to send, tagged with the wire frame
/// kind that carries it: a text frame or a binary frame.
#[derive(Debug)]
pub enum OutboundItem {
    Text(String),
    Binary(Vec<u8>),
}

/// Mathematical value of an `OutboundItem`.
pub enum OutboundItemView {
    Text(Seq<char>),
    Binary(Seq<u8>),
}

impl View for OutboundItem {
    type V = OutboundItemView;

    open spec fn view(&self) -> OutboundItemView {
        match self {
            OutboundItem::Text(s) => OutboundItemView::Text(s@),
            OutboundItem::Binary(b) => OutboundItemView::Binary(b@),
        }
    }
}

/// Unbounded first-in first-out queue of outbound items.
#[derive(Debug)]
pub struct OutboundQueue {
    pub items: VecDeque<OutboundItem>,
}

impl View for OutboundQueue {
    type V = Seq<OutboundItemView>;

    open spec fn view(&self) -> Seq<OutboundItemView> {
        Seq::new(self.items@.len(), |i: int| self.items@[i]@)
    }
}

impl OutboundQueue {
    /// A fresh, empty queue.
    pub fn new() -> (r: OutboundQueue)
        ensures
            r@ == Seq::<OutboundItemView>::empty(),
    {
        let q = OutboundQueue { items: VecDeque::new() };
        proof {
            assert(q@ =~= Seq::<OutboundItemView>::empty());
        }
        q
    }

    /// How many items wait to be sent.
    pub fn len(&self) -> (r: usize)
        ensures
            r == self@.len(),
    {
        self.items.len()
    }

    /// Whether nothing waits to be sent.
    pub fn is_empty(&self) -> (r: bool)
        ensures
            r == (self@.len() == 0),
    {
        self.items.len() == 0
    }

    /// Enqueue an item at the back.
    pub fn enqueue(&mut self, item: OutboundItem)
        ensures
            final(self)@ == old(self)@.push(item@),
    {
        let ghost item_v = item@;
        self.items.push_back(item);
        proof {
            assert(final(self)@ =~= old(self)@.push(item_v));
        }
    }

    /// Dequeue the oldest item, if any.
    pub fn dequeue(&mut self) -> (r: Option<OutboundItem>)
        ensures
            old(self)@.len() == 0 ==> r is None && final(self)@ == old(self)@,
            old(self)@.len() > 0 ==> match r {
                Some(item) => item@ == old(self)@.first() && final(self)@ == old(self)@.drop_first(),
                None => false,
            },
    {
        let r = self.items.pop_front();
        proof {
            if old(self)@.len() == 0 {
                assert(final(self)@ =~= old(self)@);
            } else {
                assert(final(self)@ =~= old(self)@.drop_first());
            }
        }
        r
    }

    /// Put an item back at the front, after the wire could not take it;
    /// it will be the next one dequeued.
    pub fn requeue_front(&mut self, item: OutboundItem)
        ensures
            final(self)@ == seq![item@] + old(self)@,
    {
        let ghost item_v = item@;
        self.items.push_front(item);
        proof {
            assert(final(self)@ =~= seq![item_v] + old(self)@);
        }
    }
}

/// The queue is first-in first-out: after items are enqueued in the
/// order `a`, `b`, `c` onto any backlog, they leave in that same order
/// once the backlog is drained — `a` is dequeued before `b`, and `b`
/// before `c`.
pub proof fn lemma_outbound_fifo(
    backlog: Seq<OutboundItemView>,
    a: OutboundItemView,
    b: OutboundItemView,
    c: OutboundItemView,
)
    ensures
        ({
            let q = backlog.push(a).push(b).push(c);
            &&& q.len() == backlog.len() + 3
            &&& q[backlog.len() as int] == a
            &&& q[backlog.len() as int + 1] == b
            &&& q[backlog.len() as int + 2] == c
            &&& q.skip(backlog.len() as int) =~= seq![a, b, c]
        }),
{
}

} // verus!
