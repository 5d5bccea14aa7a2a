//! Concurrency buffering: a bounded first-in-first-out queue of pending
//! requests that rejects what does not fit.

use std::collections::VecDeque;
use vstd::prelude::*;

verus! {

/// What a request buffer holds, as mathematical values: its depth and the
/// identifiers of the pending requests, oldest first.
pub ghost struct BufferState {
    pub depth: nat,
    pub queue: Seq<u64>,
}

impl BufferState {
    /// The queue never holds more than the depth.
    pub open spec fn wf(self) -> bool {
        self.queue.len() <= self.depth
    }

    /// Whether there is no room for another request.
    pub open spec fn full(self) -> bool {
        self.queue.len() >= self.depth
    }

    /// The state after the request `id` was offered: it joins the end of
    /// the queue if there is room, and nothing changes if there is none.
    pub open spec fn offered(self, id: u64) -> BufferState {
        if self.full() {
            self
        } else {
            BufferState { queue: self.queue.push(id), ..self }
        }
    }

    /// The state after the requests `ids` were offered in this order, with
    /// nothing taken out in between.
    pub open spec fn offered_all(self, ids: Seq<u64>) -> BufferState
        decreases ids.len(),
    {
        if ids.len() == 0 {
            self
        } else {
            self.offered_all(ids.drop_last()).offered(ids.last())
        }
    }

    /// Whether the last of the requests `ids`, offered in this order, is
    /// accepted.
    pub open spec fn accepts_last(self, ids: Seq<u64>) -> bool
        recommends
            ids.len() > 0,
    {
        !self.offered_all(ids.drop_last()).full()
    }
}

/// While nothing is taken out, a buffer accepts exactly as many requests as
/// it has room for, in the order they come, and rejects every later one:
/// the request at position `i` is accepted if and only if the queue held
/// fewer than `depth - i` before the first.
pub proof fn lemma_overflow_rejected(s: BufferState, ids: Seq<u64>)
    requires
        s.wf(),
    ensures
        s.offered_all(ids).wf(),
        s.offered_all(ids).depth == s.depth,
        s.offered_all(ids).queue.len() == if s.queue.len() + ids.len() <= s.depth {
            s.queue.len() + ids.len()
        } else {
            s.depth
        },
        s.offered_all(ids).queue == s.queue + ids.subrange(
            0,
            s.offered_all(ids).queue.len() - s.queue.len(),
        ),
        forall|i: int|
            0 <= i < ids.len() ==> (#[trigger] s.accepts_last(ids.subrange(0, i + 1)) <==> s.queue.len()
                + i < s.depth),
    decreases ids.len(),
{
    if ids.len() > 0 {
        let head = ids.drop_last();
        lemma_overflow_rejected(s, head);
        let before = s.offered_all(head);
        let after = s.offered_all(ids);
        let taken = after.queue.len() - s.queue.len();
        if before.full() {
            assert(head.subrange(0, taken) =~= ids.subrange(0, taken));
        } else {
            assert(head.subrange(0, head.len() as int) =~= head);
            assert(after.queue =~= s.queue + ids.subrange(0, taken));
        }
        assert forall|i: int| 0 <= i < ids.len() implies (#[trigger] s.accepts_last(
            ids.subrange(0, i + 1),
        ) <==> s.queue.len() + i < s.depth) by {
            if i < head.len() {
                assert(ids.subrange(0, i + 1) =~= head.subrange(0, i + 1));
            } else {
                assert(ids.subrange(0, i + 1) =~= ids);
            }
        }
    } else {
        assert(s.queue + ids.subrange(0, 0) =~= s.queue);
    }
}

/// The request buffer of the service.
pub struct RequestBuffer {
    depth: usize,
    queue: VecDeque<u64>,
}

impl View for RequestBuffer {
    type V = BufferState;

    closed spec fn view(&self) -> BufferState {
        BufferState { depth: self.depth as nat, queue: self.queue@ }
    }
}

impl RequestBuffer {
    /// An empty buffer for at most `depth` pending requests.
    pub fn new(depth: usize) -> (buffer: RequestBuffer)
        ensures
            buffer@.depth == depth,
            buffer@.queue == Seq::<u64>::empty(),
            buffer@.wf(),
    {
        RequestBuffer { depth, queue: VecDeque::new() }
    }

    /// How many requests are pending.
    pub fn len(&self) -> (n: usize)
        ensures
            n == self@.queue.len(),
    {
        self.queue.len()
    }

    /// Whether there is no room for another request.
    pub fn is_full(&self) -> (full: bool)
        ensures
            full == self@.full(),
    {
        self.queue.len() >= self.depth
    }

    /// Offers the request `id`: it is queued if there is room and rejected,
    /// with the buffer left as it was, if there is none.
    pub fn enqueue(&mut self, id: u64) -> (accepted: bool)
        ensures
            accepted == !old(self)@.full(),
            final(self)@ == old(self)@.offered(id),
            old(self)@.wf() ==> final(self)@.wf(),
    {
        if self.queue.len() >= self.depth {
            false
        } else {
            self.queue.push_back(id);
            true
        }
    }

    /// Takes out the request that has waited longest, if any is pending.
    pub fn dequeue(&mut self) -> (next: Option<u64>)
        ensures
            final(self)@.depth == old(self)@.depth,
            old(self)@.queue.len() == 0 ==> (next is None && final(self)@ == old(self)@),
            old(self)@.queue.len() > 0 ==> (next == Some(old(self)@.queue[0]) && final(self)@.queue
                == old(self)@.queue.drop_first()),
            old(self)@.wf() ==> final(self)@.wf(),
    {
        let next = self.queue.pop_front();
        proof {
            if old(self)@.queue.len() > 0 {
                assert(self.queue@ =~= old(self)@.queue.drop_first());
            }
        }
        next
    }
}

} // verus!
