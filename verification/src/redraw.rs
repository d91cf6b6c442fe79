use vstd::prelude::*;

use std::collections::VecDeque;

verus! {

/// The queue after a redraw was requested for window `id`: a window already waiting keeps its
/// place, and a new one joins at the back.
pub open spec fn with_request(queue: Seq<u64>, id: u64) -> Seq<u64> {
    if queue.contains(id) {
        queue
    } else {
        queue.push(id)
    }
}

/// The windows waiting to redraw, in the order they asked, each at most once.
pub struct RedrawQueue {
    ids: VecDeque<u64>,
}

impl View for RedrawQueue {
    type V = Seq<u64>;

    closed spec fn view(&self) -> Seq<u64> {
        self.ids@
    }
}

impl RedrawQueue {
    #[verifier::type_invariant]
    spec fn each_once(self) -> bool {
        self.ids@.no_duplicates()
    }

    /// No window waiting.
    pub fn new() -> (q: Self)
        ensures
            q@ == Seq::<u64>::empty(),
    {
        RedrawQueue { ids: VecDeque::new() }
    }

    /// The number of windows waiting.
    pub fn len(&self) -> (n: usize)
        ensures
            n == self@.len(),
            self@.no_duplicates(),
    {
        proof {
            use_type_invariant(self);
        }
        self.ids.len()
    }

    /// Whether no window is waiting.
    pub fn is_empty(&self) -> (r: bool)
        ensures
            r == (self@.len() == 0),
    {
        self.ids.len() == 0
    }

    /// Whether window `id` is waiting.
    pub fn contains(&self, id: u64) -> (r: bool)
        ensures
            r == self@.contains(id),
    {
        let n = self.ids.len();
        let mut i: usize = 0;
        while i < n
            invariant
                n == self.ids@.len(),
                i <= n,
                forall|j: int| 0 <= j < i ==> self.ids@[j] != id,
            decreases n - i,
        {
            if self.ids[i] == id {
                proof {
                    assert(self@[i as int] == id);
                }
                return true;
            }
            i = i + 1;
        }
        false
    }

    /// Asks for a redraw of window `id`; a window that already waits is not queued twice.
    pub fn request(&mut self, id: u64)
        ensures
            final(self)@ == with_request(old(self)@, id),
            final(self)@.no_duplicates(),
    {
        proof {
            use_type_invariant(&*self);
        }
        if !self.contains(id) {
            let mut ids = VecDeque::new();
            std::mem::swap(&mut ids, &mut self.ids);
            ids.push_back(id);
            proof {
                lemma_request_each_once(old(self)@, id);
            }
            self.ids = ids;
        }
        proof {
            use_type_invariant(&*self);
        }
    }

    /// Takes the window that has waited longest.
    pub fn pop_front(&mut self) -> (r: Option<u64>)
        ensures
            old(self)@.len() == 0 ==> r is None && final(self)@ == old(self)@,
            old(self)@.len() > 0 ==> r == Some(old(self)@[0]) && final(self)@ == old(
                self,
            )@.drop_first(),
            final(self)@.no_duplicates(),
    {
        proof {
            use_type_invariant(&*self);
        }
        let mut ids = VecDeque::new();
        std::mem::swap(&mut ids, &mut self.ids);
        let r = ids.pop_front();
        proof {
            assert forall|i: int, j: int|
                0 <= i < ids@.len() && 0 <= j < ids@.len() && i != j implies ids@[i] != ids@[j] by {
                assert(ids@[i] == old(self)@[i + 1]);
                assert(ids@[j] == old(self)@[j + 1]);
            }
        }
        self.ids = ids;
        proof {
            use_type_invariant(&*self);
        }
        r
    }
}

/// Asking twice for a redraw of the same window is asking once.
pub proof fn lemma_request_idempotent(queue: Seq<u64>, id: u64)
    ensures
        with_request(with_request(queue, id), id) == with_request(queue, id),
{
    assert(with_request(queue, id).contains(id)) by {
        if !queue.contains(id) {
            assert(queue.push(id)[queue.len() as int] == id);
        }
    }
}

/// Once asked for, a window waits to redraw.
pub proof fn lemma_request_waits(queue: Seq<u64>, id: u64)
    ensures
        with_request(queue, id).contains(id),
{
    if !queue.contains(id) {
        assert(queue.push(id)[queue.len() as int] == id);
    }
}

/// A request keeps every window already waiting in its place, ahead of any newcomer.
pub proof fn lemma_request_keeps_order(queue: Seq<u64>, id: u64)
    ensures
        with_request(queue, id).subrange(0, queue.len() as int) == queue,
{
    assert(with_request(queue, id).subrange(0, queue.len() as int) =~= queue);
}

/// Requests keep every window at most once in the queue.
pub proof fn lemma_request_each_once(queue: Seq<u64>, id: u64)
    requires
        queue.no_duplicates(),
    ensures
        with_request(queue, id).no_duplicates(),
{
    if !queue.contains(id) {
        let q2 = queue.push(id);
        assert forall|i: int, j: int| 0 <= i < q2.len() && 0 <= j < q2.len() && i != j implies q2[i]
            != q2[j] by {
            if i < queue.len() && j < queue.len() {
            } else if i == queue.len() {
                assert(q2[j] == queue[j]);
            } else {
                assert(q2[i] == queue[i]);
            }
        }
    }
}

} // verus!
