//! Batch queue for score events.

use vstd::prelude::*;

verus! {

/// A batch queue: buffers items until they are drained, and reports when the
/// buffer has reached `max_size` (a flush is due).
pub struct BatchQueue<T> {
    buffer: Vec<T>,
    max_size: usize,
}

impl<T> View for BatchQueue<T> {
    type V = Seq<T>;

    closed spec fn view(&self) -> Seq<T> {
        self.buffer@
    }
}

impl<T> BatchQueue<T> {
    /// The buffer size at which a flush is due.
    pub closed spec fn max_size(&self) -> usize {
        self.max_size
    }

    /// Create a new `BatchQueue` with the given maximum buffer size.
    pub fn new(max_size: usize) -> (r: BatchQueue<T>)
        ensures
            r@ == Seq::<T>::empty(),
            r.max_size() == max_size,
    {
        BatchQueue { buffer: Vec::new(), max_size }
    }

    /// Add an item to the queue.
    ///
    /// Returns `true` if the queue has reached `max_size` (flush needed).
    pub fn push(&mut self, item: T) -> (r: bool)
        ensures
            final(self)@ == old(self)@.push(item),
            final(self).max_size() == old(self).max_size(),
            r == (final(self)@.len() >= old(self).max_size()),
    {
        self.buffer.push(item);
        self.buffer.len() >= self.max_size
    }

    /// Drain all buffered items, returning them in the order they were pushed
    /// and leaving the buffer empty.
    pub fn drain(&mut self) -> (r: Vec<T>)
        ensures
            r@ == old(self)@,
            final(self)@ == Seq::<T>::empty(),
            final(self).max_size() == old(self).max_size(),
    {
        let mut taken: Vec<T> = Vec::new();
        core::mem::swap(&mut taken, &mut self.buffer);
        taken
    }

    /// Number of buffered items.
    pub fn len(&self) -> (r: usize)
        ensures
            r == self@.len(),
    {
        self.buffer.len()
    }

    /// Returns `true` if the buffer is empty.
    pub fn is_empty(&self) -> (r: bool)
        ensures
            r == (self@.len() == 0),
    {
        self.buffer.len() == 0
    }
}

/// Items pushed one after another onto an empty queue and then drained come
/// back all together, in the order they were pushed, and leave the queue
/// empty. `views[k]` is the queue's view after the first `k` pushes, each
/// related to the one before it as `BatchQueue::push` states; `drained` and
/// `after` are what `BatchQueue::drain` then returns and leaves.
pub proof fn lemma_pushes_then_drain<T>(
    items: Seq<T>,
    views: Seq<Seq<T>>,
    drained: Seq<T>,
    after: Seq<T>,
)
    requires
        views.len() == items.len() + 1,
        views[0] == Seq::<T>::empty(),
        forall|k: int| 0 <= k < items.len() ==> #[trigger] views[k + 1] == views[k].push(items[k]),
        drained == views[items.len() as int],
        after == Seq::<T>::empty(),
    ensures
        drained == items,
        after.len() == 0,
{
    assert forall|k: int| 0 <= k <= items.len() implies #[trigger] views[k] == items.subrange(
        0,
        k,
    ) by {
        lemma_prefix_after_pushes(items, views, k);
    }
    assert(items.subrange(0, items.len() as int) =~= items);
}

proof fn lemma_prefix_after_pushes<T>(items: Seq<T>, views: Seq<Seq<T>>, k: int)
    requires
        views.len() == items.len() + 1,
        views[0] == Seq::<T>::empty(),
        forall|j: int| 0 <= j < items.len() ==> #[trigger] views[j + 1] == views[j].push(items[j]),
        0 <= k <= items.len(),
    ensures
        views[k] == items.subrange(0, k),
    decreases k,
{
    if k == 0 {
        assert(items.subrange(0, 0) =~= Seq::<T>::empty());
    } else {
        lemma_prefix_after_pushes(items, views, k - 1);
        assert(views[(k - 1) + 1] == views[k - 1].push(items[k - 1]));
        assert(items.subrange(0, k - 1).push(items[k - 1]) =~= items.subrange(0, k));
    }
}

} // verus!
