//! Fixed-capacity FIFO window, the foundation of all sliding-window state.
use std::collections::VecDeque;
use vstd::prelude::*;
use vstd::std_specs::iter::IteratorSpec;
use vstd::std_specs::vecdeque::group_vec_dequeue_axioms;

verus! {

broadcast use group_vec_dequeue_axioms;

/// The contents of a window after `item` is pushed onto `s` in a buffer of
/// capacity `cap`: the oldest element leaves first once the buffer is full.
pub open spec fn push_step<T>(s: Seq<T>, cap: nat, item: T) -> Seq<T> {
    if s.len() >= cap && s.len() > 0 {
        s.subrange(1, s.len() as int).push(item)
    } else {
        s.push(item)
    }
}

/// The contents of a fresh buffer of capacity `cap` after each of `items` was
/// pushed, in order.
pub open spec fn pushes<T>(cap: nat, items: Seq<T>) -> Seq<T>
    decreases items.len(),
{
    if items.len() == 0 {
        Seq::empty()
    } else {
        push_step(pushes(cap, items.drop_last()), cap, items.last())
    }
}

/// The last `n` elements of `s` (all of `s` when it is shorter).
pub open spec fn last_n<T>(s: Seq<T>, n: nat) -> Seq<T> {
    if s.len() <= n {
        s
    } else {
        s.subrange(s.len() - n, s.len() as int)
    }
}

/// Ring buffer for sliding-window operations.
#[derive(Debug, Clone)]
pub struct RingBuffer<T> {
    data: VecDeque<T>,
    capacity: usize,
}

impl<T> View for RingBuffer<T> {
    type V = Seq<T>;

    /// The items held, oldest first.
    closed spec fn view(&self) -> Seq<T> {
        self.data@
    }
}

impl<T> RingBuffer<T> {
    pub closed spec fn spec_capacity(&self) -> nat {
        self.capacity as nat
    }

    /// The buffer never holds more than its capacity (or one item, when the
    /// capacity is zero).
    pub open spec fn wf(&self) -> bool {
        self@.len() <= self.spec_capacity() || (self.spec_capacity() == 0 && self@.len() <= 1)
    }

    /// Create a new ring buffer with the given capacity.
    pub fn new(capacity: usize) -> (r: Self)
        ensures
            r@ == Seq::<T>::empty(),
            r.spec_capacity() == capacity,
            r.wf(),
    {
        RingBuffer { data: VecDeque::new(), capacity }
    }

    /// Push an item, removing the oldest one if the buffer is full.
    pub fn push(&mut self, item: T)
        requires
            old(self).wf(),
        ensures
            final(self)@ == push_step(old(self)@, old(self).spec_capacity(), item),
            final(self).spec_capacity() == old(self).spec_capacity(),
            final(self).wf(),
    {
        if self.data.len() >= self.capacity {
            let _ = self.data.pop_front();
        }
        self.data.push_back(item);
    }

    /// Iterate over the items, oldest first.
    pub fn iter(&self) -> (r: std::collections::vec_deque::Iter<'_, T>)
        ensures
            r.remaining() == self@.as_ref(),
    {
        self.data.iter()
    }

    /// Number of items held.
    pub fn len(&self) -> (r: usize)
        ensures
            r == self@.len(),
    {
        self.data.len()
    }

    /// Whether the buffer holds no item.
    pub fn is_empty(&self) -> (r: bool)
        ensures
            r == (self@.len() == 0),
    {
        self.data.len() == 0
    }

    /// The capacity the buffer was made with.
    pub fn capacity(&self) -> (r: usize)
        ensures
            r == self.spec_capacity(),
    {
        self.capacity
    }

    /// References to the items, most recent first.
    pub fn as_slice(&self) -> (r: Vec<&T>)
        ensures
            r@.len() == self@.len(),
            forall|i: int| 0 <= i < r@.len() ==> *r@[i] == self@[self@.len() - 1 - i],
    {
        let n = self.data.len();
        let mut out: Vec<&T> = Vec::new();
        let mut i: usize = n;
        while i > 0
            invariant
                n == self@.len(),
                i <= n,
                out@.len() == n - i,
                forall|j: int| 0 <= j < out@.len() ==> *out@[j] == self@[n - 1 - j],
            decreases i,
        {
            i = i - 1;
            out.push(&self.data[i]);
        }
        out
    }

    /// Remove every item; the capacity stays.
    pub fn clear(&mut self)
        ensures
            final(self)@ == Seq::<T>::empty(),
            final(self).spec_capacity() == old(self).spec_capacity(),
            final(self).wf(),
    {
        self.data.clear();
    }

    /// The most recent item, if any.
    pub fn latest(&self) -> (r: Option<&T>)
        ensures
            self@.len() == 0 ==> r.is_none(),
            self@.len() > 0 ==> r == Some(&self@.last()),
    {
        let n = self.data.len();
        if n == 0 {
            None
        } else {
            Some(&self.data[n - 1])
        }
    }

    /// The oldest item, if any.
    pub fn oldest(&self) -> (r: Option<&T>)
        ensures
            self@.len() == 0 ==> r.is_none(),
            self@.len() > 0 ==> r == Some(&self@[0]),
    {
        if self.data.len() == 0 {
            None
        } else {
            Some(&self.data[0])
        }
    }
}

/// One push onto a window keeps the last `cap` of everything pushed so far.
pub proof fn lemma_push_step_last_n<T>(s: Seq<T>, cap: nat, item: T)
    requires
        cap >= 1,
        s.len() <= cap,
    ensures
        push_step(s, cap, item) == last_n(s.push(item), cap),
{
    let p = s.push(item);
    if s.len() >= cap {
        assert(push_step(s, cap, item) =~= p.subrange(p.len() - cap, p.len() as int));
    }
}

/// For every capacity of at least one and every sequence of pushes onto a fresh
/// buffer, the buffer holds exactly the last `cap` items pushed, in push order:
/// its length never exceeds the capacity, and after `cap + k` pushes the oldest
/// item held is the `(k + 1)`-th item pushed.
pub proof fn lemma_window_keeps_last_items<T>(cap: nat, items: Seq<T>)
    requires
        cap >= 1,
    ensures
        pushes(cap, items) == last_n(items, cap),
        pushes(cap, items).len() <= cap,
        items.len() >= cap ==> pushes(cap, items)[0] == items[items.len() - cap],
    decreases items.len(),
{
    if items.len() > 0 {
        let prev = items.drop_last();
        lemma_window_keeps_last_items(cap, prev);
        lemma_push_step_last_n(pushes(cap, prev), cap, items.last());
        let w = last_n(prev, cap);
        assert(w.push(items.last()).len() == w.len() + 1);
        if prev.len() <= cap {
            assert(prev.push(items.last()) =~= items);
        } else {
            assert(last_n(w.push(items.last()), cap) =~= last_n(items, cap));
        }
    }
}

} // verus!
