use std::collections::VecDeque;
use vstd::prelude::*;

verus! {

/// The most values a window retains.
pub const MAX_VALUES: usize = 200;

/// `s` after appending `v`, dropping the oldest value when that takes the
/// sequence past `MAX_VALUES`.
pub open spec fn bounded_push<T>(s: Seq<T>, v: T) -> Seq<T> {
    if s.len() + 1 > MAX_VALUES {
        s.push(v).drop_first()
    } else {
        s.push(v)
    }
}

/// What a window that started empty holds after `pushed` was appended to it,
/// value by value.
pub open spec fn fill<T>(pushed: Seq<T>) -> Seq<T>
    decreases pushed.len(),
{
    if pushed.len() == 0 {
        Seq::empty()
    } else {
        bounded_push(fill(pushed.drop_last()), pushed.last())
    }
}

/// The last `MAX_VALUES` values of `pushed` (all of them if there are fewer).
pub open spec fn last_values<T>(pushed: Seq<T>) -> Seq<T> {
    if pushed.len() > MAX_VALUES {
        pushed.subrange(pushed.len() - MAX_VALUES, pushed.len() as int)
    } else {
        pushed
    }
}

/// The sum of the values in `s`.
pub open spec fn sum_of(s: Seq<u32>) -> int
    decreases s.len(),
{
    if s.len() == 0 {
        0
    } else {
        sum_of(s.drop_last()) + s.last()
    }
}

/// A bounded first-in first-out buffer of the most recent values.
pub struct RollingWindow<T> {
    items: VecDeque<T>,
}

impl<T> View for RollingWindow<T> {
    type V = Seq<T>;

    closed spec fn view(&self) -> Seq<T> {
        self.items@
    }
}

impl<T> RollingWindow<T> {
    pub open spec fn wf(&self) -> bool {
        self@.len() <= MAX_VALUES
    }

    pub fn new() -> (r: Self)
        ensures
            r@ == Seq::<T>::empty(),
            r.wf(),
    {
        RollingWindow { items: VecDeque::new() }
    }

    /// Appends `v`; when the window was full its oldest value leaves.
    pub fn push(&mut self, v: T)
        requires
            old(self).wf(),
        ensures
            final(self)@ == bounded_push(old(self)@, v),
            final(self).wf(),
    {
        self.items.push_back(v);
        if self.items.len() > MAX_VALUES {
            let _ = self.items.pop_front();
        }
    }

    pub fn len(&self) -> (r: usize)
        ensures
            r == self@.len(),
    {
        self.items.len()
    }

    pub fn is_empty(&self) -> (r: bool)
        ensures
            r == (self@.len() == 0),
    {
        self.items.len() == 0
    }

    /// The `i`-th retained value, oldest first.
    pub fn get(&self, i: usize) -> (r: &T)
        requires
            i < self@.len(),
        ensures
            *r == self@[i as int],
    {
        &self.items[i]
    }
}

proof fn lemma_sum_bound(s: Seq<u32>)
    ensures
        0 <= sum_of(s) <= s.len() * 0xffff_ffff,
    decreases s.len(),
{
    if s.len() > 0 {
        lemma_sum_bound(s.drop_last());
    }
}

impl RollingWindow<u32> {
    /// The sum of the retained values.
    pub fn total(&self) -> (r: u64)
        requires
            self.wf(),
        ensures
            r == sum_of(self@),
    {
        let n = self.items.len();
        let mut acc: u64 = 0;
        let mut i: usize = 0;
        while i < n
            invariant
                n == self@.len(),
                n <= MAX_VALUES,
                i <= n,
                acc == sum_of(self@.take(i as int)),
            decreases n - i,
        {
            proof {
                assert(self@.take(i + 1).drop_last() =~= self@.take(i as int));
                lemma_sum_bound(self@.take(i as int));
            }
            acc = acc + self.items[i] as u64;
            i = i + 1;
        }
        proof {
            assert(self@.take(n as int) =~= self@);
        }
        acc
    }
}

/// A window retains exactly the last `MAX_VALUES` values pushed into it,
/// oldest evicted first.
pub proof fn lemma_window_keeps_last<T>(pushed: Seq<T>)
    ensures
        fill(pushed) == last_values(pushed),
    decreases pushed.len(),
{
    if pushed.len() > 0 {
        let prev = pushed.drop_last();
        lemma_window_keeps_last(prev);
        if pushed.len() > MAX_VALUES {
            assert(fill(pushed) =~= last_values(pushed));
        } else {
            assert(fill(pushed) =~= last_values(pushed));
        }
    }
}

/// Pushing into a full window removes exactly its oldest value, and the window
/// stays at `MAX_VALUES` values.
pub proof fn lemma_full_window_evicts_oldest<T>(s: Seq<T>, v: T)
    requires
        s.len() == MAX_VALUES,
    ensures
        bounded_push(s, v) == s.subrange(1, MAX_VALUES as int).push(v),
        bounded_push(s, v).len() == MAX_VALUES,
        bounded_push(s, v).last() == v,
{
    assert(bounded_push(s, v) =~= s.subrange(1, MAX_VALUES as int).push(v));
}

} // verus!
