/*!
    A fixed-capacity, insertion-ordered buffer used by nodes to remember
    which floods they have already processed. Once the buffer is full,
    inserting evicts the oldest entry (strict FIFO); a buffer of capacity
    zero is always full, so it stores nothing at all.
*/

use std::collections::VecDeque;
use vstd::prelude::*;
use vstd::std_specs::cmp::PartialEqSpec;

verus! {

/// What one `insert` does to the stored sequence: a buffer of capacity
/// zero keeps nothing; a full buffer of positive capacity drops its oldest
/// entry before the new one is appended; any other buffer only appends.
pub open spec fn insert_model<T>(s: Seq<T>, cap: nat, e: T) -> Seq<T> {
    if cap == 0 {
        s
    } else if s.len() == cap {
        s.subrange(1, s.len() as int).push(e)
    } else {
        s.push(e)
    }
}

/// What a whole run of `insert` calls does to the stored sequence, one
/// `insert_model` per element of `ids`, oldest first.
pub open spec fn fill_model<T>(s: Seq<T>, cap: nat, ids: Seq<T>) -> Seq<T>
    decreases ids.len(),
{
    if ids.len() == 0 {
        s
    } else {
        insert_model(fill_model(s, cap, ids.drop_last()), cap, ids.last())
    }
}

/// The at most `cap` most recent entries of `all`, oldest first.
pub open spec fn most_recent<T>(all: Seq<T>, cap: nat) -> Seq<T> {
    if all.len() <= cap {
        all
    } else {
        all.subrange(all.len() - cap, all.len() as int)
    }
}

/// Capacity law: however many entries are inserted, the buffer holds at
/// most `cap` of them — exactly the most recent `cap`, in insertion
/// order, the older ones evicted oldest first.
pub proof fn lemma_capacity_invariant<T>(s: Seq<T>, cap: nat, ids: Seq<T>)
    requires
        s.len() <= cap,
    ensures
        fill_model(s, cap, ids) == most_recent(s + ids, cap),
        fill_model(s, cap, ids).len() <= cap,
    decreases ids.len(),
{
    if ids.len() == 0 {
        assert(s + ids =~= s);
    } else {
        let rest = ids.drop_last();
        lemma_capacity_invariant(s, cap, rest);
        let prev = fill_model(s, cap, rest);
        assert(s + rest + seq![ids.last()] =~= s + ids);
        assert(insert_model(prev, cap, ids.last()) =~= most_recent(s + ids, cap));
    }
}

/// Round-trip law: an inserted entry is still present through any run of
/// fewer than `cap` further insertions, and is gone after `cap` or more
/// that all differ from it.
pub proof fn lemma_round_trip<T>(s: Seq<T>, cap: nat, x: T, later: Seq<T>)
    requires
        1 <= cap,
        s.len() <= cap,
    ensures
        later.len() < cap ==> fill_model(insert_model(s, cap, x), cap, later).contains(x),
        later.len() >= cap && !later.contains(x) ==> !fill_model(
            insert_model(s, cap, x),
            cap,
            later,
        ).contains(x),
{
    let s1 = insert_model(s, cap, x);
    lemma_capacity_invariant(s1, cap, later);
    let all = s1 + later;
    let result = fill_model(s1, cap, later);
    assert(s1[s1.len() - 1] == x);
    assert(all[s1.len() - 1] == x);
    if later.len() < cap {
        if all.len() <= cap {
            assert(result.contains(x)) by {
                assert(result[s1.len() - 1] == x);
            }
        } else {
            let start = all.len() - cap;
            assert(result.contains(x)) by {
                assert(s1.len() - 1 - start >= 0);
                assert(result[s1.len() - 1 - start] == x);
            }
        }
    }
    if later.len() >= cap && !later.contains(x) {
        let start = all.len() - cap;
        assert(start >= s1.len());
        assert forall|i: int| 0 <= i < result.len() implies result[i] != x by {
            assert(result[i] == all[start + i]);
            assert(all[start + i] == later[start + i - s1.len()]);
        }
        if result.contains(x) {
            let i = choose|i: int| 0 <= i < result.len() && result[i] == x;
            assert(result[i] != x);
        }
    }
}

/// Ring buffer over the generic element type `T`: a FIFO queue whose length
/// never passes the capacity chosen at construction.
#[derive(Debug)]
pub struct RingBuffer<T> {
    buff: VecDeque<T>,
    size: usize,
}

impl<T> View for RingBuffer<T> {
    type V = Seq<T>;

    closed spec fn view(&self) -> Seq<T> {
        self.buff@
    }
}

impl<T> RingBuffer<T> {
    /// The capacity requested at construction.
    pub closed spec fn capacity(&self) -> nat {
        self.size as nat
    }

    /// The buffer never holds more entries than its capacity.
    pub open spec fn well_formed(&self) -> bool {
        self@.len() <= self.capacity()
    }

    /// Constructor that prepares a buffer for the requested capacity.
    pub fn with_capacity(size: usize) -> (r: Self)
        ensures
            r@ == Seq::<T>::empty(),
            r.capacity() == size,
            r.well_formed(),
    {
        Self {
            buff: if size < 0x400 {
                VecDeque::with_capacity(size)
            } else {
                VecDeque::new()
            },
            size,
        }
    }

    /// Inserts an element in the buffer as the last element.
    ///
    /// Removes the first element if the buffer is full and returns it. In
    /// a buffer of capacity zero nothing can stay: the new element is the
    /// one evicted, handed straight back.
    pub fn insert(&mut self, e: T) -> (evicted: Option<T>)
        ensures
            final(self)@ == insert_model(old(self)@, old(self).capacity(), e),
            final(self).capacity() == old(self).capacity(),
            evicted == (if old(self).capacity() == 0 {
                Some(e)
            } else if old(self)@.len() == old(self).capacity() {
                Some(old(self)@[0])
            } else {
                None::<T>
            }),
            old(self).well_formed() ==> final(self).well_formed(),
    {
        if self.size == 0 {
            return Some(e);
        }
        let mut ret: Option<T> = None;
        if self.is_full() {
            ret = self.buff.pop_front();
        }

        self.buff.push_back(e);
        ret
    }

    /// Removes the first (oldest) element and returns it.
    pub fn pop(&mut self) -> (r: Option<T>)
        ensures
            final(self).capacity() == old(self).capacity(),
            old(self)@.len() == 0 ==> r is None && final(self)@ == old(self)@,
            old(self)@.len() > 0 ==> r == Some(old(self)@[0]) && final(self)@ == old(self)@.subrange(
                1,
                old(self)@.len() as int,
            ),
    {
        self.buff.pop_front()
    }

    /// Checks if the buffer is empty.
    pub fn is_empty(&self) -> (r: bool)
        ensures
            r == (self@.len() == 0),
    {
        self.buff.len() == 0
    }

    /// Checks if the buffer is full.
    pub fn is_full(&self) -> (r: bool)
        ensures
            r == (self@.len() == self.capacity()),
    {
        self.buff.len() == self.size
    }
}

impl<T: PartialEq> RingBuffer<T> {
    /// Checks if the buffer contains the passed element, by `T`'s own
    /// equality.
    pub fn contains(&self, e: &T) -> (r: bool)
        requires
            T::obeys_eq_spec(),
        ensures
            r == exists|i: int| 0 <= i < self@.len() && self@[i].eq_spec(e),
    {
        let n = self.buff.len();
        let mut i: usize = 0;
        while i < n
            invariant
                n == self.buff@.len(),
                0 <= i <= n,
                T::obeys_eq_spec(),
                forall|j: int| 0 <= j < i ==> !self.buff@[j].eq_spec(e),
            decreases n - i,
        {
            if self.buff[i] == *e {
                proof {
                    assert(self@[i as int].eq_spec(e));
                }
                return true;
            }
            i += 1;
        }
        false
    }
}

} // verus!
