//! Queues of bounded length.

use vstd::prelude::*;

verus! {

/// A queue that holds its items in the order of their arrival, up to a
/// fixed number.
pub trait Queue<T> {
    /// The items of the queue, the oldest first.
    spec fn view(&self) -> Seq<T>;

    /// The number of items that the queue can hold.
    spec fn capacity(&self) -> nat;

    /// The queue holds no more items than it can.
    spec fn wf(&self) -> bool;

    /// Tells whether the queue holds an item.
    fn has_elements(&self) -> (r: bool)
        requires
            self.wf(),
        ensures
            r == (self.view().len() > 0),
    ;

    /// Tells whether the queue holds as many items as it can.
    fn is_full(&self) -> (r: bool)
        requires
            self.wf(),
        ensures
            r == (self.view().len() >= self.capacity()),
    ;

    /// The number of items in the queue.
    fn len(&self) -> (r: usize)
        requires
            self.wf(),
        ensures
            r == self.view().len(),
    ;

    /// Adds `val` behind the last item, unless the queue is full; tells
    /// whether it did.
    fn enqueue(&mut self, val: T) -> (r: bool)
        requires
            old(self).wf(),
        ensures
            final(self).wf(),
            final(self).capacity() == old(self).capacity(),
            r == (old(self).view().len() < old(self).capacity()),
            r ==> final(self).view() == old(self).view().push(val),
            !r ==> final(self).view() == old(self).view(),
    ;

    /// Adds `val` behind the last item. If the queue is full, the oldest
    /// item makes room and is handed out; a queue that can hold nothing
    /// hands `val` itself out.
    fn push(&mut self, val: T) -> (r: Option<T>)
        requires
            old(self).wf(),
        ensures
            final(self).wf(),
            final(self).capacity() == old(self).capacity(),
            old(self).view().len() < old(self).capacity() ==> r is None && final(self).view()
                == old(self).view().push(val),
            old(self).view().len() >= old(self).capacity() && old(self).capacity() > 0 ==> r
                == Some(old(self).view()[0]) && final(self).view() == old(self).view().skip(
                1,
            ).push(val),
            old(self).capacity() == 0 ==> r == Some(val) && final(self).view() == old(self).view(),
    ;

    /// Takes the oldest item out of the queue, if there is one.
    fn dequeue(&mut self) -> (r: Option<T>)
        requires
            old(self).wf(),
        ensures
            final(self).wf(),
            final(self).capacity() == old(self).capacity(),
            old(self).view().len() == 0 ==> r is None && final(self).view() == old(self).view(),
            old(self).view().len() > 0 ==> r == Some(old(self).view()[0]) && final(self).view()
                == old(self).view().skip(1),
    ;

    /// Takes the oldest item for which `f` answers true out of the queue,
    /// if there is one; the items behind it move up.
    fn remove_first_matching<F: Fn(&T) -> bool>(&mut self, f: F) -> (r: Option<T>)
        requires
            old(self).wf(),
            forall|x: &T| call_requires(f, (x,)),
        ensures
            final(self).wf(),
            final(self).capacity() == old(self).capacity(),
            match r {
                Some(v) => exists|i: int|
                    {
                        &&& 0 <= i < old(self).view().len()
                        &&& #[trigger] old(self).view()[i] == v
                        &&& call_ensures(f, (&old(self).view()[i],), true)
                        &&& forall|j: int|
                            0 <= j < i ==> call_ensures(f, (&#[trigger] old(self).view()[j],),
                                false)
                        &&& final(self).view() == old(self).view().remove(i)
                    },
                None => {
                    &&& final(self).view() == old(self).view()
                    &&& forall|j: int|
                        0 <= j < old(self).view().len() ==> call_ensures(
                            f,
                            (&#[trigger] old(self).view()[j],),
                            false,
                        )
                },
            },
    ;

    /// Takes all items out of the queue.
    fn empty(&mut self)
        requires
            old(self).wf(),
        ensures
            final(self).wf(),
            final(self).capacity() == old(self).capacity(),
            final(self).view().len() == 0,
    ;

    /// Keeps the items for which `f` answers true, in their order, and
    /// drops the others.
    fn retain<F: Fn(&T) -> bool>(&mut self, f: F)
        requires
            old(self).wf(),
            forall|x: &T| call_requires(f, (x,)),
        ensures
            final(self).wf(),
            final(self).capacity() == old(self).capacity(),
            exists|keep: Seq<bool>|
                {
                    &&& keep.len() == old(self).view().len()
                    &&& forall|i: int|
                        0 <= i < keep.len() ==> call_ensures(
                            f,
                            (&old(self).view()[i],),
                            #[trigger] keep[i],
                        )
                    &&& final(self).view() == kept(old(self).view(), keep)
                },
    ;
}

/// The items of `items` that `keep` marks, in their order.
pub open spec fn kept<T>(items: Seq<T>, keep: Seq<bool>) -> Seq<T>
    decreases items.len(),
{
    if items.len() == 0 || keep.len() != items.len() {
        Seq::empty()
    } else {
        let before = kept(items.drop_last(), keep.drop_last());
        if keep.last() {
            before.push(items.last())
        } else {
            before
        }
    }
}

/// A queue in a growable array.
pub struct VecQueue<T> {
    pub items: Vec<T>,
    pub limit: usize,
}

impl<T> VecQueue<T> {
    /// An empty queue for up to `limit` items.
    pub fn new(limit: usize) -> (r: VecQueue<T>)
        ensures
            r.wf(),
            r.view().len() == 0,
            r.capacity() == limit,
    {
        VecQueue { items: Vec::new(), limit }
    }
}

impl<T> Queue<T> for VecQueue<T> {
    open spec fn view(&self) -> Seq<T> {
        self.items@
    }

    open spec fn capacity(&self) -> nat {
        self.limit as nat
    }

    open spec fn wf(&self) -> bool {
        self.items@.len() <= self.limit
    }

    fn has_elements(&self) -> (r: bool) {
        self.items.len() > 0
    }

    fn is_full(&self) -> (r: bool) {
        self.items.len() >= self.limit
    }

    fn len(&self) -> (r: usize) {
        self.items.len()
    }

    fn enqueue(&mut self, val: T) -> (r: bool) {
        if self.items.len() < self.limit {
            self.items.push(val);
            true
        } else {
            false
        }
    }

    fn push(&mut self, val: T) -> (r: Option<T>) {
        if self.items.len() < self.limit {
            self.items.push(val);
            None
        } else if self.limit == 0 {
            Some(val)
        } else {
            let oldest = self.items.remove(0);
            self.items.push(val);
            assert(self.items@ =~= old(self).items@.skip(1).push(val));
            Some(oldest)
        }
    }

    fn dequeue(&mut self) -> (r: Option<T>) {
        if self.items.len() > 0 {
            let oldest = self.items.remove(0);
            assert(self.items@ =~= old(self).items@.skip(1));
            Some(oldest)
        } else {
            None
        }
    }

    fn remove_first_matching<F: Fn(&T) -> bool>(&mut self, f: F) -> (r: Option<T>) {
        let mut i: usize = 0;
        while i < self.items.len()
            invariant
                *self == *old(self),
                self.items@.len() <= self.limit,
                i <= self.items@.len(),
                forall|x: &T| call_requires(f, (x,)),
                forall|j: int| 0 <= j < i ==> call_ensures(f, (&#[trigger] self.items@[j],), false),
            decreases self.items@.len() - i,
        {
            if f(&self.items[i]) {
                let v = self.items.remove(i);
                assert(old(self).view()[i as int] == v);
                return Some(v);
            }
            i += 1;
        }
        None
    }

    fn empty(&mut self) {
        self.items.clear();
    }

    fn retain<F: Fn(&T) -> bool>(&mut self, f: F) {
        let mut result: Vec<T> = Vec::new();
        let mut rest: Vec<T> = Vec::new();
        core::mem::swap(&mut self.items, &mut rest);
        let ghost all = rest@;
        let ghost mut keep: Seq<bool> = Seq::empty();
        let n = rest.len();
        let mut taken: usize = 0;
        while rest.len() > 0
            invariant
                self.limit == old(self).limit,
                all == old(self).items@,
                all.len() <= self.limit,
                n == all.len(),
                taken + rest@.len() == n,
                rest@ =~= all.skip(taken as int),
                keep.len() == taken,
                result@.len() <= taken,
                forall|x: &T| call_requires(f, (x,)),
                forall|i: int| 0 <= i < taken ==> call_ensures(f, (&all[i],), #[trigger] keep[i]),
                result@ == kept(all.take(taken as int), keep),
            decreases rest@.len(),
        {
            let item = rest.remove(0);
            let wanted = f(&item);
            proof {
                assert(item == all[taken as int]);
                let ghost longer = keep.push(wanted);
                assert(all.take(taken as int + 1).drop_last() =~= all.take(taken as int));
                assert(longer.drop_last() =~= keep);
                assert(all.take(taken as int + 1).last() == item);
                keep = longer;
            }
            if wanted {
                result.push(item);
            }
            taken += 1;
        }
        proof {
            assert(all.take(taken as int) =~= all);
        }
        self.items = result;
    }
}

} // verus!
