//! An owned, order-preserving container with `filter` and `map`.
use vstd::prelude::*;

verus! {

/// The sub-sequence of `s` at the positions where `keep` is true, in order.
pub open spec fn kept<T>(s: Seq<T>, keep: Seq<bool>) -> Seq<T>
    decreases s.len(),
{
    if s.len() == 0 {
        Seq::empty()
    } else {
        let rest = kept(s.drop_last(), keep.drop_last());
        if keep.last() {
            rest.push(s.last())
        } else {
            rest
        }
    }
}

/// Where `keep` records a predicate's verdict on each item of `s`, the kept
/// items are exactly the items of `s` that satisfy it, in their original order.
pub proof fn lemma_kept_is_filter<T>(s: Seq<T>, keep: Seq<bool>, pred: spec_fn(T) -> bool)
    requires
        keep.len() == s.len(),
        forall|i: int| 0 <= i < s.len() ==> #[trigger] keep[i] == pred(s[i]),
    ensures
        kept(s, keep) == s.filter(pred),
    decreases s.len(),
{
    reveal_with_fuel(Seq::filter, 1);
    if s.len() > 0 {
        let (s0, k0) = (s.drop_last(), keep.drop_last());
        assert forall|i: int| 0 <= i < s0.len() implies #[trigger] k0[i] == pred(s0[i]) by {
            assert(k0[i] == keep[i]);
        }
        lemma_kept_is_filter(s0, k0, pred);
        assert(keep.last() == pred(s.last()));
    }
}

/// An owned sequence of items in insertion order.
#[derive(Debug, Clone, Default)]
pub struct Collection<T> {
    items: Vec<T>,
}

impl<T> View for Collection<T> {
    type V = Seq<T>;

    closed spec fn view(&self) -> Seq<T> {
        self.items@
    }
}

impl<T> Collection<T> {
    /// An empty collection.
    pub fn new() -> (r: Self)
        ensures
            r@ == Seq::<T>::empty(),
    {
        Collection { items: Vec::new() }
    }

    /// A collection that takes ownership of `items`.
    pub fn from_vec(items: Vec<T>) -> (r: Self)
        ensures
            r@ == items@,
    {
        Collection { items }
    }

    /// Appends `item` at the end.
    pub fn push(&mut self, item: T)
        ensures
            final(self)@ == old(self)@.push(item),
    {
        self.items.push(item);
    }

    /// All items, in order.
    pub fn all(&self) -> (r: &Vec<T>)
        ensures
            r@ == self@,
    {
        &self.items
    }

    /// Consumes the collection and hands back its items.
    pub fn into_inner(self) -> (r: Vec<T>)
        ensures
            r@ == self@,
    {
        self.items
    }

    /// The number of items.
    pub fn len(&self) -> (r: usize)
        ensures
            r == self@.len(),
    {
        self.items.len()
    }

    /// The number of items; the same as `len`.
    pub fn length(&self) -> (r: usize)
        ensures
            r == self@.len(),
    {
        self.len()
    }

    /// Whether the collection holds no item.
    pub fn is_empty(&self) -> (r: bool)
        ensures
            r == (self@.len() == 0),
    {
        self.items.len() == 0
    }

    /// The item at `index`, or `None` past the end.
    pub fn get(&self, index: usize) -> (r: Option<&T>)
        ensures
            index < self@.len() ==> r == Some(&self@[index as int]),
            index >= self@.len() ==> r is None,
    {
        if index < self.items.len() {
            Some(&self.items[index])
        } else {
            None
        }
    }

    /// A new collection of clones of the items for which `f` returns true,
    /// in their original order. `keep[i]` is what `f` returned for item `i`.
    pub fn filter<F>(&self, mut f: F) -> (r: Self)
        where
            F: FnMut(&T) -> bool,
            T: Clone,
        requires
            forall|i: int| 0 <= i < self@.len() ==> f.requires((&self@[i],)),
        ensures
            exists|keep: Seq<bool>|
                {
                    &&& keep.len() == self@.len()
                    &&& forall|i: int| 0 <= i < self@.len() ==> f.ensures((&self@[i],), #[trigger] keep[i])
                    &&& r@.len() == kept(self@, keep).len()
                    &&& forall|j: int| 0 <= j < r@.len() ==> cloned(kept(self@, keep)[j], #[trigger] r@[j])
                },
    {
        let ghost f0 = f;
        let mut out: Vec<T> = Vec::new();
        let ghost mut keep: Seq<bool> = Seq::empty();
        let mut i: usize = 0;
        while i < self.items.len()
            invariant
                i <= self@.len(),
                f == f0,
                keep.len() == i,
                forall|k: int| 0 <= k < self@.len() ==> f.requires((&self@[k],)),
                forall|k: int| 0 <= k < i ==> f.ensures((&self@[k],), #[trigger] keep[k]),
                out@.len() == kept(self@.take(i as int), keep).len(),
                forall|j: int| 0 <= j < out@.len() ==> cloned(kept(self@.take(i as int), keep)[j], #[trigger] out@[j]),
            decreases self@.len() - i,
        {
            let item = &self.items[i];
            let b = f(item);
            proof {
                let s1 = self@.take(i as int + 1);
                assert(s1.drop_last() =~= self@.take(i as int));
                assert(keep.push(b).drop_last() =~= keep);
            }
            if b {
                out.push(item.clone());
            }
            proof {
                keep = keep.push(b);
            }
            i = i + 1;
        }
        proof {
            assert(self@.take(self@.len() as int) =~= self@);
            assert(forall|k: int| 0 <= k < self@.len() ==> f0.ensures((&self@[k],), #[trigger] keep[k]));
        }
        Collection { items: out }
    }

    /// A new collection holding what `f` returns for each item, in order.
    pub fn map<U, F>(&self, mut f: F) -> (r: Collection<U>)
        where
            F: FnMut(&T) -> U,
        requires
            forall|i: int| 0 <= i < self@.len() ==> f.requires((&self@[i],)),
        ensures
            r@.len() == self@.len(),
            forall|i: int| 0 <= i < self@.len() ==> f.ensures((&self@[i],), #[trigger] r@[i]),
    {
        let ghost f0 = f;
        let mut out: Vec<U> = Vec::new();
        let mut i: usize = 0;
        while i < self.items.len()
            invariant
                i <= self@.len(),
                f == f0,
                out@.len() == i,
                forall|k: int| 0 <= k < self@.len() ==> f.requires((&self@[k],)),
                forall|k: int| 0 <= k < i ==> f.ensures((&self@[k],), #[trigger] out@[k]),
            decreases self@.len() - i,
        {
            let u = f(&self.items[i]);
            out.push(u);
            i = i + 1;
        }
        Collection { items: out }
    }
}

} // verus!
