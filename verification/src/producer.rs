//! Sequence producers.
//!
//! A [`Producer`] hands out its items one at a time from the front; a
//! [`DoubleEndedProducer`] can also hand them out from the back.  Both ends
//! draw from the single sequence [`Producer::remaining`], so pulling from one
//! end shortens what the other end can still see.  The adapter in
//! [`crate::peekable`] is written against these traits alone; two concrete
//! producers are provided here, one with exact length bounds and one that
//! skips absent entries and so can only bound its length loosely.

use vstd::prelude::*;
use vstd::std_specs::cmp::PartialEqSpec;

verus! {

/// A source of items, pulled one at a time from the front.
pub trait Producer: Sized {
    type Item;

    /// The items not yet handed out, in front-to-back order.
    spec fn remaining(&self) -> Seq<Self::Item>;

    /// The lower bound this producer currently reports for its remaining length.
    spec fn lower_bound(&self) -> usize;

    /// The upper bound this producer currently reports, or `None` when it
    /// cannot give one.
    spec fn upper_bound(&self) -> Option<usize>;

    /// Pulls the next item from the front, or reports end-of-sequence.
    fn next(&mut self) -> (r: Option<Self::Item>)
        ensures
            match r {
                Some(item) => old(self).remaining().len() > 0 && item == old(
                    self,
                ).remaining().first() && final(self).remaining() == old(
                    self,
                ).remaining().drop_first(),
                None => old(self).remaining().len() == 0 && final(self).remaining().len() == 0,
            },
    ;

    /// Reports bounds on the number of remaining items: a lower bound, and
    /// optionally an upper bound, both of which must contain the true length.
    fn size_hint(&self) -> (r: (usize, Option<usize>))
        ensures
            r.0 == self.lower_bound(),
            r.1 == self.upper_bound(),
            r.0 <= self.remaining().len(),
            (r.1 matches Some(upper) ==> self.remaining().len() <= upper),
    ;
}

/// A producer whose items can also be pulled from the back.
pub trait DoubleEndedProducer: Producer {
    /// Pulls the next item from the back, or reports end-of-sequence.
    fn next_back(&mut self) -> (r: Option<Self::Item>)
        ensures
            match r {
                Some(item) => old(self).remaining().len() > 0 && item == old(
                    self,
                ).remaining().last() && final(self).remaining() == old(
                    self,
                ).remaining().drop_last(),
                None => old(self).remaining().len() == 0 && final(self).remaining().len() == 0,
            },
    ;
}

/// A producer over the items of a vector, front to back, with exact length
/// bounds.
#[derive(Debug)]
pub struct VecProducer<T> {
    items: Vec<T>,
}

impl<T> VecProducer<T> {
    /// Wraps a vector of items.  The reported bounds start out exact and
    /// stay exact: this producer always knows how many items it holds.
    pub fn new(items: Vec<T>) -> (r: Self)
        ensures
            r.remaining() == items@,
            r.lower_bound() == items@.len(),
            r.upper_bound() == Some((items@.len() as usize)),
    {
        // `len` pins down that the length fits in `usize`, which the bound
        // clauses need.
        let _length_fits: usize = items.len();
        VecProducer { items }
    }
}

impl<T> Producer for VecProducer<T> {
    type Item = T;

    closed spec fn remaining(&self) -> Seq<T> {
        self.items@
    }

    closed spec fn lower_bound(&self) -> usize {
        self.items@.len() as usize
    }

    closed spec fn upper_bound(&self) -> Option<usize> {
        Some(self.items@.len() as usize)
    }

    fn next(&mut self) -> (r: Option<T>) {
        if self.items.is_empty() {
            None
        } else {
            let item = self.items.remove(0);
            proof {
                assert(old(self).items@.remove(0) =~= old(self).items@.drop_first());
            }
            Some(item)
        }
    }

    fn size_hint(&self) -> (r: (usize, Option<usize>)) {
        let n = self.items.len();
        (n, Some(n))
    }
}

impl<T> DoubleEndedProducer for VecProducer<T> {
    fn next_back(&mut self) -> (r: Option<T>) {
        self.items.pop()
    }
}

impl<T: Clone> Clone for VecProducer<T> {
    /// The clone has the same number of remaining items, each cloned from
    /// its counterpart.
    fn clone(&self) -> (r: Self)
        ensures
            r.remaining().len() == self.remaining().len(),
            forall|i: int|
                0 <= i < self.remaining().len() ==> cloned::<T>(
                    self.remaining()[i],
                    #[trigger] r.remaining()[i],
                ),
    {
        VecProducer { items: self.items.clone() }
    }
}

impl<T: PartialEq> PartialEq for VecProducer<T> {
    /// Two producers are equal only when they hold equal remaining items in
    /// the same order.
    fn eq(&self, other: &Self) -> (r: bool) {
        self.items == other.items
    }
}

impl<T: PartialEq> vstd::std_specs::cmp::PartialEqSpecImpl for VecProducer<T> {
    open spec fn obeys_eq_spec() -> bool {
        T::obeys_eq_spec()
    }

    open spec fn eq_spec(&self, other: &Self) -> bool {
        &&& self.remaining().len() == other.remaining().len()
        &&& forall|i: int|
            0 <= i < self.remaining().len() ==> PartialEqSpec::eq_spec(
                &self.remaining()[i],
                &other.remaining()[i],
            )
    }
}

impl<T: Eq> Eq for VecProducer<T> {
}

/// The items of one entry: one item for `Some`, none for `None`.
pub open spec fn entry_items<T>(entry: Option<T>) -> Seq<T> {
    match entry {
        Some(item) => seq![item],
        None => Seq::empty(),
    }
}

/// The items present among a sequence of optional entries, in order.
pub open spec fn present<T>(entries: Seq<Option<T>>) -> Seq<T>
    decreases entries.len(),
{
    if entries.len() == 0 {
        Seq::empty()
    } else {
        entry_items(entries.first()) + present(entries.drop_first())
    }
}

proof fn lemma_present_len<T>(entries: Seq<Option<T>>)
    ensures
        present(entries).len() <= entries.len(),
    decreases entries.len(),
{
    if entries.len() > 0 {
        lemma_present_len(entries.drop_first());
    }
}

proof fn lemma_present_drop_last<T>(entries: Seq<Option<T>>)
    requires
        entries.len() > 0,
    ensures
        present(entries) == present(entries.drop_last()) + entry_items(entries.last()),
    decreases entries.len(),
{
    if entries.len() == 1 {
        assert(entries.drop_last() =~= Seq::<Option<T>>::empty());
        assert(entries.drop_first() =~= Seq::<Option<T>>::empty());
        assert(present(Seq::<Option<T>>::empty()) == Seq::<T>::empty());
        assert(entries.first() == entries.last());
        assert(present(entries) == entry_items(entries.last()) + Seq::<T>::empty());
        assert(present(entries) =~= present(entries.drop_last()) + entry_items(entries.last()));
    } else {
        let rest = entries.drop_first();
        let shortened = entries.drop_last();
        lemma_present_drop_last(rest);
        assert(rest.last() == entries.last());
        assert(rest.drop_last() =~= shortened.drop_first());
        assert(shortened.first() == entries.first());
        assert(present(entries) == entry_items(entries.first()) + present(rest));
        assert(present(shortened) == entry_items(entries.first()) + present(rest.drop_last()));
        assert((entry_items(entries.first()) + present(rest.drop_last())) + entry_items(
            entries.last(),
        ) =~= entry_items(entries.first()) + (present(rest.drop_last()) + entry_items(
            entries.last(),
        )));
    }
}

/// A producer over the present entries of a vector of optional entries.  It
/// skips over absent entries on each pull, so it cannot know in advance how
/// many items remain: it reports a lower bound of zero and the number of
/// unscanned entries as the upper bound.
#[derive(Debug)]
pub struct SparseProducer<T> {
    entries: Vec<Option<T>>,
}

impl<T> SparseProducer<T> {
    /// Wraps a vector of optional entries.
    pub fn new(entries: Vec<Option<T>>) -> (r: Self)
        ensures
            r.remaining() == present(entries@),
            r.lower_bound() == 0,
            r.upper_bound() == Some((entries@.len() as usize)),
    {
        // `len` pins down that the length fits in `usize`, which the bound
        // clauses need.
        let _length_fits: usize = entries.len();
        SparseProducer { entries }
    }
}

impl<T> Producer for SparseProducer<T> {
    type Item = T;

    closed spec fn remaining(&self) -> Seq<T> {
        present(self.entries@)
    }

    closed spec fn lower_bound(&self) -> usize {
        0
    }

    closed spec fn upper_bound(&self) -> Option<usize> {
        Some(self.entries@.len() as usize)
    }

    fn next(&mut self) -> (r: Option<T>) {
        loop
            invariant
                present(self.entries@) == present(old(self).entries@),
            decreases self.entries@.len(),
        {
            if self.items_scanned_out() {
                return None;
            }
            let ghost before = self.entries@;
            let entry = self.entries.remove(0);
            proof {
                assert(before.remove(0) =~= before.drop_first());
            }
            match entry {
                Some(item) => {
                    proof {
                        assert(present(before).drop_first() =~= present(before.drop_first()));
                    }
                    return Some(item);
                },
                None => {},
            }
        }
    }

    fn size_hint(&self) -> (r: (usize, Option<usize>)) {
        proof {
            lemma_present_len(self.entries@);
        }
        (0, Some(self.entries.len()))
    }
}

impl<T> SparseProducer<T> {
    /// True when no entries are left to scan.
    fn items_scanned_out(&self) -> (r: bool)
        ensures
            r <==> self.entries@.len() == 0,
    {
        self.entries.is_empty()
    }
}

impl<T> DoubleEndedProducer for SparseProducer<T> {
    fn next_back(&mut self) -> (r: Option<T>) {
        loop
            invariant
                present(self.entries@) == present(old(self).entries@),
            decreases self.entries@.len(),
        {
            let ghost before = self.entries@;
            let entry_opt = self.entries.pop();
            match entry_opt {
                None => {
                    return None;
                },
                Some(entry) => {
                    proof {
                        lemma_present_drop_last(before);
                        assert(before.subrange(0, before.len() - 1) =~= before.drop_last());
                    }
                    match entry {
                        Some(item) => {
                            proof {
                                assert(present(before).drop_last() =~= present(
                                    before.drop_last(),
                                ));
                            }
                            return Some(item);
                        },
                        None => {
                            proof {
                                assert(present(before) =~= present(before.drop_last()));
                            }
                        },
                    }
                },
            }
        }
    }
}

} // verus!
