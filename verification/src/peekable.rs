//! The dual-ended lookahead adapter.
//!
//! [`DoubleEndedPeekable`] wraps a [`Producer`] and adds the ability to
//! inspect the next item from either end without consuming it.  It keeps one
//! lookahead slot per end; every pull first checks the slots, and a consuming
//! pull that finds its own end exhausted falls back to the opposite slot, so
//! that the one remaining item held from the other side is never lost and
//! never handed out twice.

use vstd::prelude::*;
use vstd::std_specs::cmp::PartialEqSpec;

use crate::producer::DoubleEndedProducer;
use crate::producer::Producer;
use crate::slot::MaybePeeked;
use crate::slot::slot_eq_spec;

verus! {

/// True when `==` on `T` agrees with its specification `eq_spec`.
pub open spec fn eq_spec_obeyed<T: PartialEq>() -> bool {
    T::obeys_eq_spec()
}

/// Clamps a mathematical sum into the `usize` range.
pub open spec fn saturate_usize(n: int) -> usize {
    if n > usize::MAX as int {
        usize::MAX
    } else {
        n as usize
    }
}

/// A producer with one lookahead slot per end.
///
/// The adapter owns the wrapped producer exclusively; all mutation of the
/// iteration state happens through the adapter's own methods.
pub struct DoubleEndedPeekable<I: Producer> {
    iter: I,
    front: MaybePeeked<I::Item>,
    back: MaybePeeked<I::Item>,
}

impl<I: Producer> DoubleEndedPeekable<I> {
    /// The wrapped producer.
    pub closed spec fn producer(&self) -> I {
        self.iter
    }

    /// The front lookahead slot.
    pub closed spec fn front_state(&self) -> MaybePeeked<I::Item> {
        self.front
    }

    /// The back lookahead slot.
    pub closed spec fn back_state(&self) -> MaybePeeked<I::Item> {
        self.back
    }

    /// The items the adapter has not yet handed out, in front-to-back order:
    /// whatever the front slot caches, then the producer's remaining items,
    /// then whatever the back slot caches.
    pub open spec fn remaining(&self) -> Seq<I::Item> {
        self.front_state().cached() + self.producer().remaining() + self.back_state().cached()
    }

    /// The items a forward consume can reach before falling back to the back
    /// slot.
    pub open spec fn front_segment(&self) -> Seq<I::Item> {
        self.front_state().cached() + self.producer().remaining()
    }

    /// The items a backward consume can reach before falling back to the
    /// front slot.
    pub open spec fn back_segment(&self) -> Seq<I::Item> {
        self.producer().remaining() + self.back_state().cached()
    }

    /// How many real items the two slots currently cache.
    pub open spec fn cached_count(&self) -> nat {
        self.front_state().cached().len() + self.back_state().cached().len()
    }

    /// A slot caches the end-of-sequence marker only after a pull really
    /// found the producer exhausted, so a cached end marker means the
    /// producer has nothing left.
    pub open spec fn well_formed(&self) -> bool {
        &&& (self.front_state().is_end_marker() ==> self.producer().remaining().len() == 0)
        &&& (self.back_state().is_end_marker() ==> self.producer().remaining().len() == 0)
    }

    /// How the slots and the producer change when one item is consumed from
    /// the front: while the front segment can serve, the back slot is
    /// untouched; once it cannot, the consume drains the back slot instead
    /// and leaves the producer alone.
    pub open spec fn front_consumed_by(self, post: Self) -> bool {
        &&& (self.front_segment().len() > 0 ==> post.back_state() == self.back_state()
            && post.producer().remaining() == self.front_segment().drop_first())
        &&& (self.front_segment().len() == 0 ==> post.back_state() is Unpeeked
            && post.producer().remaining() == self.producer().remaining())
    }

    /// Mirror of [`Self::front_consumed_by`], for consuming from the back.
    pub open spec fn back_consumed_by(self, post: Self) -> bool {
        &&& (self.back_segment().len() > 0 ==> post.front_state() == self.front_state()
            && post.producer().remaining() == self.back_segment().drop_last())
        &&& (self.back_segment().len() == 0 ==> post.front_state() is Unpeeked
            && post.producer().remaining() == self.producer().remaining())
    }

    /// Takes ownership of `producer`; both lookahead slots start empty.
    pub fn wrap(producer: I) -> (r: Self)
        ensures
            r.producer() == producer,
            r.front_state() is Unpeeked,
            r.back_state() is Unpeeked,
            r.well_formed(),
            r.remaining() == producer.remaining(),
    {
        let r = DoubleEndedPeekable {
            iter: producer,
            front: MaybePeeked::Unpeeked,
            back: MaybePeeked::Unpeeked,
        };
        proof {
            assert(r.remaining() =~= producer.remaining());
        }
        r
    }

    /// The front lookahead slot, for inspection.
    pub fn front_slot(&self) -> (r: &MaybePeeked<I::Item>)
        ensures
            *r == self.front_state(),
    {
        &self.front
    }

    /// The back lookahead slot, for inspection.
    pub fn back_slot(&self) -> (r: &MaybePeeked<I::Item>)
        ensures
            *r == self.back_state(),
    {
        &self.back
    }

    /// Consumes and returns the next item from the front.
    ///
    /// The front slot is drained first; a cached end marker, or an exhausted
    /// producer, makes the call fall back to draining the back slot.
    pub fn next(&mut self) -> (r: Option<I::Item>)
        requires
            old(self).well_formed(),
        ensures
            final(self).well_formed(),
            final(self).front_state() is Unpeeked,
            match r {
                Some(item) => old(self).remaining().len() > 0 && item == old(self).remaining().first() && final(self).remaining() == old(self).remaining().drop_first(),
                None => old(self).remaining().len() == 0 && final(self).remaining().len() == 0,
            },
            old(self).front_consumed_by(*final(self)),
    {
        let r = match self.front.take() {
            MaybePeeked::Peeked(Some(item)) => Some(item),
            MaybePeeked::Peeked(None) => self.back.take().into_peeked_value(),
            MaybePeeked::Unpeeked => match self.iter.next() {
                Some(item) => Some(item),
                None => self.back.take().into_peeked_value(),
            },
        };
        proof {
            if old(self).front_segment().len() > 0 {
                assert(old(self).remaining().first() == old(self).front_segment().first());
                assert(self.producer().remaining() =~= old(self).front_segment().drop_first());
                assert(self.remaining() =~= old(self).remaining().drop_first());
            } else {
                assert(old(self).remaining() =~= old(self).back_state().cached());
                if old(self).remaining().len() > 0 {
                    assert(self.remaining() =~= old(self).remaining().drop_first());
                }
            }
        }
        r
    }

    /// Returns a reference to the next front item without consuming it.
    ///
    /// If the front slot is empty, exactly one pull is made from the
    /// producer's front and its outcome is cached; repeated peeks leave the
    /// adapter unchanged.  When the front is exhausted but the back slot
    /// caches the one remaining item, a reference to that item is returned.
    pub fn peek(&mut self) -> (r: Option<&I::Item>)
        requires
            old(self).well_formed(),
        ensures
            final(self).well_formed(),
            final(self).remaining() == old(self).remaining(),
            final(self).back_state() == old(self).back_state(),
            final(self).front_state() is Peeked,
            old(self).front_state() is Peeked ==> *final(self) == *old(self),
            (old(self).front_state() is Unpeeked && old(self).producer().remaining().len() > 0)
                ==> final(self).front_state() == MaybePeeked::Peeked(
                Some(old(self).producer().remaining().first()),
            ) && final(self).producer().remaining() == old(self).producer().remaining().drop_first(),
            (old(self).front_state() is Unpeeked && old(self).producer().remaining().len() == 0)
                ==> final(self).front_state() == MaybePeeked::<I::Item>::Peeked(None) && final(self).producer().remaining() == old(self).producer().remaining(),
            match r {
                Some(item) => old(self).remaining().len() > 0 && *item == old(self).remaining().first(),
                None => old(self).remaining().len() == 0,
            },
    {
        if self.front.is_unpeeked() {
            let pulled = self.iter.next();
            self.front = MaybePeeked::Peeked(pulled);
        }
        proof {
            assert(self.remaining() =~= old(self).remaining());
        }
        match &self.front {
            MaybePeeked::Peeked(Some(item)) => Some(item),
            _ => self.back.peeked_value_ref(),
        }
    }

    /// Returns a mutable reference to the next front item without consuming
    /// it.
    ///
    /// Same semantics as [`Self::peek`], but the caller may replace the
    /// cached item in place; the replacement is what the eventual consuming
    /// call hands out.
    pub fn peek_mut(&mut self) -> (r: Option<&mut I::Item>)
        requires
            old(self).well_formed(),
        ensures
            final(self).well_formed(),
            r is Some ==> old(self).remaining().len() > 0 && *r.unwrap() == old(self).remaining().first() && final(self).remaining() =~= old(self).remaining().update(
                0,
                *final(r.unwrap()),
            ),
            r is Some && old(self).front_segment().len() > 0 ==> final(self).front_state()
                == MaybePeeked::Peeked(Some(*final(r.unwrap()))) && final(self).back_state() == old(self).back_state() && final(self).producer().remaining() =~= old(self).front_segment().drop_first(),
            r is Some && old(self).front_segment().len() == 0 ==> final(self).front_state()
                == MaybePeeked::<I::Item>::Peeked(None) && final(self).back_state()
                == MaybePeeked::Peeked(Some(*final(r.unwrap()))) && final(self).producer().remaining().len() == 0,
            r is None ==> old(self).remaining().len() == 0 && final(self).remaining().len() == 0
                && final(self).front_state() == MaybePeeked::<I::Item>::Peeked(None) && final(self).back_state() == old(self).back_state() && final(self).producer().remaining().len()
                == 0,
    {
        if self.front.is_unpeeked() {
            let pulled = self.iter.next();
            self.front = MaybePeeked::Peeked(pulled);
        }
        match &mut self.front {
            MaybePeeked::Peeked(Some(item)) => Some(item),
            _ => self.back.peeked_value_mut(),
        }
    }

    /// Consumes and returns the next front item if `func` approves of it.
    ///
    /// The tentatively pulled outcome — the rejected item, or the end marker
    /// on exhaustion — is pushed back into the front slot, so nothing is
    /// lost; `func` is called at most once, on a reference to the item.
    pub fn next_if<F: FnOnce(&I::Item) -> bool>(&mut self, func: F) -> (r: Option<I::Item>)
        requires
            old(self).well_formed(),
            old(self).remaining().len() > 0 ==> call_requires(
                func,
                (&old(self).remaining().first(),),
            ),
        ensures
            final(self).well_formed(),
            match r {
                Some(item) => {
                    &&& old(self).remaining().len() > 0
                    &&& item == old(self).remaining().first()
                    &&& call_ensures(func, (&item,), true)
                    &&& final(self).remaining() == old(self).remaining().drop_first()
                    &&& final(self).front_state() is Unpeeked
                    &&& old(self).front_consumed_by(*final(self))
                },
                None => {
                    &&& final(self).remaining() == old(self).remaining()
                    &&& (old(self).remaining().len() > 0 ==> {
                        &&& call_ensures(func, (&old(self).remaining().first(),), false)
                        &&& final(self).front_state() == MaybePeeked::Peeked(
                            Some(old(self).remaining().first()),
                        )
                        &&& old(self).front_consumed_by(*final(self))
                    })
                    &&& (old(self).remaining().len() == 0 ==> {
                        &&& final(self).front_state() == MaybePeeked::<I::Item>::Peeked(None)
                        &&& final(self).back_state() is Unpeeked
                        &&& final(self).producer().remaining().len() == 0
                    })
                },
            },
    {
        match self.next() {
            Some(item) => if func(&item) {
                Some(item)
            } else {
                self.front = MaybePeeked::Peeked(Some(item));
                proof {
                    assert(self.remaining() =~= old(self).remaining());
                }
                None
            },
            None => {
                self.front = MaybePeeked::Peeked(None);
                None
            },
        }
    }

    /// Consumes and returns the next front item if it equals `expected`.
    ///
    /// Sugar for [`Self::next_if`] with an equality test; what the test
    /// returns is pinned down whenever the item type's `==` agrees with its
    /// specification.
    pub fn next_if_eq(&mut self, expected: &I::Item) -> (r: Option<I::Item>) where
        I::Item: PartialEq,

        requires
            old(self).well_formed(),
        ensures
            final(self).well_formed(),
            match r {
                Some(item) => {
                    &&& old(self).remaining().len() > 0
                    &&& item == old(self).remaining().first()
                    &&& (eq_spec_obeyed::<I::Item>() ==> item.eq_spec(expected))
                    &&& final(self).remaining() == old(self).remaining().drop_first()
                    &&& final(self).front_state() is Unpeeked
                    &&& old(self).front_consumed_by(*final(self))
                },
                None => {
                    &&& final(self).remaining() == old(self).remaining()
                    &&& (old(self).remaining().len() > 0 ==> {
                        &&& (eq_spec_obeyed::<I::Item>() ==> !old(
                            self,
                        ).remaining().first().eq_spec(expected))
                        &&& final(self).front_state() == MaybePeeked::Peeked(
                            Some(old(self).remaining().first()),
                        )
                        &&& old(self).front_consumed_by(*final(self))
                    })
                    &&& (old(self).remaining().len() == 0 ==> {
                        &&& final(self).front_state() == MaybePeeked::<I::Item>::Peeked(None)
                        &&& final(self).back_state() is Unpeeked
                        &&& final(self).producer().remaining().len() == 0
                    })
                },
            },
    {
        self.next_if(
            (|item: &I::Item| -> (matched: bool)
                ensures
                    eq_spec_obeyed::<I::Item>() ==> matched == item.eq_spec(expected),
                { *item == *expected }),
        )
    }

    /// Reports bounds on the number of items the adapter can still hand out:
    /// the producer's own bounds, corrected by one for each slot that caches
    /// a real item already pulled out of the producer.  Sums that would not
    /// fit in `usize` are clamped.
    pub fn size_hint(&self) -> (r: (usize, Option<usize>))
        ensures
            r.0 == saturate_usize(self.producer().lower_bound() + self.cached_count()),
            r.1 == match self.producer().upper_bound() {
                Some(upper) => Some(saturate_usize(upper + self.cached_count())),
                None => None::<usize>,
            },
            r.0 <= self.remaining().len(),
            (self.producer().upper_bound() matches Some(upper) ==> self.remaining().len() <= upper
                + self.cached_count()),
    {
        let (lower, upper) = self.iter.size_hint();
        let mut additional: usize = 0;
        if self.front.peeked_value_ref().is_some() {
            additional = additional + 1;
        }
        if self.back.peeked_value_ref().is_some() {
            additional = additional + 1;
        }
        let low = if lower <= usize::MAX - additional {
            lower + additional
        } else {
            usize::MAX
        };
        let high = match upper {
            Some(u) => Some(
                if u <= usize::MAX - additional {
                    u + additional
                } else {
                    usize::MAX
                },
            ),
            None => None,
        };
        (low, high)
    }
}

impl<I: DoubleEndedProducer> DoubleEndedPeekable<I> {
    /// Consumes and returns the next item from the back.
    ///
    /// Mirror of [`Self::next`]: the back slot is drained first, and an
    /// exhausted back end falls back to draining the front slot.
    pub fn next_back(&mut self) -> (r: Option<I::Item>)
        requires
            old(self).well_formed(),
        ensures
            final(self).well_formed(),
            final(self).back_state() is Unpeeked,
            match r {
                Some(item) => old(self).remaining().len() > 0 && item == old(self).remaining().last() && final(self).remaining() == old(self).remaining().drop_last(),
                None => old(self).remaining().len() == 0 && final(self).remaining().len() == 0,
            },
            old(self).back_consumed_by(*final(self)),
    {
        let r = match self.back.take() {
            MaybePeeked::Peeked(Some(item)) => Some(item),
            MaybePeeked::Peeked(None) => self.front.take().into_peeked_value(),
            MaybePeeked::Unpeeked => match self.iter.next_back() {
                Some(item) => Some(item),
                None => self.front.take().into_peeked_value(),
            },
        };
        proof {
            if old(self).back_segment().len() > 0 {
                assert(old(self).remaining().last() == old(self).back_segment().last());
                assert(self.producer().remaining() =~= old(self).back_segment().drop_last());
                assert(self.remaining() =~= old(self).remaining().drop_last());
            } else {
                assert(old(self).remaining() =~= old(self).front_state().cached());
                if old(self).remaining().len() > 0 {
                    assert(self.remaining() =~= old(self).remaining().drop_last());
                }
            }
        }
        r
    }

    /// Returns a reference to the next back item without consuming it.
    ///
    /// Mirror of [`Self::peek`].
    pub fn peek_back(&mut self) -> (r: Option<&I::Item>)
        requires
            old(self).well_formed(),
        ensures
            final(self).well_formed(),
            final(self).remaining() == old(self).remaining(),
            final(self).front_state() == old(self).front_state(),
            final(self).back_state() is Peeked,
            old(self).back_state() is Peeked ==> *final(self) == *old(self),
            (old(self).back_state() is Unpeeked && old(self).producer().remaining().len() > 0)
                ==> final(self).back_state() == MaybePeeked::Peeked(
                Some(old(self).producer().remaining().last()),
            ) && final(self).producer().remaining() == old(self).producer().remaining().drop_last(),
            (old(self).back_state() is Unpeeked && old(self).producer().remaining().len() == 0)
                ==> final(self).back_state() == MaybePeeked::<I::Item>::Peeked(None) && final(self).producer().remaining() == old(self).producer().remaining(),
            match r {
                Some(item) => old(self).remaining().len() > 0 && *item == old(self).remaining().last(),
                None => old(self).remaining().len() == 0,
            },
    {
        if self.back.is_unpeeked() {
            let pulled = self.iter.next_back();
            self.back = MaybePeeked::Peeked(pulled);
        }
        proof {
            assert(self.remaining() =~= old(self).remaining());
        }
        match &self.back {
            MaybePeeked::Peeked(Some(item)) => Some(item),
            _ => self.front.peeked_value_ref(),
        }
    }

    /// Returns a mutable reference to the next back item without consuming
    /// it.
    ///
    /// Same semantics as [`Self::peek_back`], but the caller may replace the
    /// cached item in place; the replacement is what the eventual consuming
    /// call hands out.
    pub fn peek_back_mut(&mut self) -> (r: Option<&mut I::Item>)
        requires
            old(self).well_formed(),
        ensures
            final(self).well_formed(),
            r is Some ==> old(self).remaining().len() > 0 && *r.unwrap() == old(self).remaining().last() && final(self).remaining() =~= old(self).remaining().update(
                old(self).remaining().len() - 1,
                *final(r.unwrap()),
            ),
            r is Some && old(self).back_segment().len() > 0 ==> final(self).back_state()
                == MaybePeeked::Peeked(Some(*final(r.unwrap()))) && final(self).front_state()
                == old(self).front_state() && final(self).producer().remaining() =~= old(self).back_segment().drop_last(),
            r is Some && old(self).back_segment().len() == 0 ==> final(self).back_state()
                == MaybePeeked::<I::Item>::Peeked(None) && final(self).front_state()
                == MaybePeeked::Peeked(Some(*final(r.unwrap()))) && final(self).producer().remaining().len() == 0,
            r is None ==> old(self).remaining().len() == 0 && final(self).remaining().len() == 0
                && final(self).back_state() == MaybePeeked::<I::Item>::Peeked(None) && final(self).front_state() == old(self).front_state() && final(self).producer().remaining().len() == 0,
    {
        if self.back.is_unpeeked() {
            let pulled = self.iter.next_back();
            self.back = MaybePeeked::Peeked(pulled);
        }
        match &mut self.back {
            MaybePeeked::Peeked(Some(item)) => Some(item),
            _ => self.front.peeked_value_mut(),
        }
    }

    /// Consumes and returns the next back item if `func` approves of it.
    ///
    /// Mirror of [`Self::next_if`]: the tentatively pulled outcome is pushed
    /// back into the back slot, so nothing is lost.
    pub fn next_back_if<F: FnOnce(&I::Item) -> bool>(&mut self, func: F) -> (r: Option<I::Item>)
        requires
            old(self).well_formed(),
            old(self).remaining().len() > 0 ==> call_requires(
                func,
                (&old(self).remaining().last(),),
            ),
        ensures
            final(self).well_formed(),
            match r {
                Some(item) => {
                    &&& old(self).remaining().len() > 0
                    &&& item == old(self).remaining().last()
                    &&& call_ensures(func, (&item,), true)
                    &&& final(self).remaining() == old(self).remaining().drop_last()
                    &&& final(self).back_state() is Unpeeked
                    &&& old(self).back_consumed_by(*final(self))
                },
                None => {
                    &&& final(self).remaining() == old(self).remaining()
                    &&& (old(self).remaining().len() > 0 ==> {
                        &&& call_ensures(func, (&old(self).remaining().last(),), false)
                        &&& final(self).back_state() == MaybePeeked::Peeked(
                            Some(old(self).remaining().last()),
                        )
                        &&& old(self).back_consumed_by(*final(self))
                    })
                    &&& (old(self).remaining().len() == 0 ==> {
                        &&& final(self).back_state() == MaybePeeked::<I::Item>::Peeked(None)
                        &&& final(self).front_state() is Unpeeked
                        &&& final(self).producer().remaining().len() == 0
                    })
                },
            },
    {
        match self.next_back() {
            Some(item) => if func(&item) {
                Some(item)
            } else {
                self.back = MaybePeeked::Peeked(Some(item));
                proof {
                    assert(self.remaining() =~= old(self).remaining());
                }
                None
            },
            None => {
                self.back = MaybePeeked::Peeked(None);
                None
            },
        }
    }

    /// Consumes and returns the next back item if it equals `expected`.
    ///
    /// Sugar for [`Self::next_back_if`] with an equality test.
    pub fn next_back_if_eq(&mut self, expected: &I::Item) -> (r: Option<I::Item>) where
        I::Item: PartialEq,

        requires
            old(self).well_formed(),
        ensures
            final(self).well_formed(),
            match r {
                Some(item) => {
                    &&& old(self).remaining().len() > 0
                    &&& item == old(self).remaining().last()
                    &&& (eq_spec_obeyed::<I::Item>() ==> item.eq_spec(expected))
                    &&& final(self).remaining() == old(self).remaining().drop_last()
                    &&& final(self).back_state() is Unpeeked
                    &&& old(self).back_consumed_by(*final(self))
                },
                None => {
                    &&& final(self).remaining() == old(self).remaining()
                    &&& (old(self).remaining().len() > 0 ==> {
                        &&& (eq_spec_obeyed::<I::Item>() ==> !old(self).remaining().last().eq_spec(
                            expected,
                        ))
                        &&& final(self).back_state() == MaybePeeked::Peeked(
                            Some(old(self).remaining().last()),
                        )
                        &&& old(self).back_consumed_by(*final(self))
                    })
                    &&& (old(self).remaining().len() == 0 ==> {
                        &&& final(self).back_state() == MaybePeeked::<I::Item>::Peeked(None)
                        &&& final(self).front_state() is Unpeeked
                        &&& final(self).producer().remaining().len() == 0
                    })
                },
            },
    {
        self.next_back_if(
            (|item: &I::Item| -> (matched: bool)
                ensures
                    eq_spec_obeyed::<I::Item>() ==> matched == item.eq_spec(expected),
                { *item == *expected }),
        )
    }

    /// Consumes and returns the front and back items together if `func`
    /// approves of the pair.
    ///
    /// The front item is pulled before the back one.  If fewer than two
    /// items remain, or `func` rejects the pair, both pulled outcomes are
    /// restored into their slots, so a later consume from either end resumes
    /// exactly where it left off; with exactly one item left, that one item
    /// is afterwards handed out once — by whichever end consumes first — and
    /// never twice.
    pub fn next_front_back_if<F: FnOnce(&I::Item, &I::Item) -> bool>(&mut self, func: F) -> (r:
        Option<(I::Item, I::Item)>)
        requires
            old(self).well_formed(),
            old(self).remaining().len() >= 2 ==> call_requires(
                func,
                (&old(self).remaining().first(), &old(self).remaining().last()),
            ),
        ensures
            final(self).well_formed(),
            match r {
                Some(pair) => {
                    &&& old(self).remaining().len() >= 2
                    &&& pair.0 == old(self).remaining().first()
                    &&& pair.1 == old(self).remaining().last()
                    &&& call_ensures(func, (&pair.0, &pair.1), true)
                    &&& final(self).remaining() == old(self).remaining().drop_first().drop_last()
                    &&& final(self).front_state() is Unpeeked
                    &&& final(self).back_state() is Unpeeked
                    &&& final(self).producer().remaining() == final(self).remaining()
                },
                None => {
                    &&& final(self).remaining() == old(self).remaining()
                    &&& (old(self).remaining().len() >= 2 ==> {
                        &&& call_ensures(
                            func,
                            (&old(self).remaining().first(), &old(self).remaining().last()),
                            false,
                        )
                        &&& final(self).front_state() == MaybePeeked::Peeked(
                            Some(old(self).remaining().first()),
                        )
                        &&& final(self).back_state() == MaybePeeked::Peeked(
                            Some(old(self).remaining().last()),
                        )
                        &&& final(self).producer().remaining() == old(
                            self,
                        ).remaining().drop_first().drop_last()
                    })
                    &&& (old(self).remaining().len() == 1 ==> {
                        &&& final(self).front_state() == MaybePeeked::Peeked(
                            Some(old(self).remaining().first()),
                        )
                        &&& final(self).back_state() == MaybePeeked::<I::Item>::Peeked(None)
                        &&& final(self).producer().remaining().len() == 0
                    })
                    &&& (old(self).remaining().len() == 0 ==> {
                        &&& final(self).front_state() == MaybePeeked::<I::Item>::Peeked(None)
                        &&& final(self).back_state() == MaybePeeked::<I::Item>::Peeked(None)
                        &&& final(self).producer().remaining().len() == 0
                    })
                },
            },
    {
        let front_out = self.next();
        let back_out = self.next_back();
        match (front_out, back_out) {
            (Some(front_item), Some(back_item)) => {
                proof {
                    assert(old(self).remaining().drop_first().last() == old(
                        self,
                    ).remaining().last());
                    assert(self.remaining() =~= self.producer().remaining());
                }
                if func(&front_item, &back_item) {
                    Some((front_item, back_item))
                } else {
                    self.front = MaybePeeked::Peeked(Some(front_item));
                    self.back = MaybePeeked::Peeked(Some(back_item));
                    proof {
                        assert(self.remaining() =~= old(self).remaining());
                    }
                    None
                }
            },
            (other_front, other_back) => {
                self.front = MaybePeeked::Peeked(other_front);
                self.back = MaybePeeked::Peeked(other_back);
                proof {
                    assert(self.remaining() =~= old(self).remaining());
                }
                None
            },
        }
    }

    /// Consumes and returns the front and back items together if they equal
    /// the expected values, front and back respectively.
    ///
    /// Sugar for [`Self::next_front_back_if`] with equality tests.
    pub fn next_front_back_if_eq(
        &mut self,
        expected_front: &I::Item,
        expected_back: &I::Item,
    ) -> (r: Option<(I::Item, I::Item)>) where I::Item: PartialEq
        requires
            old(self).well_formed(),
        ensures
            final(self).well_formed(),
            match r {
                Some(pair) => {
                    &&& old(self).remaining().len() >= 2
                    &&& pair.0 == old(self).remaining().first()
                    &&& pair.1 == old(self).remaining().last()
                    &&& (eq_spec_obeyed::<I::Item>() ==> pair.0.eq_spec(expected_front)
                        && pair.1.eq_spec(expected_back))
                    &&& final(self).remaining() == old(self).remaining().drop_first().drop_last()
                    &&& final(self).front_state() is Unpeeked
                    &&& final(self).back_state() is Unpeeked
                    &&& final(self).producer().remaining() == final(self).remaining()
                },
                None => {
                    &&& final(self).remaining() == old(self).remaining()
                    &&& (old(self).remaining().len() >= 2 && eq_spec_obeyed::<I::Item>() ==> !(old(
                        self,
                    ).remaining().first().eq_spec(expected_front) && old(
                        self,
                    ).remaining().last().eq_spec(expected_back)))
                    &&& (old(self).remaining().len() >= 2 ==> final(self).front_state()
                        == MaybePeeked::Peeked(Some(old(self).remaining().first())) && final(self).back_state() == MaybePeeked::Peeked(Some(old(self).remaining().last())))
                    &&& (old(self).remaining().len() == 1 ==> final(self).front_state()
                        == MaybePeeked::Peeked(Some(old(self).remaining().first())) && final(self).back_state() == MaybePeeked::<I::Item>::Peeked(None))
                    &&& (old(self).remaining().len() == 0 ==> final(self).front_state()
                        == MaybePeeked::<I::Item>::Peeked(None) && final(self).back_state()
                        == MaybePeeked::<I::Item>::Peeked(None))
                },
            },
    {
        self.next_front_back_if(
            (|front_item: &I::Item, back_item: &I::Item| -> (matched: bool)
                ensures
                    eq_spec_obeyed::<I::Item>() ==> matched == (front_item.eq_spec(expected_front)
                        && back_item.eq_spec(expected_back)),
                { *front_item == *expected_front && *back_item == *expected_back }),
        )
    }
}

impl<I: Producer + Clone> Clone for DoubleEndedPeekable<I> where I::Item: Clone {
    /// The producer and both slots are cloned; each slot keeps its
    /// structure, so a cloned adapter is at the same point of iteration.
    fn clone(&self) -> (r: Self)
        ensures
            cloned::<I>(self.producer(), r.producer()),
            r.front_state().is_clone_of(self.front_state()),
            r.back_state().is_clone_of(self.back_state()),
    {
        DoubleEndedPeekable {
            iter: self.iter.clone(),
            front: self.front.clone(),
            back: self.back.clone(),
        }
    }
}

impl<I: Producer + PartialEq> PartialEq for DoubleEndedPeekable<I> where I::Item: PartialEq {
    /// Two adapters are equal only when producer, front slot, and back slot
    /// all match: an adapter that has cached a peek is distinguishable from
    /// a freshly wrapped one, even if the same items would come out of both.
    fn eq(&self, other: &Self) -> (r: bool) {
        self.iter == other.iter && self.front.same_state(&other.front) && self.back.same_state(
            &other.back,
        )
    }
}

impl<I: Producer + PartialEq> vstd::std_specs::cmp::PartialEqSpecImpl for DoubleEndedPeekable<I> where I::Item: PartialEq {
    open spec fn obeys_eq_spec() -> bool {
        &&& I::obeys_eq_spec()
        &&& eq_spec_obeyed::<I::Item>()
    }

    open spec fn eq_spec(&self, other: &Self) -> bool {
        &&& PartialEqSpec::eq_spec(&self.producer(), &other.producer())
        &&& slot_eq_spec(self.front_state(), other.front_state())
        &&& slot_eq_spec(self.back_state(), other.back_state())
    }
}

impl<I: Producer + Eq> Eq for DoubleEndedPeekable<I> where I::Item: Eq {
}

/// An extension trait that wraps any [`Producer`] into a
/// [`DoubleEndedPeekable`].
///
/// This has a blanket implementation for all producers.
pub trait DoubleEndedPeekableExt: Producer {
    /// Wraps this producer; both lookahead slots start empty.
    fn double_ended_peekable(self) -> (r: DoubleEndedPeekable<Self>)
        ensures
            r.producer() == self,
            r.front_state() is Unpeeked,
            r.back_state() is Unpeeked,
            r.well_formed(),
            r.remaining() == self.remaining(),
    ;
}

impl<I: Producer> DoubleEndedPeekableExt for I {
    fn double_ended_peekable(self) -> (r: DoubleEndedPeekable<I>) {
        DoubleEndedPeekable::wrap(self)
    }
}

} // verus!
