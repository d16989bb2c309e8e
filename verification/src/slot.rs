//! The per-end lookahead slot.
//!
//! A slot records whether a pull has already been attempted at its end of the
//! sequence and, if so, caches the outcome of that single pull: either an item
//! or the end-of-sequence marker.  Keeping "not yet pulled" distinct from
//! "pulled, and the sequence was over" is what lets the adapter reconcile the
//! two ends without losing or duplicating the final item.

use vstd::prelude::*;
use vstd::std_specs::cmp::PartialEqSpec;

verus! {

/// A lookahead slot for one end of the sequence.
///
/// `Unpeeked` means no pull has been attempted since the slot was last
/// drained; `Peeked(outcome)` caches the outcome of exactly one pull, where
/// `Some(item)` is an item and `None` is the end-of-sequence marker.
#[derive(Debug, Default, Copy)]
pub enum MaybePeeked<T> {
    #[default]
    Unpeeked,
    Peeked(Option<T>),
}

impl<T: Clone> MaybePeeked<T> {
    /// This slot keeps the structure of `source` under cloning; a cached
    /// item is related to its source item by `T::clone`.
    pub open spec fn is_clone_of(self, source: Self) -> bool {
        match source {
            MaybePeeked::Unpeeked => self is Unpeeked,
            MaybePeeked::Peeked(None) => self == MaybePeeked::<T>::Peeked(None),
            MaybePeeked::Peeked(Some(item)) => self matches MaybePeeked::Peeked(Some(copy))
                && cloned::<T>(item, copy),
        }
    }
}

impl<T: Clone> Clone for MaybePeeked<T> {
    /// The slot's structure is preserved; a cached item is cloned.
    fn clone(&self) -> (r: Self)
        ensures
            r.is_clone_of(*self),
    {
        match self {
            MaybePeeked::Unpeeked => MaybePeeked::Unpeeked,
            MaybePeeked::Peeked(outcome) => MaybePeeked::Peeked(outcome.clone()),
        }
    }
}

/// What slot equality means: the same state — both not yet pulled, both at
/// end-of-sequence, or both caching items that are equal by `T`'s own
/// equality specification.
pub open spec fn slot_eq_spec<T: PartialEq>(a: MaybePeeked<T>, b: MaybePeeked<T>) -> bool {
    match (a, b) {
        (MaybePeeked::Unpeeked, MaybePeeked::Unpeeked) => true,
        (MaybePeeked::Peeked(None), MaybePeeked::Peeked(None)) => true,
        (MaybePeeked::Peeked(Some(x)), MaybePeeked::Peeked(Some(y))) => PartialEqSpec::eq_spec(
            &x,
            &y,
        ),
        _ => false,
    }
}

impl<T: PartialEq> MaybePeeked<T> {
    /// True when the two slots are in the same state with equal cached
    /// items, whenever `T`'s `==` agrees with its specification.
    pub fn same_state(&self, other: &Self) -> (r: bool)
        ensures
            T::obeys_eq_spec() ==> r == slot_eq_spec(*self, *other),
    {
        match (self, other) {
            (MaybePeeked::Unpeeked, MaybePeeked::Unpeeked) => true,
            (MaybePeeked::Peeked(a), MaybePeeked::Peeked(b)) => a == b,
            _ => false,
        }
    }
}

impl<T: PartialEq> PartialEq for MaybePeeked<T> {
    /// Two slots are equal only when their states match: both not yet
    /// pulled, both at end-of-sequence, or both caching equal items.
    fn eq(&self, other: &Self) -> (r: bool) {
        self.same_state(other)
    }
}

impl<T: PartialEq> vstd::std_specs::cmp::PartialEqSpecImpl for MaybePeeked<T> {
    open spec fn obeys_eq_spec() -> bool {
        T::obeys_eq_spec()
    }

    open spec fn eq_spec(&self, other: &Self) -> bool {
        slot_eq_spec(*self, *other)
    }
}

impl<T: Eq> Eq for MaybePeeked<T> {
}

impl<T> MaybePeeked<T> {
    /// The real items held by this slot, as a sequence: empty unless the slot
    /// caches an item, in which case it holds exactly that item.
    pub open spec fn cached(self) -> Seq<T> {
        match self {
            MaybePeeked::Peeked(Some(item)) => seq![item],
            _ => Seq::empty(),
        }
    }

    /// True when the slot caches the end-of-sequence marker.
    pub open spec fn is_end_marker(self) -> bool {
        self matches MaybePeeked::Peeked(None)
    }

    /// A reference to the cached item, if the slot holds one.
    pub fn peeked_value_ref(&self) -> (r: Option<&T>)
        ensures
            match r {
                Some(item) => *self == MaybePeeked::Peeked(Some(*item)),
                None => self.cached().len() == 0,
            },
    {
        match self {
            MaybePeeked::Peeked(Some(item)) => Some(item),
            _ => None,
        }
    }

    /// A mutable reference to the cached item, if the slot holds one; writing
    /// through it replaces the cached item in place.
    pub fn peeked_value_mut(&mut self) -> (r: Option<&mut T>)
        ensures
            match *old(self) {
                MaybePeeked::Peeked(Some(x)) => match r {
                    Some(p) => *p == x && *final(self) == MaybePeeked::Peeked(Some(*final(p))),
                    None => false,
                },
                _ => r is None && *final(self) == *old(self),
            },
    {
        match self {
            MaybePeeked::Peeked(Some(item)) => Some(item),
            _ => None,
        }
    }

    /// True when no pull has been attempted.
    pub fn is_unpeeked(&self) -> (r: bool)
        ensures
            r == (*self is Unpeeked),
    {
        matches!(self, MaybePeeked::Unpeeked)
    }

    /// Drains the slot, leaving it `Unpeeked` and returning its former state.
    pub fn take(&mut self) -> (r: Self)
        ensures
            r == *old(self),
            *final(self) is Unpeeked,
    {
        let mut taken = MaybePeeked::Unpeeked;
        core::mem::swap(self, &mut taken);
        taken
    }

    /// The cached item, if any; consumes the slot.
    pub fn into_peeked_value(self) -> (r: Option<T>)
        ensures
            match self {
                MaybePeeked::Peeked(outcome) => r == outcome,
                MaybePeeked::Unpeeked => r is None,
            },
    {
        match self {
            MaybePeeked::Peeked(outcome) => outcome,
            MaybePeeked::Unpeeked => None,
        }
    }
}

} // verus!
