//! Library-wide laws, stated over the adapter's contracts and proved.
//!
//! The contracts of [`DoubleEndedPeekable::next`] and
//! [`DoubleEndedPeekable::next_back`] say that every forward consume takes
//! exactly the first remaining item and every backward consume exactly the
//! last, while the peeks leave the remaining items untouched.  This module
//! states what follows for whole runs: any interleaving of consumes that
//! exhausts the adapter hands out exactly the original items, in order, each
//! exactly once.

use vstd::prelude::*;

use crate::peekable::DoubleEndedPeekable;
use crate::producer::DoubleEndedProducer;
use crate::producer::Producer;

verus! {

/// Which end a consuming pull drains.
pub enum Side {
    Front,
    Back,
}

/// One consuming pull, on the abstract state of a run: the items consumed
/// forward so far (in order), the items still remaining, and the items
/// consumed backward so far (in consumption order, so reversed relative to
/// the original).  A pull on an exhausted state changes nothing.
pub open spec fn consume_step<T>(state: (Seq<T>, Seq<T>, Seq<T>), side: Side) -> (
    Seq<T>,
    Seq<T>,
    Seq<T>,
) {
    if state.1.len() == 0 {
        state
    } else {
        match side {
            Side::Front => (state.0.push(state.1.first()), state.1.drop_first(), state.2),
            Side::Back => (state.0, state.1.drop_last(), state.2.push(state.1.last())),
        }
    }
}

/// A whole schedule of consuming pulls, run front to back.
pub open spec fn run_consumption<T>(state: (Seq<T>, Seq<T>, Seq<T>), sides: Seq<Side>) -> (
    Seq<T>,
    Seq<T>,
    Seq<T>,
)
    decreases sides.len(),
{
    if sides.len() == 0 {
        state
    } else {
        run_consumption(consume_step(state, sides.first()), sides.drop_first())
    }
}

/// The items of a run state reassembled into original order: the items
/// consumed forward, then the remaining ones, then the items consumed
/// backward reversed back into order.
pub open spec fn reassembled<T>(state: (Seq<T>, Seq<T>, Seq<T>)) -> Seq<T> {
    state.0 + state.1 + state.2.reverse()
}

/// One consuming pull neither loses nor duplicates an item: reassembling the
/// state afterwards gives back exactly what reassembling it before did.
pub proof fn lemma_consume_step_preserves_items<T>(state: (Seq<T>, Seq<T>, Seq<T>), side: Side)
    ensures
        reassembled(consume_step(state, side)) == reassembled(state),
{
    if state.1.len() > 0 {
        match side {
            Side::Front => {
                assert(reassembled(consume_step(state, side)) =~= reassembled(state));
            },
            Side::Back => {
                assert(state.2.push(state.1.last()).reverse() =~= seq![state.1.last()]
                    + state.2.reverse());
                assert(reassembled(consume_step(state, side)) =~= reassembled(state));
            },
        }
    }
}

/// A whole run neither loses nor duplicates an item.
pub proof fn lemma_run_preserves_items<T>(state: (Seq<T>, Seq<T>, Seq<T>), sides: Seq<Side>)
    ensures
        reassembled(run_consumption(state, sides)) == reassembled(state),
    decreases sides.len(),
{
    if sides.len() > 0 {
        lemma_consume_step_preserves_items(state, sides.first());
        lemma_run_preserves_items(consume_step(state, sides.first()), sides.drop_first());
    }
}

/// No duplication, no loss: starting from any finite sequence, any
/// interleaving of forward and backward consumes reassembles to exactly the
/// original items in original order; in particular, once the run has
/// exhausted the sequence, the forward-consumed items concatenated with the
/// backward-consumed items reversed back into order are exactly the original
/// sequence, each item exactly once.
pub proof fn lemma_no_duplication_no_loss<T>(original: Seq<T>, sides: Seq<Side>)
    ensures
        ({
            let end = run_consumption((Seq::empty(), original, Seq::empty()), sides);
            &&& reassembled(end) == original
            &&& (end.1.len() == 0 ==> end.0 + end.2.reverse() == original)
        }),
{
    let start = (Seq::<T>::empty(), original, Seq::<T>::empty());
    lemma_run_preserves_items(start, sides);
    assert(reassembled(start) =~= original);
    let end = run_consumption(start, sides);
    if end.1.len() == 0 {
        assert(end.0 + end.2.reverse() =~= reassembled(end));
    }
}

/// A forward consume performs exactly one forward step of the consumption
/// machine on the adapter's remaining-items view, handing out the first
/// remaining item when there is one.
pub fn next_matches_consume_step<I: Producer>(
    adapter: &mut DoubleEndedPeekable<I>,
    fronts: Ghost<Seq<I::Item>>,
    backs: Ghost<Seq<I::Item>>,
) -> (out: (Option<I::Item>, Ghost<Seq<I::Item>>))
    requires
        old(adapter).well_formed(),
    ensures
        final(adapter).well_formed(),
        (out.1@, final(adapter).remaining(), backs@) == consume_step(
            (fronts@, old(adapter).remaining(), backs@),
            Side::Front,
        ),
        out.0 == (if old(adapter).remaining().len() > 0 {
            Some(old(adapter).remaining().first())
        } else {
            None::<I::Item>
        }),
{
    let r = adapter.next();
    let ghost new_fronts = match &r {
        Some(item) => fronts@.push(*item),
        None => fronts@,
    };
    proof {
        if old(adapter).remaining().len() == 0 {
            assert(adapter.remaining() =~= old(adapter).remaining());
        }
    }
    (r, Ghost(new_fronts))
}

/// A backward consume performs exactly one backward step of the consumption
/// machine on the adapter's remaining-items view, handing out the last
/// remaining item when there is one.
pub fn next_back_matches_consume_step<I: DoubleEndedProducer>(
    adapter: &mut DoubleEndedPeekable<I>,
    fronts: Ghost<Seq<I::Item>>,
    backs: Ghost<Seq<I::Item>>,
) -> (out: (Option<I::Item>, Ghost<Seq<I::Item>>))
    requires
        old(adapter).well_formed(),
    ensures
        final(adapter).well_formed(),
        (fronts@, final(adapter).remaining(), out.1@) == consume_step(
            (fronts@, old(adapter).remaining(), backs@),
            Side::Back,
        ),
        out.0 == (if old(adapter).remaining().len() > 0 {
            Some(old(adapter).remaining().last())
        } else {
            None::<I::Item>
        }),
{
    let r = adapter.next_back();
    let ghost new_backs = match &r {
        Some(item) => backs@.push(*item),
        None => backs@,
    };
    proof {
        if old(adapter).remaining().len() == 0 {
            assert(adapter.remaining() =~= old(adapter).remaining());
        }
    }
    (r, Ghost(new_backs))
}

/// Peek idempotence: peeking the front twice reports the same outcome both
/// times, leaves the remaining items untouched, and advances the underlying
/// producer at most once in total.
pub fn peek_twice_agrees<I: Producer>(adapter: &mut DoubleEndedPeekable<I>) -> (r: (
    Option<I::Item>,
    Option<I::Item>,
)) where I::Item: Copy
    requires
        old(adapter).well_formed(),
    ensures
        r.0 == r.1,
        final(adapter).remaining() == old(adapter).remaining(),
        final(adapter).producer().remaining() == old(adapter).producer().remaining() || final(adapter).producer().remaining() == old(adapter).producer().remaining().drop_first(),
{
    let first_look = match adapter.peek() {
        Some(item) => Some(*item),
        None => None,
    };
    let second_look = match adapter.peek() {
        Some(item) => Some(*item),
        None => None,
    };
    (first_look, second_look)
}

/// Single-item agreement: with exactly one item left, a front peek and a
/// back peek both report that same item; a following forward consume hands
/// it out, and the adapter is then exhausted from both ends.
pub fn single_item_both_ends<I: DoubleEndedProducer>(adapter: &mut DoubleEndedPeekable<I>) -> (r: (
    Option<I::Item>,
    Option<I::Item>,
    Option<I::Item>,
    Option<I::Item>,
)) where I::Item: Copy
    requires
        old(adapter).well_formed(),
        old(adapter).remaining().len() == 1,
    ensures
        r.0 == Some(old(adapter).remaining().first()),
        r.1 == Some(old(adapter).remaining().first()),
        r.2 == Some(old(adapter).remaining().first()),
        r.3 == None::<I::Item>,
        final(adapter).remaining().len() == 0,
{
    let front_peek = match adapter.peek() {
        Some(item) => Some(*item),
        None => None,
    };
    let back_peek = match adapter.peek_back() {
        Some(item) => Some(*item),
        None => None,
    };
    let front_consume = adapter.next();
    let back_consume = adapter.next_back();
    (front_peek, back_peek, front_consume, back_consume)
}

/// End-of-sequence stability: consuming from the front of an exhausted
/// adapter keeps reporting absence, however often it is tried, and never
/// makes the producer hand anything out.
pub fn consume_past_exhaustion<I: Producer>(adapter: &mut DoubleEndedPeekable<I>) -> (r: (
    Option<I::Item>,
    Option<I::Item>,
))
    requires
        old(adapter).well_formed(),
        old(adapter).remaining().len() == 0,
    ensures
        r.0 == None::<I::Item>,
        r.1 == None::<I::Item>,
        final(adapter).remaining().len() == 0,
        final(adapter).producer().remaining() == old(adapter).producer().remaining(),
{
    let first_try = adapter.next();
    let second_try = adapter.next();
    (first_try, second_try)
}

} // verus!
