//! Properties that hold across calls, stated over the models that the
//! contracts of `List` use.
use vstd::prelude::*;

use crate::index::FracIndex;
use crate::list::{first_of, read_at, rest_of};

verus! {

/// The elements of a list with elements `s` after `push` is called with each
/// of `es` in turn, first to last.
pub open spec fn push_each<T>(s: Seq<T>, es: Seq<T>) -> Seq<T>
    decreases es.len(),
{
    if es.len() == 0 {
        s
    } else {
        seq![es.last()] + push_each(s, es.drop_last())
    }
}

/// What `n` calls of `pop` return, in order, on a list with elements `s`.
pub open spec fn pop_each<T>(s: Seq<T>, n: nat) -> Seq<Option<T>>
    decreases n,
{
    if n == 0 {
        Seq::empty()
    } else {
        seq![first_of(s)] + pop_each(rest_of(s), (n - 1) as nat)
    }
}

/// The elements of a list with elements `s` after a run of calls: `Some(e)`
/// stands for `push(e)`, `None` for `pop()`.
pub open spec fn run<T>(s: Seq<T>, calls: Seq<Option<T>>) -> Seq<T>
    decreases calls.len(),
{
    if calls.len() == 0 {
        s
    } else {
        match calls.last() {
            Some(e) => seq![e] + run(s, calls.drop_last()),
            None => rest_of(run(s, calls.drop_last())),
        }
    }
}

/// The count of pushes less the count of pops in `calls`, where a pop on an
/// empty list takes nothing off.
pub open spec fn net_count<T>(calls: Seq<Option<T>>) -> nat
    decreases calls.len(),
{
    if calls.len() == 0 {
        0
    } else {
        let before = net_count(calls.drop_last());
        match calls.last() {
            Some(_) => before + 1,
            None => if before == 0 {
                0
            } else {
                (before - 1) as nat
            },
        }
    }
}

/// Pushing `es` onto a list puts them newest first: the elements read in
/// the reverse of the order they were pushed in.
pub proof fn lemma_push_each_reverses<T>(s: Seq<T>, es: Seq<T>)
    ensures
        push_each(s, es) == es.reverse() + s,
    decreases es.len(),
{
    if es.len() > 0 {
        lemma_push_each_reverses(s, es.drop_last());
        assert(es.reverse() =~= seq![es.last()] + es.drop_last().reverse());
        assert(push_each(s, es) =~= es.reverse() + s);
    } else {
        assert(es.reverse() + s =~= s);
    }
}

/// Popping as many times as `t` has elements, starting from `t + s`, hands
/// out the elements of `t` in order and leaves `s`.
proof fn lemma_pop_each_prefix<T>(t: Seq<T>, s: Seq<T>, extra: nat)
    ensures
        pop_each(t + s, t.len() + extra) == t.map_values(|e: T| Some(e)) + pop_each(s, extra),
    decreases t.len(),
{
    if t.len() > 0 {
        assert((t + s).drop_first() =~= t.drop_first() + s);
        lemma_pop_each_prefix(t.drop_first(), s, extra);
        assert(t.map_values(|e: T| Some(e)) =~= seq![Some(t[0])] + t.drop_first().map_values(
            |e: T| Some(e),
        ));
        assert(pop_each(t + s, t.len() + extra) =~= t.map_values(|e: T| Some(e)) + pop_each(
            s,
            extra,
        ));
    } else {
        assert(t + s =~= s);
        assert(t.map_values(|e: T| Some(e)) + pop_each(s, extra) =~= pop_each(s, extra));
    }
}

/// After `push` with each of `es` on a new list, `es.len()` pops return the
/// elements in the reverse of the order they were pushed in, and one pop more
/// returns `None`.
pub proof fn lemma_pushes_then_pops<T>(es: Seq<T>)
    ensures
        pop_each(push_each(Seq::<T>::empty(), es), es.len() + 1) == es.reverse().map_values(
            |e: T| Some(e),
        ).push(None),
{
    lemma_push_each_reverses(Seq::<T>::empty(), es);
    let t = es.reverse();
    assert(t + Seq::<T>::empty() =~= t);
    lemma_pop_each_prefix(t, Seq::<T>::empty(), 1);
    assert(pop_each(Seq::<T>::empty(), 1) =~= seq![first_of(Seq::<T>::empty())] + pop_each(
        rest_of(Seq::<T>::empty()),
        0,
    ));
    assert(t.map_values(|e: T| Some(e)) + seq![None::<T>] =~= t.map_values(|e: T| Some(e)).push(
        None,
    ));
}

/// After any run of pushes and pops on a new list, the length is the count of
/// pushes less the count of pops that found an element.
pub proof fn lemma_len_counts_calls<T>(calls: Seq<Option<T>>)
    ensures
        run(Seq::<T>::empty(), calls).len() == net_count(calls),
    decreases calls.len(),
{
    if calls.len() > 0 {
        lemma_len_counts_calls(calls.drop_last());
    }
}

/// On a non-empty list, `peek` reads the head, and a `pop` right after it
/// returns that same element.
pub proof fn lemma_peek_then_pop<T>(s: Seq<T>)
    requires
        s.len() > 0,
    ensures
        first_of(s) == Some(s[0]),
        pop_each(s, 1) == seq![first_of(s)],
{
    assert(pop_each(s, 1) =~= seq![first_of(s)] + pop_each(rest_of(s), 0));
}

/// Pushing `es` on a new list and then taking every element out through the
/// by-value iterator (whose `next` hands out elements as `pop` does) yields
/// the elements in the reverse of the order they were pushed in.
pub proof fn lemma_push_then_drain<T>(es: Seq<T>)
    ensures
        pop_each(push_each(Seq::<T>::empty(), es), es.len()) == es.reverse().map_values(
            |e: T| Some(e),
        ),
{
    lemma_push_each_reverses(Seq::<T>::empty(), es);
    let t = es.reverse();
    assert(t + Seq::<T>::empty() =~= t);
    lemma_pop_each_prefix(t, Seq::<T>::empty(), 0);
    assert(t.map_values(|e: T| Some(e)) + pop_each(Seq::<T>::empty(), 0) =~= t.map_values(
        |e: T| Some(e),
    ));
}

/// On a list of `n` elements, position -1 reads the tail (oldest) and `n - 2`
/// the head (newest), while `n - 1` and any position below -1 read nothing.
pub proof fn lemma_bounds<T>(s: Seq<T>, below: i64)
    requires
        s.len() >= 1,
        s.len() - 1 <= i64::MAX,
        below < -1,
    ensures
        read_at(s, FracIndex { whole: -1i64, fractional: false }) == Some(s.last()),
        read_at(s, FracIndex { whole: (s.len() - 2) as i64, fractional: false }) == Some(s[0]),
        read_at(s, FracIndex { whole: (s.len() - 1) as i64, fractional: false }).is_none(),
        read_at(s, FracIndex { whole: below, fractional: false }).is_none(),
        read_at(s, FracIndex { whole: below, fractional: true }).is_none(),
{
}

/// A value written through `get_mut` at an in-bounds position is what `get`
/// at that position reads next.
pub proof fn lemma_write_then_read<T>(s: Seq<T>, index: FracIndex, v: T)
    requires
        index.in_bounds(s.len() as int),
    ensures
        read_at(s.update(index.steps(s.len() as int), v), index) == Some(v),
{
}

/// A value written through `peek_mut` on a non-empty list is what `peek`
/// reads next.
pub proof fn lemma_write_then_peek<T>(s: Seq<T>, v: T)
    requires
        s.len() > 0,
    ensures
        first_of(s.update(0, v)) == Some(v),
{
}

} // verus!
