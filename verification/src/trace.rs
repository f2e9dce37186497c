//! A history model of one shared allocation: the sequence of clone and
//! release events it has seen, the count they leave behind, and the proofs
//! that a valid history signals the finalizer exactly once, at the very last
//! release.

use vstd::prelude::*;
use crate::cell::{CellState, ReleaseAction};

verus! {

/// One event in the life of a shared allocation.
#[derive(Clone, Copy, PartialEq, Eq, Structural, Debug)]
pub enum Event {
    /// A handle was cloned: the count went up by one.
    Cloned,
    /// A handle was released: the count went down by one.
    Released,
}

/// How one event changes the count.
pub open spec fn delta(e: Event) -> int {
    match e {
        Event::Cloned => 1,
        Event::Released => -1,
    }
}

/// The count after a history, starting from the single handle that creation
/// hands out.
pub open spec fn count_after(es: Seq<Event>) -> int
    decreases es.len(),
{
    if es.len() == 0 {
        1
    } else {
        count_after(es.drop_last()) + delta(es.last())
    }
}

/// A history a real program can produce: every event is performed by a task
/// that still holds a handle, so the count is at least one just before it.
pub open spec fn valid(es: Seq<Event>) -> bool
    decreases es.len(),
{
    es.len() == 0 || (valid(es.drop_last()) && count_after(es.drop_last()) >= 1)
}

/// How many releases of a history observed the count at one, that is, how
/// many times the finalizer was signaled.
pub open spec fn signals(es: Seq<Event>) -> int
    decreases es.len(),
{
    if es.len() == 0 {
        0
    } else {
        signals(es.drop_last())
            + if es.last() is Released && count_after(es.drop_last()) == 1 {
                1int
            } else {
                0int
            }
    }
}

/// How one more event changes the count, validity and signal tally of a
/// history: definitional unfoldings, packaged for reuse.
proof fn lemma_push_parts(t: Seq<Event>, e: Event)
    ensures
        t.push(e).drop_last() == t,
        t.push(e).last() == e,
        count_after(t.push(e)) == count_after(t) + delta(e),
        valid(t.push(e)) <==> (valid(t) && count_after(t) >= 1),
        signals(t.push(e)) == signals(t)
            + if e is Released && count_after(t) == 1 { 1int } else { 0int },
{
    assert(t.push(e).drop_last() =~= t);
}

/// Law: a valid history signals the finalizer exactly once if its count has
/// reached zero, and not at all otherwise. Any interleaving of clones and
/// releases — a concurrent storm in any order — therefore converges to one
/// finalization when the last handle goes, and to none while one remains.
pub proof fn lemma_exactly_one_signal(es: Seq<Event>)
    requires
        valid(es),
    ensures
        signals(es) == if count_after(es) == 0 { 1int } else { 0int },
    decreases es.len(),
{
    if es.len() > 0 {
        lemma_exactly_one_signal(es.drop_last());
    }
}

/// Law: while any handle remains outstanding, no finalization has been
/// signaled.
pub proof fn lemma_no_signal_while_live(es: Seq<Event>)
    requires
        valid(es),
        count_after(es) >= 1,
    ensures
        signals(es) == 0,
{
    lemma_exactly_one_signal(es);
}

/// Law: the one signal of a finished history happens at its very last event,
/// which is a release — never before the last release.
pub proof fn lemma_signal_is_last(es: Seq<Event>)
    requires
        valid(es),
        count_after(es) == 0,
    ensures
        es.len() >= 1,
        es.last() is Released,
        count_after(es.drop_last()) == 1,
        signals(es.drop_last()) == 0,
        signals(es) == 1,
{
    lemma_exactly_one_signal(es);
    lemma_exactly_one_signal(es.drop_last());
}

/// Every prefix of a valid history is valid, and every proper prefix leaves
/// at least one handle outstanding.
pub proof fn lemma_valid_take(es: Seq<Event>, i: int)
    requires
        valid(es),
        0 <= i <= es.len(),
    ensures
        valid(es.take(i)),
        i < es.len() ==> count_after(es.take(i)) >= 1,
    decreases es.len() - i,
{
    if i == es.len() {
        assert(es.take(i) =~= es);
    } else {
        lemma_valid_take(es, i + 1);
        es.lemma_take_succ_push(i);
        lemma_push_parts(es.take(i), es[i]);
    }
}

/// A history of `k` clones and nothing else.
pub open spec fn all_clones(k: nat) -> Seq<Event> {
    Seq::new(k, |i: int| Event::Cloned)
}

/// A history of `k` releases and nothing else.
pub open spec fn all_releases(k: nat) -> Seq<Event> {
    Seq::new(k, |i: int| Event::Released)
}

/// The history of `n` clones of the first handle followed by the release of
/// all `n + 1` handles.
pub open spec fn clones_then_releases(n: nat) -> Seq<Event> {
    all_clones(n) + all_releases(n + 1)
}

/// A run of clones alone is valid and raises the count by its length.
proof fn lemma_all_clones(k: nat)
    ensures
        valid(all_clones(k)),
        count_after(all_clones(k)) == 1 + k,
    decreases k,
{
    if k > 0 {
        lemma_all_clones((k - 1) as nat);
        assert(all_clones(k).drop_last() =~= all_clones((k - 1) as nat));
        assert(all_clones(k).last() == Event::Cloned);
    }
}

/// Appending `k` releases to a valid history whose count covers them keeps
/// it valid and lowers the count by `k`.
proof fn lemma_append_releases(t: Seq<Event>, k: nat)
    requires
        valid(t),
        count_after(t) >= k,
    ensures
        valid(t + all_releases(k)),
        count_after(t + all_releases(k)) == count_after(t) - k,
    decreases k,
{
    if k == 0 {
        assert(t + all_releases(0) =~= t);
    } else {
        lemma_append_releases(t, (k - 1) as nat);
        assert((t + all_releases(k)).drop_last() =~= t + all_releases((k - 1) as nat));
        assert((t + all_releases(k)).last() == Event::Released);
    }
}

/// Law: for every `n`, `n` clones of the first handle followed by `n + 1`
/// releases — one per handle, the original included — form a valid history
/// that ends with no handle left and signals the finalizer exactly once, at
/// the last release and never before it.
pub proof fn lemma_clones_then_releases(n: nat)
    ensures
        valid(clones_then_releases(n)),
        count_after(clones_then_releases(n)) == 0,
        signals(clones_then_releases(n)) == 1,
        signals(clones_then_releases(n).drop_last()) == 0,
        clones_then_releases(n).last() is Released,
{
    lemma_all_clones(n);
    lemma_append_releases(all_clones(n), n + 1);
    lemma_signal_is_last(clones_then_releases(n));
}

/// The count after a history never exceeds one more than its length.
proof fn lemma_count_bound(es: Seq<Event>)
    ensures
        count_after(es) <= 1 + es.len(),
    decreases es.len(),
{
    if es.len() > 0 {
        lemma_count_bound(es.drop_last());
    }
}

/// Replays a valid history against the executable protocol, one step per
/// event, and returns the final counter state together with the number of
/// times a release came back with the order to signal the finalizer. The
/// count lands where the model says, and the signal order was given exactly
/// once if the history drained the handles, never otherwise.
pub fn replay(events: &Vec<Event>) -> (r: (CellState, usize))
    requires
        valid(events@),
        events@.len() < usize::MAX,
    ensures
        r.0.wf(),
        r.0.count == count_after(events@),
        r.1 == signals(events@),
{
    let n = events.len();
    let mut s = CellState::new();
    let mut signal_orders: usize = 0;
    let mut i: usize = 0;
    proof {
        assert(events@.take(0) =~= Seq::<Event>::empty());
    }
    while i < n
        invariant
            n == events@.len() < usize::MAX,
            i <= n,
            valid(events@),
            s.wf(),
            s.count == count_after(events@.take(i as int)),
            signal_orders == signals(events@.take(i as int)),
            signal_orders <= i,
        decreases n - i,
    {
        proof {
            lemma_valid_take(events@, i as int);
            lemma_valid_take(events@, i as int + 1);
            events@.lemma_take_succ_push(i as int);
            lemma_push_parts(events@.take(i as int), events@[i as int]);
            lemma_count_bound(events@.take(i as int));
        }
        match events[i] {
            Event::Cloned => {
                s.clone_step();
            },
            Event::Released => {
                let action = s.release_step();
                if matches!(action, ReleaseAction::Signal) {
                    proof {
                        lemma_no_signal_while_live(events@.take(i as int));
                    }
                    signal_orders = signal_orders + 1;
                }
            },
        }
        i = i + 1;
    }
    proof {
        assert(events@.take(n as int) =~= events@);
    }
    (s, signal_orders)
}

} // verus!
