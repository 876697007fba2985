//! Laws of the listener that span several calls.

use crate::listener::{fired_by, fired_sequence, Listener, ListenerID};
use vstd::prelude::*;

verus! {

/// A run of registration attempts on one listener: `states[i]` is the listener
/// before attempt `i` and `states[i + 1]` after it, `handlers[i]` the callback
/// it was given and `results[i]` what it returned, as `register_hotkey`
/// states.
pub open spec fn registration_run<H>(
    states: Seq<Listener<H>>,
    handlers: Seq<H>,
    results: Seq<Result<ListenerID, String>>,
) -> bool {
    &&& states.len() == results.len() + 1
    &&& handlers.len() == results.len()
    &&& forall|i: int|
        #![trigger results[i]]
        0 <= i < results.len() ==> Listener::register_step(
            states[i],
            states[i + 1],
            handlers[i],
            results[i] is Ok,
            results[i],
        )
}

/// Along a run, the counter of handed-out identifiers never goes down.
pub proof fn lemma_last_id_monotone<H>(
    states: Seq<Listener<H>>,
    handlers: Seq<H>,
    results: Seq<Result<ListenerID, String>>,
    i: int,
    j: int,
)
    requires
        registration_run(states, handlers, results),
        0 <= i <= j < states.len(),
    ensures
        states[i].last_id() <= states[j].last_id(),
    decreases j - i,
{
    if i < j {
        lemma_last_id_monotone(states, handlers, results, i, j - 1);
        assert(Listener::register_step(
            states[j - 1],
            states[j],
            handlers[j - 1],
            results[j - 1] is Ok,
            results[j - 1],
        ));
    }
}

/// Identifiers returned by successful registrations on one listener strictly
/// increase in call order, so no two of them are equal.
pub proof fn lemma_successful_ids_increase<H>(
    states: Seq<Listener<H>>,
    handlers: Seq<H>,
    results: Seq<Result<ListenerID, String>>,
    i: int,
    j: int,
)
    requires
        registration_run(states, handlers, results),
        0 <= i < j < results.len(),
        results[i] is Ok,
        results[j] is Ok,
    ensures
        results[i]->Ok_0 < results[j]->Ok_0,
{
    assert(Listener::register_step(states[i], states[i + 1], handlers[i], results[i] is Ok, results[i]));
    assert(Listener::register_step(states[j], states[j + 1], handlers[j], results[j] is Ok, results[j]));
    lemma_last_id_monotone(states, handlers, results, i + 1, j);
}

/// The identifier consumed by a refused registration is never returned by a
/// later successful one.
pub proof fn lemma_refused_id_not_reused<H>(
    states: Seq<Listener<H>>,
    handlers: Seq<H>,
    results: Seq<Result<ListenerID, String>>,
    i: int,
    j: int,
)
    requires
        registration_run(states, handlers, results),
        0 <= i < j < results.len(),
        states[i].has_free_id(),
        results[i] is Err,
        results[j] is Ok,
    ensures
        results[j]->Ok_0 != states[i].next_id(),
        results[j]->Ok_0 > states[i].next_id(),
{
    assert(Listener::register_step(states[i], states[i + 1], handlers[i], results[i] is Ok, results[i]));
    assert(Listener::register_step(states[j], states[j + 1], handlers[j], results[j] is Ok, results[j]));
    lemma_last_id_monotone(states, handlers, results, i + 1, j);
}

/// Dispatching a stream handles its notifications in order, each on its own:
/// the callbacks that two consecutive stretches fire are those of the first
/// stretch followed by those of the second.
pub proof fn lemma_fired_sequence_append<H>(
    registry: Map<ListenerID, H>,
    first: Seq<usize>,
    second: Seq<usize>,
)
    ensures
        fired_sequence(registry, first + second) == fired_sequence(registry, first)
            + fired_sequence(registry, second),
    decreases second.len(),
{
    if second.len() == 0 {
        assert(first + second == first);
        assert(fired_sequence(registry, first) + Seq::<ListenerID>::empty() == fired_sequence(
            registry,
            first,
        ));
    } else {
        let whole = first + second;
        assert(whole.drop_last() == first + second.drop_last());
        assert(whole.last() == second.last());
        lemma_fired_sequence_append(registry, first, second.drop_last());
        let a = fired_sequence(registry, first);
        let b = fired_sequence(registry, second.drop_last());
        match fired_by(registry, second.last()) {
            Some(id) => {
                assert((a + b).push(id) == a + b.push(id));
            },
            None => {},
        }
    }
}

/// Each notification fires at most one callback: a stream fires no more
/// callbacks than it holds notifications.
pub proof fn lemma_fired_at_most_once_each<H>(registry: Map<ListenerID, H>, stream: Seq<usize>)
    ensures
        fired_sequence(registry, stream).len() <= stream.len(),
    decreases stream.len(),
{
    if stream.len() > 0 {
        lemma_fired_at_most_once_each(registry, stream.drop_last());
    }
}

} // verus!
