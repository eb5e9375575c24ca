use vstd::prelude::*;
use crate::registry::TradingPairState;
use crate::types::{ActorId, EventAction, TradingPairId};

verus! {

/// Number of occurrences of `kind` in `kinds`.
pub open spec fn count_kind(kinds: Seq<EventAction>, kind: EventAction) -> nat
    decreases kinds.len(),
{
    if kinds.len() == 0 {
        0
    } else {
        count_kind(kinds.drop_last(), kind) + if kinds.last() == kind {
            1nat
        } else {
            0nat
        }
    }
}

/// Step `i` of a run is the successful mutation of kind `kinds[i]`, with the
/// caller, time, pair id, symbol and notes given at the same position.
pub open spec fn successful_step(
    states: Seq<TradingPairState>,
    kinds: Seq<EventAction>,
    callers: Seq<ActorId>,
    times: Seq<u64>,
    ids: Seq<TradingPairId>,
    symbols: Seq<String>,
    notes: Seq<String>,
    i: int,
) -> bool {
    match kinds[i] {
        EventAction::Create => states[i].can_write(callers[i]) && ids[i] == states[i].counter
            && states[i].created(states[i + 1], callers[i], times[i], symbols[i], notes[i]),
        EventAction::Update => states[i].can_write(callers[i]) && states[i].has_pair(ids[i])
            && states[i].updated(states[i + 1], callers[i], times[i], ids[i], symbols[i], notes[i]),
        EventAction::Delete => states[i].can_write(callers[i]) && states[i].has_pair(ids[i])
            && states[i].deleted(states[i + 1], callers[i], times[i], ids[i]),
    }
}

/// `states` is a run of `kinds.len()` successful mutations.
pub open spec fn successful_run(
    states: Seq<TradingPairState>,
    kinds: Seq<EventAction>,
    callers: Seq<ActorId>,
    times: Seq<u64>,
    ids: Seq<TradingPairId>,
    symbols: Seq<String>,
    notes: Seq<String>,
) -> bool {
    &&& states.len() == kinds.len() + 1
    &&& callers.len() == kinds.len()
    &&& times.len() == kinds.len()
    &&& ids.len() == kinds.len()
    &&& symbols.len() == kinds.len()
    &&& notes.len() == kinds.len()
    &&& forall|i: int|
        0 <= i < kinds.len() ==> #[trigger] successful_step(
            states,
            kinds,
            callers,
            times,
            ids,
            symbols,
            notes,
            i,
        )
}

/// After the first `n` steps of a successful run the pair count has moved by
/// the creates minus the deletes among them, and the log has grown by `n`.
proof fn lemma_run_prefix(
    states: Seq<TradingPairState>,
    kinds: Seq<EventAction>,
    callers: Seq<ActorId>,
    times: Seq<u64>,
    ids: Seq<TradingPairId>,
    symbols: Seq<String>,
    notes: Seq<String>,
    n: int,
)
    requires
        successful_run(states, kinds, callers, times, ids, symbols, notes),
        0 <= n <= kinds.len(),
    ensures
        states[n].trading_pairs@.len() == states[0].trading_pairs@.len() + count_kind(
            kinds.take(n),
            EventAction::Create,
        ) - count_kind(kinds.take(n), EventAction::Delete),
        states[n].event_logs@.len() == states[0].event_logs@.len() + n,
        states[n].counter == states[0].counter + count_kind(kinds.take(n), EventAction::Create),
    decreases n,
{
    if n > 0 {
        lemma_run_prefix(states, kinds, callers, times, ids, symbols, notes, n - 1);
        assert(kinds.take(n).drop_last() =~= kinds.take(n - 1));
        assert(successful_step(states, kinds, callers, times, ids, symbols, notes, n - 1));
        let s = states[n - 1];
        if kinds[n - 1] == EventAction::Delete {
            let k = s.pair_index(ids[n - 1]);
            assert(0 <= k < s.trading_pairs@.len());
        } else if kinds[n - 1] == EventAction::Update {
            let k = s.pair_index(ids[n - 1]);
            assert(0 <= k < s.trading_pairs@.len());
        }
    }
}

/// Counting from the start of a run of successful mutations: the live pairs
/// grow by the number of creates and shrink by the number of deletes, and the
/// log grows by one entry per mutation, updates included. From an empty
/// registry, N creates and M deletes leave N - M pairs and N + M (plus the
/// updates) audit entries.
pub proof fn lemma_run_counts(
    states: Seq<TradingPairState>,
    kinds: Seq<EventAction>,
    callers: Seq<ActorId>,
    times: Seq<u64>,
    ids: Seq<TradingPairId>,
    symbols: Seq<String>,
    notes: Seq<String>,
)
    requires
        successful_run(states, kinds, callers, times, ids, symbols, notes),
    ensures
        states.last().trading_pairs@.len() == states[0].trading_pairs@.len() + count_kind(
            kinds,
            EventAction::Create,
        ) - count_kind(kinds, EventAction::Delete),
        states.last().event_logs@.len() == states[0].event_logs@.len() + count_kind(
            kinds,
            EventAction::Create,
        ) + count_kind(kinds, EventAction::Update) + count_kind(kinds, EventAction::Delete),
{
    lemma_run_prefix(states, kinds, callers, times, ids, symbols, notes, kinds.len() as int);
    assert(kinds.take(kinds.len() as int) =~= kinds);
    lemma_count_kinds_sum(kinds);
}

/// Every element is one of the three kinds.
proof fn lemma_count_kinds_sum(kinds: Seq<EventAction>)
    ensures
        kinds.len() == count_kind(kinds, EventAction::Create) + count_kind(
            kinds,
            EventAction::Update,
        ) + count_kind(kinds, EventAction::Delete),
    decreases kinds.len(),
{
    if kinds.len() > 0 {
        lemma_count_kinds_sum(kinds.drop_last());
    }
}

/// The ids handed out by a run of successful creates strictly increase, so
/// no two of them are equal.
pub proof fn lemma_created_ids_increase(
    states: Seq<TradingPairState>,
    callers: Seq<ActorId>,
    times: Seq<u64>,
    ids: Seq<TradingPairId>,
    symbols: Seq<String>,
    notes: Seq<String>,
)
    requires
        successful_run(
            states,
            Seq::new(ids.len(), |i: int| EventAction::Create),
            callers,
            times,
            ids,
            symbols,
            notes,
        ),
    ensures
        forall|i: int, j: int| 0 <= i < j < ids.len() ==> ids[i] < ids[j],
{
    let kinds = Seq::new(ids.len(), |i: int| EventAction::Create);
    assert forall|i: int| 0 <= i < ids.len() implies ids[i] == states[0].counter + i by {
        lemma_run_prefix(states, kinds, callers, times, ids, symbols, notes, i);
        lemma_count_all_creates(kinds.take(i));
        assert(successful_step(states, kinds, callers, times, ids, symbols, notes, i));
    }
}

/// In a sequence of creates only, the count of creates is its length.
proof fn lemma_count_all_creates(kinds: Seq<EventAction>)
    requires
        forall|i: int| 0 <= i < kinds.len() ==> kinds[i] == EventAction::Create,
    ensures
        count_kind(kinds, EventAction::Create) == kinds.len(),
        count_kind(kinds, EventAction::Delete) == 0,
    decreases kinds.len(),
{
    if kinds.len() > 0 {
        lemma_count_all_creates(kinds.drop_last());
    }
}

/// Each successful mutation of a run appends exactly one audit entry, whose
/// actor is the caller and whose subject is the pair the mutation touched.
pub proof fn lemma_step_logs_caller_and_subject(
    states: Seq<TradingPairState>,
    kinds: Seq<EventAction>,
    callers: Seq<ActorId>,
    times: Seq<u64>,
    ids: Seq<TradingPairId>,
    symbols: Seq<String>,
    notes: Seq<String>,
    i: int,
)
    requires
        successful_run(states, kinds, callers, times, ids, symbols, notes),
        0 <= i < kinds.len(),
    ensures
        states[i + 1].event_logs@ == states[i].event_logs@.push(states[i + 1].event_logs@.last()),
        states[i + 1].event_logs@.last().account == callers[i],
        states[i + 1].event_logs@.last().trading_pair_id == ids[i],
        states[i + 1].event_logs@.last().action == kinds[i],
{
    assert(successful_step(states, kinds, callers, times, ids, symbols, notes, i));
    let log = states[i + 1].event_logs@;
    assert(log =~= log.drop_last().push(log.last()));
}

/// The owner may always create, update and delete, whatever the editors are.
pub proof fn lemma_owner_always_writes(s: TradingPairState)
    ensures
        s.can_write(s.owner),
{
}

} // verus!
