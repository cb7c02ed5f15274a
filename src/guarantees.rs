use vstd::prelude::*;
use crate::engine::{
    errors_of, flatten, forwarded, mapped_stream, ready_below, ready_indices, ActionMapping,
    EventMapping, Phase, StrategyTask, SubmissionError,
};

verus! {

/// A mapped collector emits exactly as many events as the wrapped one, each the
/// mapping of the native event at the same position.
pub proof fn lemma_collector_map_keeps_order<N, E, M: EventMapping<N, E>>(native: Seq<N>)
    ensures
        mapped_stream::<N, E, M>(native).len() == native.len(),
        forall|i: int|
            0 <= i < native.len() ==> #[trigger] mapped_stream::<N, E, M>(native)[i]
                == M::spec_map(native[i]),
{
}

/// An action that the mapping rejects never reaches the wrapped executor: it adds
/// nothing to what is forwarded, wherever it comes in the stream.
pub proof fn lemma_unhandled_action_skipped<A, N, M: ActionMapping<A, N>>(before: Seq<A>, a: A)
    requires
        M::spec_map(a) is None,
    ensures
        forwarded::<A, N, M>(before.push(a)) == forwarded::<A, N, M>(before),
        forwarded::<A, N, M>(seq![a]) == Seq::<N>::empty(),
{
    assert(before.push(a).drop_last() =~= before);
    assert(seq![a].drop_last() =~= Seq::<A>::empty());
    assert(seq![a].last() == a);
    assert(forwarded::<A, N, M>(Seq::<A>::empty()) == Seq::<N>::empty());
}

/// A strategy that answers every event with no action sends nothing, so no
/// executor is ever called, however many events it saw.
pub proof fn lemma_silent_strategy_calls_no_executor<A, N, M: ActionMapping<A, N>>(
    outputs: Seq<Seq<A>>,
)
    requires
        forall|i: int| 0 <= i < outputs.len() ==> (#[trigger] outputs[i]).len() == 0,
    ensures
        flatten(outputs) == Seq::<A>::empty(),
        forwarded::<A, N, M>(flatten(outputs)) == Seq::<N>::empty(),
    decreases outputs.len(),
{
    if outputs.len() > 0 {
        let prefix = outputs.drop_last();
        assert forall|i: int| 0 <= i < prefix.len() implies (#[trigger] prefix[i]).len() == 0 by {
            assert(prefix[i] == outputs[i]);
        }
        lemma_silent_strategy_calls_no_executor::<A, N, M>(prefix);
        assert(outputs.last().len() == 0);
        assert(flatten(outputs) =~= Seq::<A>::empty());
    }
}

/// The K actions of one event are sent, all of them and in order, right after
/// those of the earlier events and before any of a later one.
pub proof fn lemma_actions_of_one_event_in_full<A>(earlier: Seq<Seq<A>>, actions: Seq<A>)
    ensures
        flatten(earlier.push(actions)) == flatten(earlier) + actions,
        flatten(earlier.push(actions)).len() == flatten(earlier).len() + actions.len(),
{
    assert(earlier.push(actions).drop_last() =~= earlier);
}

/// The indices below `n` that `ready_below` lists are exactly the ready tasks'.
proof fn lemma_ready_below_members(tasks: Seq<StrategyTask>, n: int, i: int)
    requires
        0 <= n <= tasks.len(),
        0 <= i < tasks.len(),
        tasks.len() <= usize::MAX,
    ensures
        ready_below(tasks, n).contains(i as usize) <==> (i < n && tasks[i].phase == Phase::Ready),
    decreases n,
{
    if n > 0 {
        lemma_ready_below_members(tasks, n - 1, i);
        let prev = ready_below(tasks, n - 1);
        if tasks[n - 1].phase == Phase::Ready {
            let cur = prev.push((n - 1) as usize);
            if i == n - 1 {
                assert(cur[cur.len() - 1] == i as usize);
            } else if cur.contains(i as usize) {
                let k = choose|k: int| 0 <= k < cur.len() && cur[k] == i as usize;
                if k < prev.len() {
                    assert(prev[k] == i as usize);
                }
            } else if prev.contains(i as usize) {
                let k = choose|k: int| 0 <= k < prev.len() && prev[k] == i as usize;
                assert(cur[k] == i as usize);
            }
        }
    }
}

/// A strategy whose sync failed takes no events, and that failure takes nothing
/// from the others: every synced strategy is still sent every event.
pub proof fn lemma_sync_failure_isolated(tasks: Seq<StrategyTask>, i: int)
    requires
        0 <= i < tasks.len(),
        tasks.len() <= usize::MAX,
    ensures
        tasks[i].phase == Phase::Ready ==> ready_indices(tasks).contains(i as usize),
        tasks[i].phase == Phase::Failed ==> !ready_indices(tasks).contains(i as usize),
{
    lemma_ready_below_members(tasks, tasks.len() as int, i);
}

/// A failed submission is recorded exactly once, after the failures before it and
/// before those after it, which it leaves as they are.
pub proof fn lemma_failure_recorded_once(
    before: Seq<Result<(), SubmissionError>>,
    e: SubmissionError,
    after: Seq<Result<(), SubmissionError>>,
)
    ensures
        errors_of(before.push(Err(e)) + after) == errors_of(before).push(e) + errors_of(after),
    decreases after.len(),
{
    let head = before.push(Err(e));
    if after.len() == 0 {
        assert(head + after =~= head);
        assert(head.drop_last() =~= before);
        assert(errors_of(before).push(e) + errors_of(after) =~= errors_of(before).push(e));
    } else {
        let rest = after.drop_last();
        lemma_failure_recorded_once(before, e, rest);
        assert((head + after).drop_last() =~= head + rest);
        assert((head + after).last() == after.last());
        match after.last() {
            Ok(()) => {},
            Err(x) => {
                assert(errors_of(before).push(e) + errors_of(rest).push(x) =~= (errors_of(
                    before,
                ).push(e) + errors_of(rest)).push(x));
            },
        }
    }
}

} // verus!
