use vstd::prelude::*;

verus! {

/// A strategy could not establish the state it needs; fatal to that strategy's task only.
pub struct SyncError {
    pub reason: String,
}

/// An executor reported that the external submission of an action failed.
pub struct SubmissionError {
    pub reason: String,
}

/// A total, pure mapping from a collector's native events to engine events.
pub trait EventMapping<N, E> {
    spec fn spec_map(n: N) -> E;

    fn map(n: N) -> (r: E)
        ensures
            r == Self::spec_map(n),
    ;
}

/// A partial, pure mapping from engine actions to the native actions of one
/// executor; `None` marks an action that this executor does not handle.
pub trait ActionMapping<A, N> {
    spec fn spec_map(a: A) -> Option<N>;

    fn map(a: A) -> (r: Option<N>)
        ensures
            r == Self::spec_map(a),
    ;
}

/// The stream a mapped collector emits for a native stream: the mapping applied
/// element by element.
pub open spec fn mapped_stream<N, E, M: EventMapping<N, E>>(native: Seq<N>) -> Seq<E> {
    native.map_values(|n: N| M::spec_map(n))
}

/// The native actions that reach the executor behind an action mapping, in
/// order, for a sequence of engine actions: those the mapping rejects are left out.
pub open spec fn forwarded<A, N, M: ActionMapping<A, N>>(actions: Seq<A>) -> Seq<N>
    decreases actions.len(),
{
    if actions.len() == 0 {
        Seq::empty()
    } else {
        let rest = forwarded::<A, N, M>(actions.drop_last());
        match M::spec_map(actions.last()) {
            Some(n) => rest.push(n),
            None => rest,
        }
    }
}

/// Everything a strategy task sends, for the action lists that its successive
/// `process_event` calls returned.
pub open spec fn flatten<A>(outputs: Seq<Seq<A>>) -> Seq<A>
    decreases outputs.len(),
{
    if outputs.len() == 0 {
        Seq::empty()
    } else {
        flatten(outputs.drop_last()) + outputs.last()
    }
}

/// Maps a batch pulled from a native collector into engine events: one engine
/// event for each native event, in the same order.
pub fn collector_map<N, E, M: EventMapping<N, E>>(native: Vec<N>) -> (r: Vec<E>)
    ensures
        r@ == mapped_stream::<N, E, M>(native@),
{
    let ghost orig = native@;
    let mut rest = native;
    let mut out: Vec<E> = Vec::new();
    while rest.len() > 0
        invariant
            out@.len() + rest@.len() == orig.len(),
            out@ == mapped_stream::<N, E, M>(orig.subrange(0, out@.len() as int)),
            rest@ == orig.subrange(out@.len() as int, orig.len() as int),
        decreases rest@.len(),
    {
        let n = rest.remove(0);
        let e = M::map(n);
        proof {
            let k = out@.len() as int;
            assert(orig.subrange(0, k + 1) == orig.subrange(0, k).push(orig[k]));
        }
        out.push(e);
        assert(rest@ == orig.subrange(out@.len() as int, orig.len() as int));
    }
    assert(orig.subrange(0, orig.len() as int) == orig);
    out
}

/// The part of an executor map that decides: the native action to hand to the
/// wrapped executor, or `None` when the action is not one it handles. In that
/// case the wrapped executor is not called and the execution counts as a success.
pub fn executor_map<A, N, M: ActionMapping<A, N>>(action: A) -> (r: Option<N>)
    ensures
        r == M::spec_map(action),
{
    M::map(action)
}

/// Where the actions of every strategy are sent, shared by all strategies.
/// Once the receiving side is gone (`open` false) a send is refused and the
/// action is handed back: the one way an action may be dropped.
pub struct ActionChannel<A> {
    pub open: bool,
    pub queue: Vec<A>,
}

impl<A> ActionChannel<A> {
    pub fn new() -> (r: Self)
        ensures
            r.open,
            r.queue@ == Seq::<A>::empty(),
    {
        ActionChannel { open: true, queue: Vec::new() }
    }

    /// The receiving side went away: every later send is refused.
    pub fn close(&mut self)
        ensures
            !final(self).open,
            final(self).queue@ == old(self).queue@,
    {
        self.open = false;
    }

    /// Sends one action; an open channel takes it at the end of its queue, a
    /// closed one gives it back.
    pub fn send(&mut self, a: A) -> (r: Result<(), A>)
        ensures
            final(self).open == old(self).open,
            old(self).open ==> r is Ok && final(self).queue@ == old(self).queue@.push(a),
            !old(self).open ==> r == Err::<(), A>(a) && final(self).queue@ == old(self).queue@,
    {
        if self.open {
            self.queue.push(a);
            Ok(())
        } else {
            Err(a)
        }
    }

    /// Takes the oldest action waiting in the queue, if any.
    pub fn recv(&mut self) -> (r: Option<A>)
        ensures
            final(self).open == old(self).open,
            old(self).queue@.len() == 0 ==> r is None && final(self).queue@ == old(self).queue@,
            old(self).queue@.len() > 0 ==> r == Some(old(self).queue@[0])
                && final(self).queue@ == old(self).queue@.drop_first(),
    {
        if self.queue.len() == 0 {
            None
        } else {
            Some(self.queue.remove(0))
        }
    }
}

/// The actions of one `process_event` call could not all be sent because the
/// action channel was closed; `dropped` of them were lost.
pub struct ChannelClosed {
    pub dropped: usize,
}

/// The life of a strategy's task: its state is synced once, then it takes events,
/// unless the sync failed.
#[derive(PartialEq, Eq, Structural)]
pub enum Phase {
    AwaitingSync,
    Ready,
    Failed,
}

/// The decisions of one strategy's task. The task's runner awaits the strategy
/// itself and hands each outcome to these methods.
pub struct StrategyTask {
    pub phase: Phase,
}

impl StrategyTask {
    pub fn new() -> (r: Self)
        ensures
            r.phase == Phase::AwaitingSync,
    {
        StrategyTask { phase: Phase::AwaitingSync }
    }

    /// Records the outcome of the one `sync_state` call: the task takes events
    /// after a success and is failed for good after an error.
    pub fn on_sync(&mut self, outcome: Result<(), SyncError>)
        requires
            old(self).phase == Phase::AwaitingSync,
        ensures
            outcome is Ok ==> final(self).phase == Phase::Ready,
            outcome is Err ==> final(self).phase == Phase::Failed,
    {
        match outcome {
            Ok(()) => {
                self.phase = Phase::Ready;
            },
            Err(_) => {
                self.phase = Phase::Failed;
            },
        }
    }

    /// True while the task takes events.
    pub fn accepts_events(&self) -> (r: bool)
        ensures
            r == (self.phase == Phase::Ready),
    {
        match self.phase {
            Phase::Ready => true,
            _ => false,
        }
    }

    /// Sends every action that one `process_event` call returned, in order, before
    /// the task takes its next event. On a closed channel nothing is sent and the
    /// count of lost actions is reported.
    pub fn on_actions<A>(&self, actions: Vec<A>, channel: &mut ActionChannel<A>) -> (r: Result<(), ChannelClosed>)
        requires
            self.phase == Phase::Ready,
        ensures
            final(channel).open == old(channel).open,
            old(channel).open ==> r is Ok && final(channel).queue@ == old(channel).queue@ + actions@,
            !old(channel).open ==> r == Err::<(), ChannelClosed>(ChannelClosed { dropped: actions@.len() as usize })
                && final(channel).queue@ == old(channel).queue@,
    {
        if !channel.open {
            return Err(ChannelClosed { dropped: actions.len() });
        }
        let ghost start = channel.queue@;
        let ghost orig = actions@;
        let mut rest = actions;
        while rest.len() > 0
            invariant
                channel.open,
                rest@.len() <= orig.len(),
                rest@ == orig.subrange(orig.len() - rest@.len(), orig.len() as int),
                channel.queue@ == start + orig.subrange(0, orig.len() - rest@.len()),
            decreases rest@.len(),
        {
            let ghost k = orig.len() - rest@.len();
            let a = rest.remove(0);
            let _ = channel.send(a);
            assert(orig.subrange(0, k + 1) == orig.subrange(0, k).push(orig[k]));
            assert(rest@ == orig.subrange(orig.len() - rest@.len(), orig.len() as int));
        }
        assert(orig.subrange(0, orig.len() as int) == orig);
        Ok(())
    }
}

/// The failures among a sequence of execution outcomes, in order.
pub open spec fn errors_of(outcomes: Seq<Result<(), SubmissionError>>) -> Seq<SubmissionError>
    decreases outcomes.len(),
{
    if outcomes.len() == 0 {
        Seq::empty()
    } else {
        let rest = errors_of(outcomes.drop_last());
        match outcomes.last() {
            Ok(()) => rest,
            Err(e) => rest.push(e),
        }
    }
}

/// The decisions of one executor's task, for an executor behind an action
/// mapping. The task's runner hands it each action, calls the wrapped executor
/// when told to, and hands back what that call returned.
pub struct ExecutorTask {
    /// A native action was handed out and its outcome is not in yet.
    pub awaiting: bool,
    /// The submission failures seen so far, in order.
    pub failures: Vec<SubmissionError>,
    /// Every outcome seen so far.
    pub outcomes: Ghost<Seq<Result<(), SubmissionError>>>,
}

impl ExecutorTask {
    pub open spec fn wf(&self) -> bool {
        self.failures@ == errors_of(self.outcomes@)
    }

    pub fn new() -> (r: Self)
        ensures
            r.wf(),
            !r.awaiting,
            r.failures@.len() == 0,
            r.outcomes@ == Seq::<Result<(), SubmissionError>>::empty(),
    {
        ExecutorTask { awaiting: false, failures: Vec::new(), outcomes: Ghost(Seq::empty()) }
    }

    /// Takes one action: returns the native action that the wrapped executor is to
    /// run, or `None` when the mapping rejects it, which ends the action at once
    /// as a success without a call.
    pub fn on_action<A, N, M: ActionMapping<A, N>>(&mut self, action: A) -> (r: Option<N>)
        requires
            !old(self).awaiting,
        ensures
            r == M::spec_map(action),
            final(self).awaiting == r is Some,
            final(self).failures@ == old(self).failures@,
            final(self).outcomes@ == old(self).outcomes@,
    {
        let r = executor_map::<A, N, M>(action);
        self.awaiting = r.is_some();
        r
    }

    /// Records what the wrapped executor returned. A failure is kept once, at the
    /// end of `failures`; either way the task goes on to the next action.
    pub fn on_outcome(&mut self, outcome: Result<(), SubmissionError>)
        requires
            old(self).awaiting,
            old(self).wf(),
        ensures
            final(self).wf(),
            !final(self).awaiting,
            final(self).outcomes@ == old(self).outcomes@.push(outcome),
            outcome is Ok ==> final(self).failures@ == old(self).failures@,
            outcome matches Err(e) ==> final(self).failures@ == old(self).failures@.push(e),
    {
        proof {
            assert(self.outcomes@.push(outcome).drop_last() =~= self.outcomes@);
        }
        self.outcomes = Ghost(self.outcomes@.push(outcome));
        match outcome {
            Ok(()) => {},
            Err(e) => {
                self.failures.push(e);
            },
        }
        self.awaiting = false;
    }
}

/// The indices, below `n`, of the strategy tasks that take events, in order.
pub open spec fn ready_below(tasks: Seq<StrategyTask>, n: int) -> Seq<usize>
    decreases n,
{
    if n <= 0 {
        Seq::empty()
    } else if tasks[n - 1].phase == Phase::Ready {
        ready_below(tasks, n - 1).push((n - 1) as usize)
    } else {
        ready_below(tasks, n - 1)
    }
}

/// The indices of the strategy tasks that take events, in order.
pub open spec fn ready_indices(tasks: Seq<StrategyTask>) -> Seq<usize> {
    ready_below(tasks, tasks.len() as int)
}

/// The strategy tasks that an event from a collector goes to: each one whose
/// state was synced, whatever became of the others.
pub fn fan_out_targets(tasks: &Vec<StrategyTask>) -> (r: Vec<usize>)
    ensures
        r@ == ready_indices(tasks@),
{
    let mut out: Vec<usize> = Vec::new();
    let mut i: usize = 0;
    while i < tasks.len()
        invariant
            i <= tasks@.len(),
            out@ == ready_below(tasks@, i as int),
        decreases tasks@.len() - i,
    {
        if tasks[i].accepts_events() {
            out.push(i);
        }
        i = i + 1;
    }
    out
}

/// Why `run` did not start anything.
#[derive(PartialEq, Eq, Structural)]
pub enum EngineError {
    /// No collector, strategy or executor was registered.
    NoComponents,
}

/// The components registered with an engine, in the order of registration.
/// They are taken over by `run`, which fixes them for the engine's lifetime.
pub struct Engine<C, S, X> {
    pub collectors: Vec<C>,
    pub strategies: Vec<S>,
    pub executors: Vec<X>,
}

/// What `run` starts: one task per collector, per strategy and per executor,
/// each strategy and executor task with the state machine that drives it.
pub struct TaskSet<C, S, X> {
    pub collectors: Vec<C>,
    pub strategies: Vec<S>,
    pub strategy_tasks: Vec<StrategyTask>,
    pub executors: Vec<X>,
    pub executor_tasks: Vec<ExecutorTask>,
}

impl<C, S, X> TaskSet<C, S, X> {
    /// Every strategy task waits for its sync and every executor task waits for
    /// its first action, with nothing recorded yet.
    pub open spec fn fresh(&self) -> bool {
        &&& self.strategy_tasks@.len() == self.strategies@.len()
        &&& self.executor_tasks@.len() == self.executors@.len()
        &&& forall|i: int|
            0 <= i < self.strategy_tasks@.len() ==> #[trigger] self.strategy_tasks@[i].phase
                == Phase::AwaitingSync
        &&& forall|i: int|
            0 <= i < self.executor_tasks@.len() ==> {
                let t = #[trigger] self.executor_tasks@[i];
                &&& t.wf()
                &&& !t.awaiting
                &&& t.failures@.len() == 0
                &&& t.outcomes@.len() == 0
            }
    }
}

impl<C, S, X> Engine<C, S, X> {
    pub fn new() -> (r: Self)
        ensures
            r.collectors@.len() == 0,
            r.strategies@.len() == 0,
            r.executors@.len() == 0,
    {
        Engine { collectors: Vec::new(), strategies: Vec::new(), executors: Vec::new() }
    }

    pub fn add_collector(&mut self, collector: C)
        ensures
            final(self).collectors@ == old(self).collectors@.push(collector),
            final(self).strategies@ == old(self).strategies@,
            final(self).executors@ == old(self).executors@,
    {
        self.collectors.push(collector);
    }

    pub fn add_strategy(&mut self, strategy: S)
        ensures
            final(self).collectors@ == old(self).collectors@,
            final(self).strategies@ == old(self).strategies@.push(strategy),
            final(self).executors@ == old(self).executors@,
    {
        self.strategies.push(strategy);
    }

    pub fn add_executor(&mut self, executor: X)
        ensures
            final(self).collectors@ == old(self).collectors@,
            final(self).strategies@ == old(self).strategies@,
            final(self).executors@ == old(self).executors@.push(executor),
    {
        self.executors.push(executor);
    }

    /// Starts the engine: every registered component gets a task, strategies with
    /// their sync still to come. It refuses only when nothing at all was registered.
    pub fn run(self) -> (r: Result<TaskSet<C, S, X>, EngineError>)
        ensures
            r is Err <==> (self.collectors@.len() == 0 && self.strategies@.len() == 0
                && self.executors@.len() == 0),
            r matches Err(e) ==> e == EngineError::NoComponents,
            r matches Ok(set) ==> {
                &&& set.fresh()
                &&& set.collectors@ == self.collectors@
                &&& set.strategies@ == self.strategies@
                &&& set.executors@ == self.executors@
            },
    {
        if self.collectors.len() == 0 && self.strategies.len() == 0 && self.executors.len() == 0 {
            return Err(EngineError::NoComponents);
        }
        let mut strategy_tasks: Vec<StrategyTask> = Vec::new();
        while strategy_tasks.len() < self.strategies.len()
            invariant
                strategy_tasks@.len() <= self.strategies@.len(),
                forall|i: int|
                    0 <= i < strategy_tasks@.len() ==> #[trigger] strategy_tasks@[i].phase
                        == Phase::AwaitingSync,
            decreases self.strategies@.len() - strategy_tasks@.len(),
        {
            strategy_tasks.push(StrategyTask::new());
        }
        let mut executor_tasks: Vec<ExecutorTask> = Vec::new();
        while executor_tasks.len() < self.executors.len()
            invariant
                executor_tasks@.len() <= self.executors@.len(),
                forall|i: int|
                    0 <= i < executor_tasks@.len() ==> {
                        let t = #[trigger] executor_tasks@[i];
                        &&& t.wf()
                        &&& !t.awaiting
                        &&& t.failures@.len() == 0
                        &&& t.outcomes@.len() == 0
                    },
            decreases self.executors@.len() - executor_tasks@.len(),
        {
            executor_tasks.push(ExecutorTask::new());
        }
        Ok(
            TaskSet {
                collectors: self.collectors,
                strategies: self.strategies,
                strategy_tasks,
                executors: self.executors,
                executor_tasks,
            },
        )
    }
}

} // verus!
