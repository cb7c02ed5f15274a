use mev_for_herald::engine::{
    collector_map, fan_out_targets, ActionChannel, ActionMapping, ChannelClosed, Engine,
    EngineError, EventMapping, ExecutorTask, Phase, StrategyTask, SubmissionError, SyncError,
};
use mev_for_herald::SimpleArbitrageStrategy;

struct TimesTen;

impl EventMapping<u64, u64> for TimesTen {
    fn spec_map(n: u64) -> u64 {
        n * 10
    }

    fn map(n: u64) -> u64 {
        n * 10
    }
}

#[derive(Debug, Clone, PartialEq)]
enum TestAction {
    X(u64),
    Y(u64),
}

/// Accepts only the `X` variant.
struct OnlyX;

impl ActionMapping<TestAction, u64> for OnlyX {
    fn spec_map(a: TestAction) -> Option<u64> {
        Self::map(a)
    }

    fn map(a: TestAction) -> Option<u64> {
        match a {
            TestAction::X(v) => Some(v),
            TestAction::Y(_) => None,
        }
    }
}

fn ready_task() -> StrategyTask {
    let mut t = StrategyTask::new();
    t.on_sync(Ok(()));
    t
}

/// Drains the channel through an executor task behind `OnlyX`, returning the
/// native actions that the wrapped executor would be called with.
fn drain_to_executor(channel: &mut ActionChannel<TestAction>, task: &mut ExecutorTask) -> Vec<u64> {
    let mut calls = Vec::new();
    while let Some(a) = channel.recv() {
        if let Some(n) = task.on_action::<TestAction, u64, OnlyX>(a) {
            calls.push(n);
            task.on_outcome(Ok(()));
        }
    }
    calls
}

#[test]
fn collector_map_keeps_count_and_order() {
    let out = collector_map::<u64, u64, TimesTen>(vec![3, 1, 2]);
    assert_eq!(out, vec![30, 10, 20]);
    let empty = collector_map::<u64, u64, TimesTen>(Vec::new());
    assert!(empty.is_empty());
}

#[test]
fn executor_map_skips_unhandled_variant() {
    let mut task = ExecutorTask::new();
    let r = task.on_action::<TestAction, u64, OnlyX>(TestAction::Y(7));
    assert_eq!(r, None);
    assert!(!task.awaiting);
    assert!(task.failures.is_empty());
    let r = task.on_action::<TestAction, u64, OnlyX>(TestAction::X(8));
    assert_eq!(r, Some(8));
    assert!(task.awaiting);
}

#[test]
fn silent_strategy_calls_no_executor() {
    let strategy_task = ready_task();
    let mut channel = ActionChannel::new();
    for _ in 0..100 {
        let actions: Vec<TestAction> = Vec::new();
        assert!(strategy_task.on_actions(actions, &mut channel).is_ok());
    }
    let mut exec = ExecutorTask::new();
    assert!(drain_to_executor(&mut channel, &mut exec).is_empty());
}

#[test]
fn all_actions_of_an_event_sent_before_the_next() {
    let task = ready_task();
    let mut channel = ActionChannel::new();
    task.on_actions(vec![TestAction::X(1), TestAction::Y(2), TestAction::X(3)], &mut channel)
        .ok()
        .unwrap();
    assert_eq!(channel.queue, vec![TestAction::X(1), TestAction::Y(2), TestAction::X(3)]);
    task.on_actions(vec![TestAction::X(4)], &mut channel).ok().unwrap();
    assert_eq!(channel.queue.len(), 4);
    assert_eq!(channel.queue[3], TestAction::X(4));
}

#[test]
fn closed_channel_reports_dropped_actions() {
    let task = ready_task();
    let mut channel = ActionChannel::new();
    channel.close();
    let r = task.on_actions(vec![TestAction::X(1), TestAction::X(2)], &mut channel);
    match r {
        Err(ChannelClosed { dropped }) => assert_eq!(dropped, 2),
        Ok(()) => panic!("a closed channel took actions"),
    }
    assert!(channel.queue.is_empty());
    assert_eq!(channel.send(TestAction::Y(5)), Err(TestAction::Y(5)));
}

#[test]
fn failed_sync_does_not_stop_other_strategies() {
    let mut failed = StrategyTask::new();
    failed.on_sync(Err(SyncError { reason: String::from("no state") }));
    assert!(failed.phase == Phase::Failed);
    assert!(!failed.accepts_events());
    let tasks = vec![failed, ready_task(), StrategyTask::new(), ready_task()];
    assert_eq!(fan_out_targets(&tasks), vec![1, 3]);
}

#[test]
fn scenario_one_collector_one_strategy_one_executor() {
    // The collector yields A and B; the strategy maps A to [X] and B to nothing;
    // the executor accepts X only.
    let events = collector_map::<u64, u64, TimesTen>(vec![1, 2]);
    let mut engine: Engine<Vec<u64>, u64, u64> = Engine::new();
    engine.add_collector(events.clone());
    engine.add_strategy(0);
    engine.add_executor(0);
    let mut set = engine.run().ok().unwrap();
    set.strategy_tasks[0].on_sync(Ok(()));
    let mut channel = ActionChannel::new();
    for e in set.collectors[0].clone() {
        for i in fan_out_targets(&set.strategy_tasks) {
            let actions = if e == 10 { vec![TestAction::X(e)] } else { Vec::new() };
            set.strategy_tasks[i].on_actions(actions, &mut channel).ok().unwrap();
        }
    }
    let calls = drain_to_executor(&mut channel, &mut set.executor_tasks[0]);
    assert_eq!(calls, vec![10]);
}

#[test]
fn run_without_collectors_succeeds_and_gives_no_input() {
    let mut engine: Engine<Vec<u64>, u64, u64> = Engine::new();
    engine.add_strategy(1);
    engine.add_executor(2);
    let set = engine.run().ok().unwrap();
    assert!(set.collectors.is_empty());
    assert_eq!(set.strategy_tasks.len(), 1);
    assert!(set.strategy_tasks[0].phase == Phase::AwaitingSync);
    assert_eq!(set.executor_tasks.len(), 1);
    assert!(set.executor_tasks[0].failures.is_empty());
    assert!(!set.executor_tasks[0].awaiting);
}

#[test]
fn run_with_nothing_registered_is_refused() {
    let engine: Engine<Vec<u64>, u64, u64> = Engine::new();
    assert!(engine.run().err() == Some(EngineError::NoComponents));
}

#[test]
fn executor_error_observed_once_and_work_goes_on() {
    let mut channel = ActionChannel::new();
    let task = ready_task();
    task.on_actions(vec![TestAction::X(1), TestAction::X(2), TestAction::X(3)], &mut channel)
        .ok()
        .unwrap();
    let mut exec = ExecutorTask::new();
    let mut calls = Vec::new();
    while let Some(a) = channel.recv() {
        if let Some(n) = exec.on_action::<TestAction, u64, OnlyX>(a) {
            calls.push(n);
            if n == 2 {
                exec.on_outcome(Err(SubmissionError { reason: String::from("relay refused") }));
            } else {
                exec.on_outcome(Ok(()));
            }
        }
    }
    assert_eq!(calls, vec![1, 2, 3]);
    assert_eq!(exec.failures.len(), 1);
    assert_eq!(exec.failures[0].reason, "relay refused");
    assert!(!exec.awaiting);
}

#[test]
fn simple_arbitrage_strategy_syncs() {
    let mut s = SimpleArbitrageStrategy::new();
    assert!(s.sync_state().is_ok());
}
