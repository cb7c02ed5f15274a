use vstd::prelude::*;
use crate::engine::SyncError;
use crate::types::{Action, Event};

verus! {

/// A strategy that watches MEV-Share events for arbitrage. It holds no state and,
/// as it stands, never finds an opportunity: every event yields no action.
pub struct SimpleArbitrageStrategy {}

impl SimpleArbitrageStrategy {
    pub fn new() -> (r: Self)
        ensures
            r == (SimpleArbitrageStrategy {}),
    {
        SimpleArbitrageStrategy {}
    }

    /// Loads the state the strategy needs before its first event; there is none,
    /// so it always succeeds.
    pub fn sync_state(&mut self) -> (r: Result<(), SyncError>)
        ensures
            r is Ok,
            *final(self) == *old(self),
    {
        Ok(())
    }

    /// Decides on one event. No opportunity is detected, so no action comes out.
    pub fn process_event(&mut self, event: Event) -> (r: Vec<Action>)
        ensures
            r@ == Seq::<Action>::empty(),
            *final(self) == *old(self),
    {
        Vec::new()
    }
}

} // verus!
