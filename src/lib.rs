pub mod engine;
pub mod guarantees;
pub mod simple_arbitrage;
pub mod types;

pub use simple_arbitrage::SimpleArbitrageStrategy;
pub use types::{Action, Event};
