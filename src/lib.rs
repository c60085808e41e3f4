//! Asynchronous generators built on futures: a body that stages values in a
//! one-value slot and a driver that hands them out one resumption at a time.
pub mod std_items;
pub mod state;
pub mod protocol;
pub mod generator;
pub mod model;
pub mod rewrite;

pub use state::{GeneratorState, Return};
pub use generator::{gen, AsyncGen, AsyncGenerator, AsyncIter, Suspend, Yield};
