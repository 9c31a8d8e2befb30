pub mod pool;
pub mod queue;
pub mod lemmas;

pub use pool::{ConstructionError, EnqueueOutcome, JoinStep, PoolState};
pub use queue::{DequeueResult, PoolQueue};
