//! Turn engine of a junkyard shop game: a paced instruction queue that runs
//! each turn step by step, and the economy, item, status-effect and chest-grid
//! rules that the steps apply.

pub mod effects;
pub mod grid;
pub mod item;
pub mod money;
pub mod news;
pub mod queue;
mod random;
pub mod steps;
pub mod turn;
