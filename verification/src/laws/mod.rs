//! What holds of the instructions, step by step and as a whole.
pub mod buyback;
pub mod buyback_steps;
pub mod migration;
pub mod migration_steps;
pub mod seeds;
