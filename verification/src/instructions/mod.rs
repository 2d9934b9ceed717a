//! The instructions, each as a sequence of steps.
pub mod execute_buyback;
pub mod migrate_bonding;
