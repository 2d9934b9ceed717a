//! The accounts' contents.
pub mod bonding_curve_pool;
pub mod buyback;
pub mod global_config;
pub mod presale_pool;
