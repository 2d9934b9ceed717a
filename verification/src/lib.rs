//! Settlement of a token launchpad.
//!
//! A bonding curve pool that has raised its target is migrated to Meteora: a fee goes to
//! the platform, most of the reserves become liquidity, and a part of the SOL is set
//! aside in a treasury. From then on anyone may trigger a buyback, which spends a share
//! of that treasury on the pool's own token and burns the tokens or leaves them to be
//! added as liquidity.
//!
//! Both instructions are sequences of steps that do no input or output. Each step says
//! what is to be done next, and takes what came of it as the event of the next step.
pub mod cpi;
pub mod errors;
pub mod events;
pub mod fees;
pub mod instructions;
pub mod laws;
pub mod pubkey;
pub mod state;
