//! Verified core of the multi-transport networking examples: launcher
//! configuration, connection planning, input decoding, weapons, player
//! bookkeeping and replication targeting.

pub mod config;
pub mod decimal;
pub mod input;
pub mod registry;
pub mod replication;
pub mod transport;
pub mod weapon;
