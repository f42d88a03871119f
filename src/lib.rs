//! A two-party staked duel: a lifecycle state machine with escrow accounting,
//! and the deterministic battle-resolution algorithms that decide its winner.

pub mod battle;
pub mod duel;
pub mod key;
