//! Accounting and authorization core of a liquidity-backed lock/release
//! stablecoin bridge: pool share accounting, the bridge-lock lifecycle and
//! the pause and role checks that gate every mutating operation.
//!
//! Token movements (transfer, mint, burn), the clock and event delivery are
//! performed by the caller: each operation returns the event record that
//! names the amounts to move, and only changes state when it succeeds.

pub mod accounting;
pub mod admin;
pub mod bridge;
pub mod errors;
pub mod events;
pub mod laws;
pub mod liquidity;
pub mod state;
