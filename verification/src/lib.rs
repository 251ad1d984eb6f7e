//! Driver logic for an HD44780 character LCD attached through a PCF8574
//! I2C GPIO expander.
//!
//! The display is driven by a fixed, timed sequence of single-byte I2C
//! transactions to the expander. This crate computes that sequence: every
//! driver operation appends the exact writes and delays it requires to a
//! recorded trace of [`protocol::BusOp`] values, and the contracts state the
//! trace precisely. A caller (for instance a firmware binary) then performs
//! each recorded operation against the real bus in order; a bus fault is
//! handled there, by stopping at the first failed transaction, since the
//! protocol gives no way to recover mid-sequence.

pub mod driver;
pub mod protocol;
