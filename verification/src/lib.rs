//! A verified order-matching and settlement engine.
//!
//! Independent parties register limit orders against a named market, any
//! third party may match a compatible bid/ask pair, and escrowed funds are
//! returned on cancellation.  The crate proves that the order lifecycle and
//! the escrow arithmetic never create, destroy or misdirect funds: a buy
//! order's escrow always equals `price * remaining_quantity` while the order
//! is active, every match pays out exactly what it debits, and terminal
//! orders admit no further fills or refunds.
//!
//! The engine is pure: it operates on plain record values and reports the
//! fund movements each operation requires.  Durable storage of the records,
//! the actual movement of value between accounts, and the delivery of the
//! notification events are left to the surrounding host, which applies each
//! operation's effects atomically.

pub mod engine;
pub mod errors;
pub mod events;
pub mod laws;
pub mod state;
