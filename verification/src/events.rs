//! Notification events.
//!
//! Each successful operation that changes an order produces one structured
//! event describing it.  The engine returns the event to the host, which
//! delivers it; the contracts pin every field, so the delivered notification
//! is exactly what the operation did.

use vstd::prelude::*;
use crate::state::Side;

verus! {

/// Emitted by a successful placement, with the full order parameters.
#[derive(Clone, Copy, PartialEq, Eq, Structural, Debug)]
pub struct OrderPlacedEvent {
    pub order_id: u64,
    pub owner: u64,
    pub market: u64,
    pub side: Side,
    pub price: u64,
    pub quantity: u64,
    pub timestamp: i64,
}

/// Emitted by a successful match.
#[derive(Clone, Copy, PartialEq, Eq, Structural, Debug)]
pub struct TradeExecutedEvent {
    pub bid_order_id: u64,
    pub ask_order_id: u64,
    pub market: u64,
    pub buyer: u64,
    pub seller: u64,
    /// Settlement price: always the ask (maker) price.
    pub fill_price: u64,
    pub fill_quantity: u64,
    pub timestamp: i64,
}

/// Emitted by a successful cancellation.
#[derive(Clone, Copy, PartialEq, Eq, Structural, Debug)]
pub struct OrderCancelledEvent {
    pub order_id: u64,
    pub owner: u64,
    pub market: u64,
    /// Funds returned to the owner: the whole escrow, zero for a sell.
    pub refund_amount: u64,
}

} // verus!
