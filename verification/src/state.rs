//! The two record types the engine operates on, and their invariants.
//!
//! Identities (order owners, market authorities) and record addresses are
//! plain `u64` keys: the engine only ever compares them for equality, so any
//! primary-key scheme of the host works.  A buy order's escrowed balance is
//! carried as a field of the order record; the host keeps the real balance
//! in lockstep by applying the fund movements each operation reports.

use vstd::prelude::*;

verus! {

/// Which side of the book an order stands on.
#[derive(Clone, Copy, PartialEq, Eq, Structural, Debug)]
pub enum Side {
    Buy,
    Sell,
}

impl Default for Side {
    fn default() -> (r: Self)
        ensures
            r == Side::Buy,
    {
        Side::Buy
    }
}

/// Lifecycle state of an order.
///
/// `Open -> PartiallyFilled -> Filled` by matching, and
/// `Open | PartiallyFilled -> Cancelled` by cancellation.  `Filled` and
/// `Cancelled` are terminal for trading; only a terminal order may be
/// closed (destroyed by the host's record store).
#[derive(Clone, Copy, PartialEq, Eq, Structural, Debug)]
pub enum OrderStatus {
    Open,
    PartiallyFilled,
    Filled,
    Cancelled,
}

impl Default for OrderStatus {
    fn default() -> (r: Self)
        ensures
            r == OrderStatus::Open,
    {
        OrderStatus::Open
    }
}

/// One record per market: the order-id counter and coarse volume metrics.
#[derive(Clone, Debug)]
pub struct Market {
    /// Identity of the creator (informational; no operation requires it).
    pub authority: u64,
    /// Immutable name, at most 32 bytes; the market's identity for the host.
    pub market_name: Vec<u8>,
    /// Strictly sequential order-id counter, starting at 0.
    pub next_order_id: u64,
    /// Aggregate outstanding buy quantity.  Increased on placement and
    /// decreased (saturating) on cancellation, never adjusted by fills: a
    /// coarse metric, not live book depth.
    pub total_bid_volume: u64,
    /// Aggregate outstanding sell quantity, kept like `total_bid_volume`.
    pub total_ask_volume: u64,
}

impl Market {
    /// Upper bound on the byte length of a market name.
    pub open spec fn spec_max_name_len() -> int {
        32
    }

    /// A market record is well formed when its name fits the limit.
    pub open spec fn wf(self) -> bool {
        self.market_name@.len() <= Market::spec_max_name_len()
    }
}

/// One record per order.
#[derive(Clone, Copy, PartialEq, Eq, Structural, Debug)]
pub struct Order {
    /// Identity authorized to cancel or close this order.
    pub owner: u64,
    /// Key of the owning market; two orders match only within one market.
    pub market: u64,
    /// Assigned at placement, immutable, unique within the market.
    pub order_id: u64,
    pub side: Side,
    /// Limit price, strictly positive, immutable.
    pub price: u64,
    /// Originally requested quantity, strictly positive, immutable.
    pub quantity: u64,
    /// Monotonically increasing fill progress, never above `quantity`.
    pub filled_quantity: u64,
    pub status: OrderStatus,
    /// Funds held against this order.  For an active buy order this is
    /// exactly `price * remaining_quantity`; a sell order holds nothing.
    pub escrow: u64,
    /// Placement time, immutable; supplied by the host's clock.
    pub timestamp: i64,
}

impl Order {
    /// Quantity still unfilled, clamped at zero.
    pub open spec fn spec_remaining(self) -> int {
        if self.filled_quantity <= self.quantity {
            self.quantity - self.filled_quantity
        } else {
            0
        }
    }

    /// Quantity still unfilled, clamped at zero.
    pub fn remaining_quantity(&self) -> (r: u64)
        ensures
            r == self.spec_remaining(),
    {
        self.quantity.saturating_sub(self.filled_quantity)
    }

    /// An order can still trade while Open or PartiallyFilled.
    pub open spec fn spec_is_active(self) -> bool {
        self.status == OrderStatus::Open || self.status == OrderStatus::PartiallyFilled
    }

    /// An order can still trade while Open or PartiallyFilled.
    pub fn is_active(&self) -> (r: bool)
        ensures
            r == self.spec_is_active(),
    {
        self.status == OrderStatus::Open || self.status == OrderStatus::PartiallyFilled
    }

    /// Filled and Cancelled are terminal: no match or cancellation succeeds
    /// against such an order, and only such an order may be closed.
    pub open spec fn spec_is_terminal(self) -> bool {
        self.status == OrderStatus::Filled || self.status == OrderStatus::Cancelled
    }

    /// The funds an order of this shape must hold: an active buy order
    /// escrows exactly `price * remaining_quantity`, everything else holds
    /// nothing (a filled buy order has zero remaining, a cancelled one has
    /// been refunded, a sell order never escrows).
    pub open spec fn spec_expected_escrow(self) -> int {
        if self.side == Side::Buy && self.spec_is_active() {
            self.price * self.spec_remaining()
        } else {
            0
        }
    }

    /// Well-formedness of an order record.  Placement establishes it and
    /// matching and cancellation preserve it; in particular
    /// `0 <= filled_quantity <= quantity` holds at all times, and the
    /// escrowed balance always equals what `spec_expected_escrow` demands.
    pub open spec fn wf(self) -> bool {
        &&& self.price > 0
        &&& self.quantity > 0
        &&& self.filled_quantity <= self.quantity
        &&& (self.spec_is_active() ==> self.filled_quantity < self.quantity)
        &&& (self.status == OrderStatus::Filled ==> self.filled_quantity == self.quantity)
        &&& self.escrow == self.spec_expected_escrow()
    }
}

} // verus!
