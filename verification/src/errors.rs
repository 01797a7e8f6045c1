//! Failure signals of the engine.

use vstd::prelude::*;

verus! {

/// Every way an operation can be rejected.  All failures are synchronous and
/// typed; a rejected operation leaves no observable state change.
///
/// Authorization failures (`Unauthorized`, `BidOwnerMismatch`,
/// `AskOwnerMismatch`) are distinguished from state failures
/// (`OrderNotActive`, `OrderNotClosed`) and from input-validation failures
/// (the rest), so a caller can tell a caller error from a stale view of the
/// records.
#[derive(Clone, Copy, PartialEq, Eq, Structural, Debug)]
pub enum MatchingEngineError {
    /// Price must be greater than zero.
    InvalidPrice,
    /// Quantity must be greater than zero.
    InvalidQuantity,
    /// Order id must equal the market's `next_order_id`.
    InvalidOrderId,
    /// Bid price must be at least the ask price for a match to execute.
    PriceMismatch,
    /// Both orders of a match must belong to the same market.
    MarketMismatch,
    /// The order is not in an active state (Open or PartiallyFilled).
    OrderNotActive,
    /// Wrong order side for this operation.
    InvalidOrderSide,
    /// The caller does not own this order.
    Unauthorized,
    /// A checked arithmetic step overflowed.
    MathOverflow,
    /// Market names are limited to 32 bytes.
    MarketNameTooLong,
    /// The supplied bid owner identity does not match the bid order's owner.
    BidOwnerMismatch,
    /// The supplied ask owner identity does not match the ask order's owner.
    AskOwnerMismatch,
    /// Only a Filled or Cancelled order may be closed.
    OrderNotClosed,
}

} // verus!
