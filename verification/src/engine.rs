//! The four operations of the engine, with the acceptance predicates their
//! contracts are stated over.
//!
//! Every operation either succeeds with fully described effects or fails
//! with a typed error and no state change at all.  The `*_accepts` spec
//! functions say exactly which inputs succeed; the `*_error` spec functions
//! say which error an input that does not is rejected with (the first
//! failing check wins, in the order the checks are listed).

use vstd::prelude::*;
use crate::errors::MatchingEngineError;
use crate::events::{OrderCancelledEvent, OrderPlacedEvent, TradeExecutedEvent};
use crate::state::{Market, Order, OrderStatus, Side};

verus! {

/// Exactly the market names `initialize_market` accepts.
pub open spec fn market_name_accepted(name: Seq<u8>) -> bool {
    name.len() <= Market::spec_max_name_len()
}

/// Create a new market: all counters start at zero.
///
/// Fails only when the name is longer than 32 bytes, and then changes
/// nothing.
pub fn initialize_market(authority: u64, market_name: Vec<u8>) -> (r: Result<
    Market,
    MatchingEngineError,
>)
    ensures
        r is Ok <==> market_name_accepted(market_name@),
        r matches Ok(m) ==> {
            &&& m.authority == authority
            &&& m.market_name@ == market_name@
            &&& m.next_order_id == 0
            &&& m.total_bid_volume == 0
            &&& m.total_ask_volume == 0
            &&& m.wf()
        },
        r is Err ==> r->Err_0 == MatchingEngineError::MarketNameTooLong,
{
    if market_name.len() > 32 {
        return Err(MatchingEngineError::MarketNameTooLong);
    }
    Ok(
        Market {
            authority,
            market_name,
            next_order_id: 0,
            total_bid_volume: 0,
            total_ask_volume: 0,
        },
    )
}

/// Exactly the placements that succeed against market `m`: positive price
/// and quantity, the id the market hands out next, and every checked
/// arithmetic step in range (the escrow product only matters for a buy —
/// a sell escrows nothing and its product is never formed).
pub open spec fn place_accepts(
    m: Market,
    side: Side,
    price: u64,
    quantity: u64,
    order_id: u64,
) -> bool {
    &&& price > 0
    &&& quantity > 0
    &&& order_id == m.next_order_id
    &&& (side == Side::Buy ==> price * quantity <= u64::MAX)
    &&& (side == Side::Buy ==> m.total_bid_volume + quantity <= u64::MAX)
    &&& (side == Side::Sell ==> m.total_ask_volume + quantity <= u64::MAX)
    &&& m.next_order_id + 1 <= u64::MAX
}

/// The error a rejected placement reports: the validation checks fire in
/// order, and every later failure is an arithmetic overflow.
pub open spec fn place_error(
    m: Market,
    side: Side,
    price: u64,
    quantity: u64,
    order_id: u64,
) -> MatchingEngineError {
    if price == 0 {
        MatchingEngineError::InvalidPrice
    } else if quantity == 0 {
        MatchingEngineError::InvalidQuantity
    } else if order_id != m.next_order_id {
        MatchingEngineError::InvalidOrderId
    } else {
        MatchingEngineError::MathOverflow
    }
}

/// Place a limit order on `market` (stored by the host under `market_key`).
///
/// A buy order escrows exactly `price * quantity` fund units; the host
/// debits the owner by the new order's `escrow` when it commits the
/// operation.  A sell order escrows nothing.  The market's side aggregate
/// grows by `quantity` and the id counter advances by one.  On any failure
/// the market is untouched and no order exists to escrow into.
pub fn place_order(
    market: &mut Market,
    market_key: u64,
    owner: u64,
    side: Side,
    price: u64,
    quantity: u64,
    order_id: u64,
    timestamp: i64,
) -> (r: Result<(Order, OrderPlacedEvent), MatchingEngineError>)
    requires
        old(market).wf(),
    ensures
        final(market).wf(),
        r is Ok <==> place_accepts(*old(market), side, price, quantity, order_id),
        r is Err ==> {
            &&& *final(market) == *old(market)
            &&& r->Err_0 == place_error(*old(market), side, price, quantity, order_id)
        },
        r matches Ok((order, ev)) ==> {
            &&& order.owner == owner
            &&& order.market == market_key
            &&& order.order_id == order_id
            &&& order.side == side
            &&& order.price == price
            &&& order.quantity == quantity
            &&& order.filled_quantity == 0
            &&& order.status == OrderStatus::Open
            &&& order.timestamp == timestamp
            &&& (side == Side::Buy ==> order.escrow == price * quantity)
            &&& (side == Side::Sell ==> order.escrow == 0)
            &&& order.wf()
            &&& final(market).authority == old(market).authority
            &&& final(market).market_name@ == old(market).market_name@
            &&& final(market).next_order_id == old(market).next_order_id + 1
            &&& (side == Side::Buy ==> {
                &&& final(market).total_bid_volume == old(market).total_bid_volume + quantity
                &&& final(market).total_ask_volume == old(market).total_ask_volume
            })
            &&& (side == Side::Sell ==> {
                &&& final(market).total_bid_volume == old(market).total_bid_volume
                &&& final(market).total_ask_volume == old(market).total_ask_volume + quantity
            })
            &&& ev == (OrderPlacedEvent {
                order_id,
                owner,
                market: market_key,
                side,
                price,
                quantity,
                timestamp,
            })
        },
        final(market).next_order_id >= old(market).next_order_id,
{
    if price == 0 {
        return Err(MatchingEngineError::InvalidPrice);
    }
    if quantity == 0 {
        return Err(MatchingEngineError::InvalidQuantity);
    }
    if order_id != market.next_order_id {
        return Err(MatchingEngineError::InvalidOrderId);
    }
    // Every checked step runs before any record is touched, so a late
    // overflow still leaves the market exactly as it was.
    let escrow: u64 = if matches!(side, Side::Buy) {
        match price.checked_mul(quantity) {
            Some(e) => e,
            None => {
                return Err(MatchingEngineError::MathOverflow);
            },
        }
    } else {
        0
    };
    let new_volume: u64 = if matches!(side, Side::Buy) {
        match market.total_bid_volume.checked_add(quantity) {
            Some(v) => v,
            None => {
                return Err(MatchingEngineError::MathOverflow);
            },
        }
    } else {
        match market.total_ask_volume.checked_add(quantity) {
            Some(v) => v,
            None => {
                return Err(MatchingEngineError::MathOverflow);
            },
        }
    };
    let new_next_order_id: u64 = match market.next_order_id.checked_add(1) {
        Some(n) => n,
        None => {
            return Err(MatchingEngineError::MathOverflow);
        },
    };
    let order = Order {
        owner,
        market: market_key,
        order_id,
        side,
        price,
        quantity,
        filled_quantity: 0,
        status: OrderStatus::Open,
        escrow,
        timestamp,
    };
    if matches!(side, Side::Buy) {
        market.total_bid_volume = new_volume;
    } else {
        market.total_ask_volume = new_volume;
    }
    market.next_order_id = new_next_order_id;
    let ev = OrderPlacedEvent { order_id, owner, market: market_key, side, price, quantity, timestamp };
    Ok((order, ev))
}

/// The fund movements of one executed match.  The host applies them as one
/// atomic effect: debit `total_debit` from the bid order's escrow, credit
/// `seller_payment` to the ask owner and `buyer_refund` to the bid owner.
#[derive(Clone, Copy, PartialEq, Eq, Structural, Debug)]
pub struct Trade {
    pub fill_quantity: u64,
    /// Settlement price: the ask (maker) price.
    pub fill_price: u64,
    /// `fill_price * fill_quantity`, paid to the seller.
    pub seller_payment: u64,
    /// `(bid.price - ask.price) * fill_quantity`, returned to the buyer.
    pub buyer_refund: u64,
    /// `seller_payment + buyer_refund`, taken from the bid's escrow.
    pub total_debit: u64,
}

/// Exactly the pairs a match executes on: a buy against a sell, both still
/// active, on one market, at crossing prices, with the fund-receiving
/// identities named correctly by the caller.
pub open spec fn match_accepts(bid: Order, ask: Order, bid_owner: u64, ask_owner: u64) -> bool {
    &&& bid.side == Side::Buy
    &&& ask.side == Side::Sell
    &&& bid.spec_is_active()
    &&& ask.spec_is_active()
    &&& bid.market == ask.market
    &&& bid.price >= ask.price
    &&& bid_owner == bid.owner
    &&& ask_owner == ask.owner
}

/// The error a rejected match reports: the first failing check of the
/// validation sequence.
pub open spec fn match_error(
    bid: Order,
    ask: Order,
    bid_owner: u64,
    ask_owner: u64,
) -> MatchingEngineError {
    if bid.side != Side::Buy {
        MatchingEngineError::InvalidOrderSide
    } else if ask.side != Side::Sell {
        MatchingEngineError::InvalidOrderSide
    } else if !bid.spec_is_active() {
        MatchingEngineError::OrderNotActive
    } else if !ask.spec_is_active() {
        MatchingEngineError::OrderNotActive
    } else if bid.market != ask.market {
        MatchingEngineError::MarketMismatch
    } else if bid.price < ask.price {
        MatchingEngineError::PriceMismatch
    } else if bid_owner != bid.owner {
        MatchingEngineError::BidOwnerMismatch
    } else {
        MatchingEngineError::AskOwnerMismatch
    }
}

/// How much a match of these two orders fills: the smaller remaining side.
pub open spec fn spec_fill_qty(bid: Order, ask: Order) -> int {
    if bid.spec_remaining() <= ask.spec_remaining() {
        bid.spec_remaining()
    } else {
        ask.spec_remaining()
    }
}

/// What the seller receives: the fill at the ask (maker) price.
pub open spec fn spec_seller_payment(bid: Order, ask: Order) -> int {
    ask.price * spec_fill_qty(bid, ask)
}

/// What the buyer gets back: the price improvement on the fill.
pub open spec fn spec_buyer_refund(bid: Order, ask: Order) -> int {
    (bid.price - ask.price) * spec_fill_qty(bid, ask)
}

/// Match a bid against an ask.  Callable by anyone: the caller only names
/// the two orders and their owners' fund-receiving identities.
///
/// On success, both orders' fill progress advances by the fill quantity and
/// their statuses are recomputed; the bid's escrow is debited by exactly
/// `bid.price * fill_quantity`, of which the seller is paid the fill at the
/// ask price and the buyer recovers the price improvement — no fund unit is
/// created or destroyed.  On any failure both orders are untouched.
///
/// Under the orders' invariants every checked arithmetic step is in range,
/// so a well-formed pair is never rejected for overflow: the result is `Ok`
/// exactly on the pairs `match_accepts` admits.
pub fn match_orders(
    bid_order: &mut Order,
    ask_order: &mut Order,
    bid_owner: u64,
    ask_owner: u64,
    timestamp: i64,
) -> (r: Result<(Trade, TradeExecutedEvent), MatchingEngineError>)
    requires
        old(bid_order).wf(),
        old(ask_order).wf(),
    ensures
        final(bid_order).wf(),
        final(ask_order).wf(),
        r is Ok <==> match_accepts(*old(bid_order), *old(ask_order), bid_owner, ask_owner),
        r is Err ==> {
            &&& *final(bid_order) == *old(bid_order)
            &&& *final(ask_order) == *old(ask_order)
            &&& r->Err_0 == match_error(*old(bid_order), *old(ask_order), bid_owner, ask_owner)
        },
        r matches Ok((trade, ev)) ==> {
            &&& trade.fill_quantity == spec_fill_qty(*old(bid_order), *old(ask_order))
            &&& trade.fill_quantity > 0
            &&& trade.fill_price == old(ask_order).price
            &&& trade.seller_payment == spec_seller_payment(*old(bid_order), *old(ask_order))
            &&& trade.buyer_refund == spec_buyer_refund(*old(bid_order), *old(ask_order))
            &&& trade.total_debit == trade.seller_payment + trade.buyer_refund
            &&& trade.seller_payment + trade.buyer_refund == old(bid_order).price * trade.fill_quantity
            &&& *final(bid_order) == (Order {
                filled_quantity: final(bid_order).filled_quantity,
                status: final(bid_order).status,
                escrow: final(bid_order).escrow,
                ..*old(bid_order)
            })
            &&& *final(ask_order) == (Order {
                filled_quantity: final(ask_order).filled_quantity,
                status: final(ask_order).status,
                ..*old(ask_order)
            })
            &&& final(bid_order).filled_quantity == old(bid_order).filled_quantity
                + trade.fill_quantity
            &&& final(ask_order).filled_quantity == old(ask_order).filled_quantity
                + trade.fill_quantity
            &&& final(bid_order).escrow == old(bid_order).escrow - trade.total_debit
            &&& final(ask_order).escrow == 0
            &&& (final(bid_order).status == OrderStatus::Filled
                <==> final(bid_order).filled_quantity == old(bid_order).quantity)
            &&& (final(bid_order).status == OrderStatus::PartiallyFilled
                <==> final(bid_order).filled_quantity < old(bid_order).quantity)
            &&& (final(ask_order).status == OrderStatus::Filled
                <==> final(ask_order).filled_quantity == old(ask_order).quantity)
            &&& (final(ask_order).status == OrderStatus::PartiallyFilled
                <==> final(ask_order).filled_quantity < old(ask_order).quantity)
            &&& ev == (TradeExecutedEvent {
                bid_order_id: old(bid_order).order_id,
                ask_order_id: old(ask_order).order_id,
                market: old(bid_order).market,
                buyer: old(bid_order).owner,
                seller: old(ask_order).owner,
                fill_price: trade.fill_price,
                fill_quantity: trade.fill_quantity,
                timestamp,
            })
        },
{
    if !matches!(bid_order.side, Side::Buy) {
        return Err(MatchingEngineError::InvalidOrderSide);
    }
    if !matches!(ask_order.side, Side::Sell) {
        return Err(MatchingEngineError::InvalidOrderSide);
    }
    if !bid_order.is_active() {
        return Err(MatchingEngineError::OrderNotActive);
    }
    if !ask_order.is_active() {
        return Err(MatchingEngineError::OrderNotActive);
    }
    if bid_order.market != ask_order.market {
        return Err(MatchingEngineError::MarketMismatch);
    }
    if bid_order.price < ask_order.price {
        return Err(MatchingEngineError::PriceMismatch);
    }
    if bid_owner != bid_order.owner {
        return Err(MatchingEngineError::BidOwnerMismatch);
    }
    if ask_owner != ask_order.owner {
        return Err(MatchingEngineError::AskOwnerMismatch);
    }
    let rem_bid = bid_order.remaining_quantity();
    let rem_ask = ask_order.remaining_quantity();
    let fill_qty: u64 = if rem_bid <= rem_ask {
        rem_bid
    } else {
        rem_ask
    };
    let fill_price = ask_order.price;
    proof {
        // The bid's escrow bounds every amount formed below:
        //   ask.price * fill <= bid.price * rem_bid == escrow <= u64::MAX.
        let p_bid = bid_order.price as int;
        let p_ask = ask_order.price as int;
        let f = fill_qty as int;
        let rb = rem_bid as int;
        assert(bid_order.escrow == p_bid * rb);
        assert(p_ask * f <= p_bid * rb) by (nonlinear_arith)
            requires
                0 <= p_ask <= p_bid,
                0 <= f <= rb,
        ;
        assert((p_bid - p_ask) * f <= p_bid * rb) by (nonlinear_arith)
            requires
                0 <= p_bid - p_ask <= p_bid,
                0 <= f <= rb,
        ;
        assert(p_ask * f + (p_bid - p_ask) * f == p_bid * f) by (nonlinear_arith);
        assert(p_bid * f <= p_bid * rb) by (nonlinear_arith)
            requires
                0 <= p_bid,
                f <= rb,
        ;
        assert(p_bid * rb - p_bid * f == p_bid * (rb - f)) by (nonlinear_arith);
    }
    // Each step is guarded as a matter of form; the proof above shows none
    // of the guards can fire on well-formed orders.
    let seller_payment: u64 = match fill_price.checked_mul(fill_qty) {
        Some(v) => v,
        None => {
            return Err(MatchingEngineError::MathOverflow);
        },
    };
    let price_improvement: u64 = match bid_order.price.checked_sub(ask_order.price) {
        Some(v) => v,
        None => {
            return Err(MatchingEngineError::MathOverflow);
        },
    };
    let buyer_refund: u64 = match price_improvement.checked_mul(fill_qty) {
        Some(v) => v,
        None => {
            return Err(MatchingEngineError::MathOverflow);
        },
    };
    let total_debit: u64 = match seller_payment.checked_add(buyer_refund) {
        Some(v) => v,
        None => {
            return Err(MatchingEngineError::MathOverflow);
        },
    };
    let trade = Trade { fill_quantity: fill_qty, fill_price, seller_payment, buyer_refund, total_debit };
    let ev = TradeExecutedEvent {
        bid_order_id: bid_order.order_id,
        ask_order_id: ask_order.order_id,
        market: bid_order.market,
        buyer: bid_order.owner,
        seller: ask_order.owner,
        fill_price,
        fill_quantity: fill_qty,
        timestamp,
    };
    bid_order.escrow = bid_order.escrow - total_debit;
    bid_order.filled_quantity = bid_order.filled_quantity + fill_qty;
    ask_order.filled_quantity = ask_order.filled_quantity + fill_qty;
    bid_order.status = if bid_order.filled_quantity >= bid_order.quantity {
        OrderStatus::Filled
    } else {
        OrderStatus::PartiallyFilled
    };
    ask_order.status = if ask_order.filled_quantity >= ask_order.quantity {
        OrderStatus::Filled
    } else {
        OrderStatus::PartiallyFilled
    };
    Ok((trade, ev))
}

/// Exactly the cancellations that succeed: the caller owns the order and
/// the order can still trade.
pub open spec fn cancel_accepts(order: Order, caller: u64) -> bool {
    &&& caller == order.owner
    &&& order.spec_is_active()
}

/// The error a rejected cancellation reports: ownership is checked before
/// the order's state.
pub open spec fn cancel_error(order: Order, caller: u64) -> MatchingEngineError {
    if caller != order.owner {
        MatchingEngineError::Unauthorized
    } else {
        MatchingEngineError::OrderNotActive
    }
}

/// The market's side aggregate after a cancellation: decreased by the
/// cancelled order's remaining quantity, clamped at zero.  The aggregates
/// are best-effort metrics (fills never adjust them), so the decrement
/// saturates instead of failing.
pub open spec fn spec_volume_after_cancel(volume: u64, remaining: int) -> int {
    if volume >= remaining {
        volume - remaining
    } else {
        0
    }
}

/// Cancel an active order owned by `caller`.
///
/// A buy order's whole escrow — `price * remaining_quantity` — is returned
/// to the owner; a sell order never escrowed, so its refund is zero.  The
/// order becomes `Cancelled`, terminally: no later match or cancellation
/// succeeds against it.  The market's matching-side aggregate shrinks by
/// the remaining quantity, saturating at zero.  On any failure both
/// records are untouched.
///
/// Under the order's invariant the refund computation cannot overflow, so
/// a well-formed order is never rejected for arithmetic: the result is
/// `Ok` exactly when `cancel_accepts` admits the input.
pub fn cancel_order(order: &mut Order, market: &mut Market, caller: u64) -> (r: Result<
    (u64, OrderCancelledEvent),
    MatchingEngineError,
>)
    requires
        old(order).wf(),
        old(market).wf(),
    ensures
        final(order).wf(),
        final(market).wf(),
        r is Ok <==> cancel_accepts(*old(order), caller),
        r is Err ==> {
            &&& *final(order) == *old(order)
            &&& *final(market) == *old(market)
            &&& r->Err_0 == cancel_error(*old(order), caller)
        },
        r matches Ok((refund, ev)) ==> {
            &&& (old(order).side == Side::Buy
                ==> refund == old(order).price * old(order).spec_remaining())
            &&& (old(order).side == Side::Sell ==> refund == 0)
            &&& refund == old(order).escrow
            &&& *final(order) == (Order {
                status: OrderStatus::Cancelled,
                escrow: 0,
                ..*old(order)
            })
            &&& (old(order).side == Side::Buy ==> {
                &&& final(market).total_bid_volume == spec_volume_after_cancel(
                    old(market).total_bid_volume,
                    old(order).spec_remaining(),
                )
                &&& final(market).total_ask_volume == old(market).total_ask_volume
            })
            &&& (old(order).side == Side::Sell ==> {
                &&& final(market).total_bid_volume == old(market).total_bid_volume
                &&& final(market).total_ask_volume == spec_volume_after_cancel(
                    old(market).total_ask_volume,
                    old(order).spec_remaining(),
                )
            })
            &&& final(market).authority == old(market).authority
            &&& final(market).market_name@ == old(market).market_name@
            &&& final(market).next_order_id == old(market).next_order_id
            &&& ev == (OrderCancelledEvent {
                order_id: old(order).order_id,
                owner: old(order).owner,
                market: old(order).market,
                refund_amount: refund,
            })
        },
{
    if caller != order.owner {
        return Err(MatchingEngineError::Unauthorized);
    }
    if !order.is_active() {
        return Err(MatchingEngineError::OrderNotActive);
    }
    let remaining = order.remaining_quantity();
    // Guarded as a matter of form; the order's invariant bounds the product
    // by the escrow already held, so the guard cannot fire.
    let refund: u64 = if matches!(order.side, Side::Buy) {
        match order.price.checked_mul(remaining) {
            Some(v) => v,
            None => {
                return Err(MatchingEngineError::MathOverflow);
            },
        }
    } else {
        0
    };
    if matches!(order.side, Side::Buy) {
        market.total_bid_volume = market.total_bid_volume.saturating_sub(remaining);
    } else {
        market.total_ask_volume = market.total_ask_volume.saturating_sub(remaining);
    }
    let ev = OrderCancelledEvent {
        order_id: order.order_id,
        owner: order.owner,
        market: order.market,
        refund_amount: refund,
    };
    order.status = OrderStatus::Cancelled;
    order.escrow = 0;
    Ok((refund, ev))
}

/// Exactly the closures that succeed: the caller owns the order and the
/// order is terminal (Filled or Cancelled).
pub open spec fn close_accepts(order: Order, caller: u64) -> bool {
    &&& caller == order.owner
    &&& order.spec_is_terminal()
}

/// The error a rejected closure reports: ownership is checked before the
/// order's state.
pub open spec fn close_error(order: Order, caller: u64) -> MatchingEngineError {
    if caller != order.owner {
        MatchingEngineError::Unauthorized
    } else {
        MatchingEngineError::OrderNotClosed
    }
}

/// Authorize the destruction of a terminal order's record.
///
/// On `Ok` the host removes the record from its store and returns the
/// record's storage deposit to the owner.  No trading funds are at stake:
/// a well-formed terminal order holds zero escrow (a filled buy has no
/// remaining quantity, a cancelled one was refunded), which the contract
/// states explicitly.
pub fn close_order(order: &Order, caller: u64) -> (r: Result<(), MatchingEngineError>)
    requires
        order.wf(),
    ensures
        r is Ok <==> close_accepts(*order, caller),
        r is Err ==> r->Err_0 == close_error(*order, caller),
        r is Ok ==> order.escrow == 0,
{
    if caller != order.owner {
        return Err(MatchingEngineError::Unauthorized);
    }
    if order.is_active() {
        return Err(MatchingEngineError::OrderNotClosed);
    }
    Ok(())
}

} // verus!
