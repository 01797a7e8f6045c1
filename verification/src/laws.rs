//! Laws of the engine, proved once and for all inputs.

use vstd::prelude::*;
use crate::engine::{
    cancel_accepts, match_accepts, place_accepts, spec_buyer_refund, spec_fill_qty,
    spec_seller_payment,
};
use crate::state::{Market, Order, Side};

verus! {

/// Fill progress is bounded: a well-formed order always has
/// `0 <= filled_quantity <= quantity`, and its remaining quantity is
/// exactly the difference.
pub proof fn lemma_fill_progress_bounded(order: Order)
    requires
        order.wf(),
    ensures
        0 <= order.filled_quantity <= order.quantity,
        order.spec_remaining() == order.quantity - order.filled_quantity,
{
}

/// Fund conservation: whatever a match fills, the seller's payment plus the
/// buyer's refund equals the bid's escrow attributable to the fill at the
/// bid's original price — no fund unit is created or destroyed.
pub proof fn lemma_match_conserves_funds(bid: Order, ask: Order)
    requires
        bid.price >= ask.price,
    ensures
        spec_seller_payment(bid, ask) + spec_buyer_refund(bid, ask) == bid.price * spec_fill_qty(
            bid,
            ask,
        ),
{
    let p_bid = bid.price as int;
    let p_ask = ask.price as int;
    let f = spec_fill_qty(bid, ask);
    assert(p_ask * f + (p_bid - p_ask) * f == p_bid * f) by (nonlinear_arith);
}

/// Terminal states are final: once an order is Filled or Cancelled, no
/// cancellation succeeds against it and no match succeeds that names it on
/// either side — and a rejected operation leaves every record unchanged, so
/// such an order never moves again.
pub proof fn lemma_terminal_states_are_final(
    order: Order,
    other: Order,
    caller: u64,
    bid_owner: u64,
    ask_owner: u64,
)
    requires
        order.spec_is_terminal(),
    ensures
        !cancel_accepts(order, caller),
        !match_accepts(order, other, bid_owner, ask_owner),
        !match_accepts(other, order, bid_owner, ask_owner),
{
}

/// Sequential id law, acceptance half: a placement only succeeds with the
/// id the market's counter stands at, and the counter then advances by one
/// (as `place_order` ensures), so two placements accepted in succession
/// carry consecutive ids — on a fresh market, `0, 1, 2, ...` in call order.
pub proof fn lemma_order_ids_sequential(
    m0: Market,
    m1: Market,
    side0: Side,
    price0: u64,
    quantity0: u64,
    id0: u64,
    side1: Side,
    price1: u64,
    quantity1: u64,
    id1: u64,
)
    requires
        place_accepts(m0, side0, price0, quantity0, id0),
        m1.next_order_id == m0.next_order_id + 1,
        place_accepts(m1, side1, price1, quantity1, id1),
    ensures
        id0 == m0.next_order_id,
        id1 == id0 + 1,
{
}

/// Sequential id law, rejection half: any id other than the counter's
/// current value is rejected outright.
pub proof fn lemma_out_of_sequence_id_rejected(
    m: Market,
    side: Side,
    price: u64,
    quantity: u64,
    order_id: u64,
)
    requires
        order_id != m.next_order_id,
    ensures
        !place_accepts(m, side, price, quantity, order_id),
{
}

} // verus!
