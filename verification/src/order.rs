//! The two-variant order tag and its round trip with the command keyword.

use vstd::prelude::*;
use crate::tokens::seq_eq_ci;

verus! {

#[derive(Clone, Copy, Debug, PartialEq, Eq, Structural)]
pub enum OrderType {
    Buy,
    Sell,
}

/// The lowercase command keyword that names an order type.
pub open spec fn spec_keyword(ot: OrderType) -> Seq<char> {
    match ot {
        OrderType::Buy => "buy"@,
        OrderType::Sell => "sell"@,
    }
}

/// The order type named by a keyword, matched case-insensitively.
pub open spec fn spec_order_of(k: Seq<char>) -> Option<OrderType> {
    if seq_eq_ci(k, "buy"@) {
        Some(OrderType::Buy)
    } else if seq_eq_ci(k, "sell"@) {
        Some(OrderType::Sell)
    } else {
        None
    }
}

impl OrderType {
    /// The lowercase keyword this order type displays as.
    pub fn keyword(&self) -> (r: &'static str)
        ensures
            r@ == spec_keyword(*self),
    {
        match self {
            OrderType::Buy => "buy",
            OrderType::Sell => "sell",
        }
    }

    /// The order type a keyword names, or `None` for any other word.
    pub fn from_keyword(k: &str) -> (r: Option<OrderType>)
        ensures
            r == spec_order_of(k@),
    {
        if crate::tokens::str_eq_ci(k, "buy") {
            Some(OrderType::Buy)
        } else if crate::tokens::str_eq_ci(k, "sell") {
            Some(OrderType::Sell)
        } else {
            None
        }
    }
}

/// An order type round-trips through the keyword that displays it.
pub proof fn lemma_order_keyword_round_trip(ot: OrderType)
    ensures
        spec_order_of(spec_keyword(ot)) == Some(ot),
{
    reveal_strlit("buy");
    reveal_strlit("sell");
}

} // verus!
