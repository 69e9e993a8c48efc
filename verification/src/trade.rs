//! The trade intent and the trade-parameter validator.

use vstd::prelude::*;
use vstd::string::*;
use crate::order::{spec_keyword, OrderType};
use crate::tokens::{is_float_token, is_float_str, is_valid_address, valid_address};

verus! {

/// A requested order pending confirmation. Each field holds the submitted
/// token when it validated, and `None` when it did not; the numeric fields
/// keep their decimal text, whose reading as a number is the (stubbed)
/// executor's concern.
#[derive(Clone, Debug, PartialEq, Eq)]
pub struct TradeToken {
    pub contract: Option<String>,
    pub amount: Option<String>,
    pub slippage: Option<String>,
    pub order_type: OrderType,
}

/// The mathematical shape of a trade intent.
pub struct TradeTokenV {
    pub contract: Option<Seq<char>>,
    pub amount: Option<Seq<char>>,
    pub slippage: Option<Seq<char>>,
    pub order_type: OrderType,
}

impl View for TradeToken {
    type V = TradeTokenV;

    open spec fn view(&self) -> TradeTokenV {
        TradeTokenV {
            contract: self.contract.deep_view(),
            amount: self.amount.deep_view(),
            slippage: self.slippage.deep_view(),
            order_type: self.order_type,
        }
    }
}

/// A complete intent: every optional field validated.
pub open spec fn complete(tt: TradeTokenV) -> bool {
    tt.contract is Some && tt.amount is Some && tt.slippage is Some
}

/// An empty intent: nothing validated yet.
pub open spec fn empty_trade(ot: OrderType) -> TradeTokenV {
    TradeTokenV { contract: None, amount: None, slippage: None, order_type: ot }
}

impl TradeToken {
    /// A fresh intent with no validated fields.
    pub fn new(order_type: OrderType) -> (r: TradeToken)
        ensures
            r@ == empty_trade(order_type),
    {
        TradeToken { contract: None, amount: None, slippage: None, order_type }
    }

    pub fn is_complete(&self) -> (r: bool)
        ensures
            r == complete(self@),
    {
        self.contract.is_some() && self.amount.is_some() && self.slippage.is_some()
    }
}

/// What validation yields: nothing at all unless exactly three tokens were
/// given; otherwise an intent whose fields hold exactly the tokens that
/// passed their independent checks.
pub open spec fn validate_trade_spec(args: Seq<Seq<char>>, ot: OrderType) -> Option<TradeTokenV> {
    if args.len() != 3 {
        None
    } else {
        Some(TradeTokenV {
            contract: if valid_address(args[0]) {
                Some(args[0])
            } else {
                None
            },
            amount: if is_float_token(args[1]) {
                Some(args[1])
            } else {
                None
            },
            slippage: if is_float_token(args[2]) {
                Some(args[2])
            } else {
                None
            },
            order_type: ot,
        })
    }
}

pub open spec fn opt_trade_view(r: Option<TradeToken>) -> Option<TradeTokenV> {
    match r {
        Some(tt) => Some(tt@),
        None => None,
    }
}

/// Checks the three trade arguments independently: the address shape, and
/// that amount and slippage each read as a signed float (no range bound).
/// Returns `None`, constructing nothing, unless exactly three tokens came.
pub fn validate_tradetoken_args(args: &Vec<String>, order_type: OrderType) -> (r: Option<
    TradeToken,
>)
    ensures
        opt_trade_view(r) == validate_trade_spec(args.deep_view(), order_type),
{
    if args.len() != 3 {
        return None;
    }
    let contract = if is_valid_address(args[0].as_str()) {
        Some(args[0].clone())
    } else {
        None
    };
    let amount = if is_float_str(args[1].as_str()) {
        Some(args[1].clone())
    } else {
        None
    };
    let slippage = if is_float_str(args[2].as_str()) {
        Some(args[2].clone())
    } else {
        None
    };
    proof {
        assert(args.deep_view()[0] == args@[0]@);
        assert(args.deep_view()[1] == args@[1]@);
        assert(args.deep_view()[2] == args@[2]@);
    }
    Some(TradeToken { contract, amount, slippage, order_type })
}

pub open spec fn opt_or_empty(o: Option<Seq<char>>) -> Seq<char> {
    match o {
        Some(s) => s,
        None => Seq::empty(),
    }
}

/// The confirmation summary a complete intent displays as.
pub open spec fn summary_text(tt: TradeTokenV) -> Seq<char> {
    "Contract: "@ + opt_or_empty(tt.contract) + "\nAmount: "@ + opt_or_empty(tt.amount)
        + "\nSlippage: "@ + opt_or_empty(tt.slippage) + "\nOrder type: "@ + spec_keyword(
        tt.order_type,
    )
}

/// Renders the intent summary shown before the confirmation prompt.
pub fn summary(tt: &TradeToken) -> (r: String)
    ensures
        r@ == summary_text(tt@),
{
    let mut s = String::from_str("Contract: ");
    match &tt.contract {
        Some(c) => s.append(c.as_str()),
        None => (),
    }
    s.append("\nAmount: ");
    match &tt.amount {
        Some(a) => s.append(a.as_str()),
        None => (),
    }
    s.append("\nSlippage: ");
    match &tt.slippage {
        Some(p) => s.append(p.as_str()),
        None => (),
    }
    s.append("\nOrder type: ");
    s.append(tt.order_type.keyword());
    proof {
        assert(s@ =~= summary_text(tt@));
    }
    s
}

} // verus!
