//! Building broker orders and interpreting broker replies.
//!
//! The HTTP round-trip itself lives outside the library; here stand the
//! decisions around it: how an order is assembled from a plan, the sentinel
//! endpoint that short-circuits to a synthetic success, and the retcode
//! contract (only `10009` means the broker completed the request).

use vstd::prelude::*;

use crate::digits::{spec_udec, u64_to_string};
use crate::error::{AppError, AppErrorView};
use crate::models::Direction;

verus! {

/// The magic number stamped on every order for broker-side identification.
pub const MT5_MAGIC: u64 = 420001;

/// The broker's "request completed" retcode; every other value is a
/// failure.
pub const MT5_RETCODE_DONE: u32 = 10009;

/// Ticket returned by the sentinel `"mock"` endpoint.
pub const MOCK_TICKET: u64 = 999999;

/// Mathematical content of an [`Mt5OrderRequest`].
pub ghost struct OrderView {
    pub symbol: Seq<char>,
    pub action: Seq<char>,
    pub volume: int,
    pub price: int,
    pub sl: int,
    pub tp: int,
    pub comment: Seq<char>,
    pub magic: u64,
}

/// The payload posted to the broker's order endpoint.
#[derive(Debug)]
pub struct Mt5OrderRequest {
    pub symbol: String,
    /// `"BUY"` or `"SELL"`.
    pub action: &'static str,
    /// Lot size, in lot units.
    pub volume: i64,
    pub price: i64,
    pub sl: i64,
    pub tp: i64,
    /// A tag carrying a short prefix of the plan id.
    pub comment: String,
    pub magic: u64,
}

impl View for Mt5OrderRequest {
    type V = OrderView;

    open spec fn view(&self) -> OrderView {
        OrderView {
            symbol: self.symbol@,
            action: self.action@,
            volume: self.volume as int,
            price: self.price as int,
            sl: self.sl as int,
            tp: self.tp as int,
            comment: self.comment@,
            magic: self.magic,
        }
    }
}

/// Mathematical content of an [`Mt5OrderResponse`].
pub ghost struct OrderResponseView {
    pub retcode: u32,
    pub order: Option<u64>,
    pub comment: Option<Seq<char>>,
}

/// The broker's reply to an order.
#[derive(Debug)]
pub struct Mt5OrderResponse {
    /// Broker return code; `10009` means success.
    pub retcode: u32,
    /// Broker ticket / order id, present on success.
    pub order: Option<u64>,
    /// Explanatory comment from the broker.
    pub comment: Option<String>,
}

impl View for Mt5OrderResponse {
    type V = OrderResponseView;

    open spec fn view(&self) -> OrderResponseView {
        OrderResponseView {
            retcode: self.retcode,
            order: self.order,
            comment: match &self.comment {
                Some(s) => Some(s@),
                None => None,
            },
        }
    }
}

impl Clone for Mt5OrderResponse {
    fn clone(&self) -> (r: Self)
        ensures
            r@ == self@,
    {
        Mt5OrderResponse {
            retcode: self.retcode,
            order: self.order,
            comment: match &self.comment {
                Some(s) => Some(s.clone()),
                None => None,
            },
        }
    }
}

/// The comment an order carries: a fixed tag plus up to the first eight
/// characters of the plan id.
pub open spec fn spec_order_comment(strategy_id: Seq<char>) -> Seq<char> {
    "AGV-"@ + strategy_id.take(if strategy_id.len() < 8 {
        strategy_id.len() as int
    } else {
        8
    })
}

/// Assembles the broker order for a plan about to fire. A plan with no
/// direction cannot become an order and is refused.
pub fn build_order(
    symbol: &str,
    direction: Direction,
    entry_price: i64,
    sl: i64,
    tp: i64,
    lot_size: i64,
    strategy_id: &str,
) -> (r: Result<Mt5OrderRequest, AppError>)
    ensures
        direction is NoTrade ==> (r matches Err(e) && e@ == AppErrorView::BadRequest(
            "Cannot build order for NoTrade direction"@,
        )),
        !(direction is NoTrade) ==> (r matches Ok(o) && o@ == OrderView {
            symbol: symbol@,
            action: if direction is Buy {
                "BUY"@
            } else {
                "SELL"@
            },
            volume: lot_size as int,
            price: entry_price as int,
            sl: sl as int,
            tp: tp as int,
            comment: spec_order_comment(strategy_id@),
            magic: MT5_MAGIC,
        }),
{
    let action: &'static str = match direction {
        Direction::Buy => "BUY",
        Direction::Sell => "SELL",
        Direction::NoTrade => {
            return Err(
                AppError::BadRequest(String::from_str("Cannot build order for NoTrade direction")),
            );
        },
    };

    let id_len = strategy_id.unicode_len();
    let prefix_end = if id_len < 8 {
        id_len
    } else {
        8
    };
    let comment = String::from_str("AGV-").concat(strategy_id.substring_char(0, prefix_end));
    proof {
        assert(strategy_id@.subrange(0, prefix_end as int) =~= strategy_id@.take(
            if strategy_id@.len() < 8 {
                strategy_id@.len() as int
            } else {
                8
            },
        ));
    }

    Ok(
        Mt5OrderRequest {
            symbol: symbol.to_owned(),
            action,
            volume: lot_size,
            price: entry_price,
            sl,
            tp,
            comment,
            magic: 420001,
        },
    )
}

/// Whether the configured broker endpoint is the test sentinel.
pub fn is_mock_endpoint(base_url: &str) -> (r: bool)
    ensures
        r == (base_url@ == "mock"@),
{
    let x = base_url.to_owned();
    let y = String::from_str("mock");
    x == y
}

/// The synthetic success the sentinel endpoint yields, so end-to-end tests
/// run without a live broker.
pub fn mock_response() -> (r: Mt5OrderResponse)
    ensures
        r@.retcode == MT5_RETCODE_DONE,
        r@.order == Some(MOCK_TICKET),
        r@.comment == Some("Mock Order"@),
{
    Mt5OrderResponse {
        retcode: 10009,
        order: Some(999999),
        comment: Some(String::from_str("Mock Order")),
    }
}

/// The rejection message for a non-success retcode.
pub open spec fn spec_rejected_message(retcode: u32, comment: Option<Seq<char>>) -> Seq<char> {
    "MT5 rejected: retcode="@ + spec_udec(retcode as int) + " comment="@ + match comment {
        Some(c) => c,
        None => "unknown"@,
    }
}

/// The URL an order is posted to, under the configured broker base.
pub fn order_send_url(base_url: &str) -> (r: String)
    ensures
        r@ == base_url@ + "/order/send"@,
{
    base_url.to_owned().concat("/order/send")
}

/// Applies the retcode contract to a broker reply: `10009` passes the reply
/// through, anything else becomes an execution error carrying the retcode
/// and the broker's comment.
pub fn interpret_response(resp: Mt5OrderResponse) -> (r: Result<Mt5OrderResponse, AppError>)
    ensures
        resp@.retcode == MT5_RETCODE_DONE ==> (r matches Ok(o) && o@ == resp@),
        resp@.retcode != MT5_RETCODE_DONE ==> (r matches Err(e) && e@
            == AppErrorView::ExecutionError(
            spec_rejected_message(resp@.retcode, resp@.comment),
        )),
{
    if resp.retcode != 10009 {
        let comment: &str = match &resp.comment {
            Some(c) => c.as_str(),
            None => "unknown",
        };
        let msg = String::from_str("MT5 rejected: retcode=")
            .concat(u64_to_string(resp.retcode as u64).as_str())
            .concat(" comment=")
            .concat(comment);
        return Err(AppError::ExecutionError(msg));
    }
    Ok(resp)
}

} // verus!
