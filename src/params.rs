use vstd::prelude::*;

use crate::types::{
    Order, ORDER_PRICE_TYPE_LIMIT, ORDER_PRICE_TYPE_MARKET, ORDER_TYPE_BUY, ORDER_TYPE_SELL,
};

verus! {

/// Command-line arguments of the client.
#[derive(Debug, Clone)]
pub struct Args {
    /// Multicast group (`IP:port`) that orders and cancellations are sent to.
    pub trade_addr: String,
    /// Multicast group (`IP:port`) that trade and status broadcasts arrive on.
    pub result_addr: String,
    pub command: Command,
}

/// The request that the client sends.
#[derive(Debug, Clone)]
pub enum Command {
    /// Submit a new order.
    Submit(SubmitArgs),
    /// Cancel an order.
    Cancel(CancelArgs),
}

/// Arguments of an order submission.
#[derive(Debug, Clone, Copy, PartialEq, Eq, Structural)]
pub struct SubmitArgs {
    pub product_id: u16,
    pub price: u64,
    pub quantity: u32,
    /// Side: `ORDER_TYPE_BUY` or `ORDER_TYPE_SELL`.
    pub order_type: u8,
    /// Price kind: `ORDER_PRICE_TYPE_LIMIT` or `ORDER_PRICE_TYPE_MARKET`.
    pub price_type: u8,
    /// Lifetime of the order in whole seconds; 0 means it never expires.
    pub expire: u64,
}

/// Arguments of an order cancellation.
#[derive(Debug, Clone, Copy, PartialEq, Eq, Structural)]
pub struct CancelArgs {
    pub order_id: u64,
}

pub uninterp spec fn lower_of(s: Seq<char>) -> Seq<char>;

/// Relies on `str::to_lowercase`: the result depends on the characters alone.
#[verifier::external_body]
fn lowercase(s: &str) -> (r: String)
    ensures
        r@ == lower_of(s@),
{
    s.to_lowercase()
}

/// Why a command-line value was refused.
#[derive(Debug, Clone)]
pub enum ParamError {
    InvalidOrderType { input: String },
    InvalidPriceType { input: String },
}

impl ParamError {
    /// The text shown to the user for this error.
    pub fn message(&self) -> (r: String)
        ensures
            r@ == match *self {
                ParamError::InvalidOrderType { input } => "Invalid order type: "@ + input@
                    + ". Must be 'buy' or 'sell'"@,
                ParamError::InvalidPriceType { input } => "Invalid price type: "@ + input@
                    + ". Must be 'limit' or 'market'"@,
            },
    {
        match self {
            ParamError::InvalidOrderType { input } => {
                let mut t = String::from_str("Invalid order type: ");
                t.append(input.as_str());
                t.append(". Must be 'buy' or 'sell'");
                t
            },
            ParamError::InvalidPriceType { input } => {
                let mut t = String::from_str("Invalid price type: ");
                t.append(input.as_str());
                t.append(". Must be 'limit' or 'market'");
                t
            },
        }
    }
}

/// The side code named by the lower-case word `t`.
pub open spec fn side_of(t: Seq<char>) -> Option<u8> {
    if t == "buy"@ {
        Some(ORDER_TYPE_BUY)
    } else if t == "sell"@ {
        Some(ORDER_TYPE_SELL)
    } else {
        None
    }
}

/// The price-kind code named by the lower-case word `t`.
pub open spec fn price_kind_of(t: Seq<char>) -> Option<u8> {
    if t == "limit"@ {
        Some(ORDER_PRICE_TYPE_LIMIT)
    } else if t == "market"@ {
        Some(ORDER_PRICE_TYPE_MARKET)
    } else {
        None
    }
}

fn same_text(a: &str, b: &str) -> (r: bool)
    ensures
        r == (a@ == b@),
{
    String::from_str(a) == String::from_str(b)
}

/// The side code of a word already in lower case: "buy" or "sell".
pub fn side_code(t: &str) -> (r: Option<u8>)
    ensures
        r == side_of(t@),
{
    if same_text(t, "buy") {
        Some(ORDER_TYPE_BUY)
    } else if same_text(t, "sell") {
        Some(ORDER_TYPE_SELL)
    } else {
        None
    }
}

/// The price-kind code of a word already in lower case: "limit" or "market".
pub fn price_kind_code(t: &str) -> (r: Option<u8>)
    ensures
        r == price_kind_of(t@),
{
    if same_text(t, "limit") {
        Some(ORDER_PRICE_TYPE_LIMIT)
    } else if same_text(t, "market") {
        Some(ORDER_PRICE_TYPE_MARKET)
    } else {
        None
    }
}

/// Reads an order side, in any case: "buy" or "sell".
pub fn parse_order_type(s: &str) -> (r: Result<u8, ParamError>)
    ensures
        side_of(lower_of(s@)) matches Some(c) ==> r == Ok::<u8, ParamError>(c),
        side_of(lower_of(s@)) is None ==> (r matches Err(ParamError::InvalidOrderType { input })
            && input@ == s@),
{
    let lowered = lowercase(s);
    match side_code(lowered.as_str()) {
        Some(c) => Ok(c),
        None => Err(ParamError::InvalidOrderType { input: s.to_owned() }),
    }
}

/// Reads a price kind, in any case: "limit" or "market".
pub fn parse_price_type(s: &str) -> (r: Result<u8, ParamError>)
    ensures
        price_kind_of(lower_of(s@)) matches Some(c) ==> r == Ok::<u8, ParamError>(c),
        price_kind_of(lower_of(s@)) is None ==> (r matches Err(
            ParamError::InvalidPriceType { input },
        ) && input@ == s@),
{
    let lowered = lowercase(s);
    match price_kind_code(lowered.as_str()) {
        Some(c) => Ok(c),
        None => Err(ParamError::InvalidPriceType { input: s.to_owned() }),
    }
}

/// Nanoseconds in a second.
pub const NANOS_PER_SECOND: u64 = 1_000_000_000;

/// Why an order submission could not be built.
#[derive(Debug, Clone, Copy, PartialEq, Eq, Structural)]
pub enum SubmitError {
    /// The lifetime in nanoseconds does not fit in 64 bits.
    DurationOverflow,
    /// The expiry time in nanoseconds does not fit in 64 bits.
    TimeOverflow,
}

/// The order that a submission with `args` made at `submit_time` carries.
pub open spec fn order_request(args: SubmitArgs, submit_time: u64) -> Result<Order, SubmitError> {
    let base = Order {
        product_id: args.product_id,
        order_id: submit_time,
        price: args.price,
        quantity: args.quantity,
        order_type: args.order_type,
        price_type: args.price_type,
        submit_time,
        expire_time: 0,
    };
    let life = args.expire * NANOS_PER_SECOND;
    if args.expire == 0 {
        Ok(base)
    } else if life > u64::MAX {
        Err(SubmitError::DurationOverflow)
    } else if submit_time + life > u64::MAX {
        Err(SubmitError::TimeOverflow)
    } else {
        Ok(Order { expire_time: (submit_time + life) as u64, ..base })
    }
}

/// Builds the order of a submission made at `submit_time` (nanoseconds since
/// the Unix epoch, also used as the order's id); a non-zero lifetime is added
/// to it to give the expiry time.
pub fn prepare_order(args: &SubmitArgs, submit_time: u64) -> (r: Result<Order, SubmitError>)
    ensures
        r == order_request(*args, submit_time),
{
    let expire_time: u64 = if args.expire > 0 {
        let life = match args.expire.checked_mul(NANOS_PER_SECOND) {
            Some(n) => n,
            None => return Err(SubmitError::DurationOverflow),
        };
        match submit_time.checked_add(life) {
            Some(t) => t,
            None => return Err(SubmitError::TimeOverflow),
        }
    } else {
        0
    };
    Ok(Order {
        product_id: args.product_id,
        order_id: submit_time,
        price: args.price,
        quantity: args.quantity,
        order_type: args.order_type,
        price_type: args.price_type,
        submit_time,
        expire_time,
    })
}

} // verus!
