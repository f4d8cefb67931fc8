use vstd::prelude::*;

use std::time::{Duration, SystemTime, UNIX_EPOCH};

verus! {

/// Frame tag of an order submission (client to engine).
pub const MSG_ORDER_SUBMIT: u8 = 1;

/// Frame tag of an order cancellation (client to engine).
pub const MSG_ORDER_CANCEL: u8 = 2;

/// Frame tag of a trade broadcast (engine to client).
pub const MSG_TRADE_BROADCAST: u8 = 10;

/// Frame tag of a status broadcast (engine to client).
pub const MSG_STATUS_BROADCAST: u8 = 11;

/// Order side: buy.
pub const ORDER_TYPE_BUY: u8 = 1;

/// Order side: sell.
pub const ORDER_TYPE_SELL: u8 = 2;

/// Price kind: limit.
pub const ORDER_PRICE_TYPE_LIMIT: u8 = 1;

/// Price kind: market.
pub const ORDER_PRICE_TYPE_MARKET: u8 = 2;

/// Every frame on the wire has exactly this many bytes.
pub const MESSAGE_TOTAL_SIZE: usize = 50;

/// An order submission, as carried by a frame tagged `MSG_ORDER_SUBMIT`.
#[derive(Debug, Clone, Copy, PartialEq, Eq, Structural)]
pub struct Order {
    pub product_id: u16,
    pub order_id: u64,
    pub price: u64,
    pub quantity: u32,
    /// Side: `ORDER_TYPE_BUY` or `ORDER_TYPE_SELL`.
    pub order_type: u8,
    /// Price kind: `ORDER_PRICE_TYPE_LIMIT` or `ORDER_PRICE_TYPE_MARKET`.
    pub price_type: u8,
    /// Submission time in nanoseconds since the Unix epoch.
    pub submit_time: u64,
    /// Expiry time in nanoseconds since the Unix epoch; 0 means good-till-cancelled.
    pub expire_time: u64,
}

/// A periodic status broadcast of the engine.
#[derive(Debug, Clone, Copy)]
pub struct BroadcastStats {
    /// Opaque identifier of the engine instance, copied verbatim.
    pub instance_tag: [u8; 8],
    pub product_id: u16,
    pub bids_size: u32,
    pub ask_size: u32,
    pub matched_orders: u32,
    pub total_received_orders: u32,
    /// Engine start time in nanoseconds since the Unix epoch.
    pub start_time: u64,
}

/// A trade broadcast of the engine.
#[derive(Debug, Clone, Copy)]
pub struct MatchResult {
    /// Opaque identifier of the engine instance, copied verbatim.
    pub instance_tag: [u8; 8],
    pub product_id: u16,
    pub buy_order_id: u64,
    pub sell_order_id: u64,
    pub price: u64,
    pub quantity: u32,
    pub trade_network_time: u32,
    pub internal_match_time: u32,
}

#[verifier::external_type_specification]
#[verifier::external_body]
pub struct ExSystemTime(SystemTime);

/// Relies on `SystemTime::now`: the current wall-clock time; nothing is known of it.
#[verifier::external_body]
fn system_now() -> SystemTime {
    SystemTime::now()
}

/// Relies on `SystemTime::duration_since`: the time elapsed since the Unix
/// epoch, or `None` when `t` lies before it.
#[verifier::external_body]
fn elapsed_since_epoch(t: &SystemTime) -> Option<Duration> {
    t.duration_since(UNIX_EPOCH).ok()
}

/// Relies on `Duration::as_nanos`: the whole duration in nanoseconds.
#[verifier::external_body]
fn duration_nanos(d: &Duration) -> u128 {
    d.as_nanos()
}

/// Why the current time could not be read as nanoseconds.
#[derive(Debug, Clone, Copy, PartialEq, Eq, Structural)]
pub enum TimeError {
    /// The system clock is set before the Unix epoch.
    BeforeEpoch,
    /// The count of nanoseconds does not fit in 64 bits.
    TooLarge,
}

/// Narrows an optional count of nanoseconds since the epoch to 64 bits.
pub fn nanos_to_u64(nanos: Option<u128>) -> (r: Result<u64, TimeError>)
    ensures
        r == match nanos {
            None => Err(TimeError::BeforeEpoch),
            Some(n) => if n > u64::MAX {
                Err(TimeError::TooLarge)
            } else {
                Ok(n as u64)
            },
        },
{
    match nanos {
        None => Err(TimeError::BeforeEpoch),
        Some(n) => {
            if n > u64::MAX as u128 {
                Err(TimeError::TooLarge)
            } else {
                Ok(n as u64)
            }
        },
    }
}

/// Nanoseconds since the Unix epoch, read from the system clock. Nothing is
/// promised of the clock itself; what is made of its reading is
/// `nanos_to_u64`'s contract.
pub fn get_nanos_since_epoch() -> Result<u64, TimeError> {
    let now = system_now();
    let nanos = match elapsed_since_epoch(&now) {
        Some(d) => Some(duration_nanos(&d)),
        None => None,
    };
    nanos_to_u64(nanos)
}

} // verus!
