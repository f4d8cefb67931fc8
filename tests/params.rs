use wire_client::params::{
    parse_order_type, parse_price_type, prepare_order, price_kind_code, side_code, CancelArgs,
    ParamError, SubmitArgs, SubmitError,
};
use wire_client::encoding::{deserialize_order, serialize_cancel, serialize_order};
use wire_client::types::{get_nanos_since_epoch, nanos_to_u64, TimeError};

fn args(expire: u64) -> SubmitArgs {
    SubmitArgs { product_id: 7, price: 50000, quantity: 3, order_type: 1, price_type: 1, expire }
}

#[test]
fn order_type_words() {
    assert_eq!(parse_order_type("buy").unwrap(), 1);
    assert_eq!(parse_order_type("SELL").unwrap(), 2);
    assert_eq!(parse_order_type("Buy").unwrap(), 1);
    assert_eq!(side_code("buy"), Some(1));
    assert_eq!(side_code("BUY"), None);
    match parse_order_type("hold") {
        Err(e) => {
            assert!(matches!(&e, ParamError::InvalidOrderType { input } if input == "hold"));
            assert_eq!(e.message(), "Invalid order type: hold. Must be 'buy' or 'sell'");
        }
        Ok(c) => panic!("accepted {}", c),
    }
}

#[test]
fn price_type_words() {
    assert_eq!(parse_price_type("limit").unwrap(), 1);
    assert_eq!(parse_price_type("MARKET").unwrap(), 2);
    assert_eq!(price_kind_code("market"), Some(2));
    assert_eq!(price_kind_code("Market"), None);
    match parse_price_type("stop") {
        Err(e) => {
            assert!(matches!(&e, ParamError::InvalidPriceType { input } if input == "stop"));
            assert_eq!(e.message(), "Invalid price type: stop. Must be 'limit' or 'market'");
        }
        Ok(c) => panic!("accepted {}", c),
    }
}

#[test]
fn order_without_expiry() {
    let o = prepare_order(&args(0), 1_000_000_000).unwrap();
    assert_eq!(o.order_id, 1_000_000_000);
    assert_eq!(o.submit_time, 1_000_000_000);
    assert_eq!(o.expire_time, 0);
    assert_eq!(o.product_id, 7);
    assert_eq!(o.price, 50000);
    assert_eq!(o.quantity, 3);
    let f = serialize_order(&o);
    assert_eq!(deserialize_order(&f).unwrap(), o);
}

#[test]
fn order_with_expiry() {
    let o = prepare_order(&args(30), 1_000_000_000).unwrap();
    assert_eq!(o.expire_time, 31_000_000_000);
}

#[test]
fn order_expiry_overflows() {
    assert_eq!(prepare_order(&args(u64::MAX / 1_000_000_000 + 1), 0), Err(SubmitError::DurationOverflow));
    assert_eq!(prepare_order(&args(1), u64::MAX - 999_999_999), Err(SubmitError::TimeOverflow));
    assert_eq!(
        prepare_order(&args(1), u64::MAX - 1_000_000_000).unwrap().expire_time,
        u64::MAX
    );
}

#[test]
fn cancel_frame_from_args() {
    let a = CancelArgs { order_id: 0x0102_0304_0506_0708 };
    let f = serialize_cancel(a.order_id);
    assert_eq!(&f[2..10], &[1, 2, 3, 4, 5, 6, 7, 8]);
    assert_eq!(f[0], 1 ^ 2 ^ 3 ^ 4 ^ 5 ^ 6 ^ 7 ^ 8);
}

#[test]
fn nanos_narrowing() {
    assert_eq!(nanos_to_u64(None), Err(TimeError::BeforeEpoch));
    assert_eq!(nanos_to_u64(Some(5)), Ok(5));
    assert_eq!(nanos_to_u64(Some(u64::MAX as u128)), Ok(u64::MAX));
    assert_eq!(nanos_to_u64(Some(u64::MAX as u128 + 1)), Err(TimeError::TooLarge));
}

#[test]
fn clock_reads_after_epoch() {
    let n = get_nanos_since_epoch().unwrap();
    assert!(n > 1_500_000_000_000_000_000);
}
