use wire_client::encoding::{
    calculate_checksum, decode_broadcast_message, deserialize_match_result, deserialize_order,
    deserialize_stats_result, serialize_cancel, serialize_order, serialize_stats_result,
    verify_checksum, DecodeError, FormatError,
};
use wire_client::types::{BroadcastStats, Order};

fn sample_order() -> Order {
    Order {
        product_id: 7,
        order_id: 1000,
        price: 50000,
        quantity: 3,
        order_type: 1,
        price_type: 1,
        submit_time: 1_000_000_000,
        expire_time: 0,
    }
}

fn xor_of(bytes: &[u8]) -> u8 {
    bytes.iter().fold(0, |a, &b| a ^ b)
}

fn trade_frame() -> [u8; 50] {
    let mut f = [0u8; 50];
    f[1] = 10;
    f[2..10].copy_from_slice(b"ENGINE01");
    f[10..12].copy_from_slice(&5u16.to_be_bytes());
    f[12..20].copy_from_slice(&111u64.to_be_bytes());
    f[20..28].copy_from_slice(&222u64.to_be_bytes());
    f[28..36].copy_from_slice(&49_990u64.to_be_bytes());
    f[36..40].copy_from_slice(&12u32.to_be_bytes());
    f[40..44].copy_from_slice(&3_000u32.to_be_bytes());
    f[44..48].copy_from_slice(&450u32.to_be_bytes());
    f[0] = xor_of(&f[2..]);
    f
}

fn sample_stats() -> BroadcastStats {
    BroadcastStats {
        instance_tag: *b"ENGINE02",
        product_id: 9,
        bids_size: 4,
        ask_size: 6,
        matched_orders: 100,
        total_received_orders: 250,
        start_time: 1_700_000_000_000_000_000,
    }
}

#[test]
fn order_submit_encode_scenario() {
    let f = serialize_order(&sample_order());
    assert_eq!(f.len(), 50);
    assert_eq!(f[1], 1);
    assert_eq!(u16::from_be_bytes([f[2], f[3]]), 7);
    assert_eq!(u64::from_be_bytes(f[4..12].try_into().unwrap()), 1000);
    assert_eq!(u64::from_be_bytes(f[12..20].try_into().unwrap()), 50000);
    assert_eq!(u32::from_be_bytes(f[20..24].try_into().unwrap()), 3);
    assert_eq!(f[24], 1);
    assert_eq!(f[25], 1);
    assert_eq!(u64::from_be_bytes(f[26..34].try_into().unwrap()), 1_000_000_000);
    assert_eq!(u64::from_be_bytes(f[34..42].try_into().unwrap()), 0);
    assert!(f[42..].iter().all(|&b| b == 0));
    assert_eq!(f[0], xor_of(&f[2..50]));
}

#[test]
fn order_cancel_encode_scenario() {
    let f = serialize_cancel(42);
    assert_eq!(f[1], 2);
    assert_eq!(u64::from_be_bytes(f[2..10].try_into().unwrap()), 42);
    assert!(f[10..50].iter().all(|&b| b == 0));
    assert_eq!(f[0], calculate_checksum(&f));
    assert_eq!(f[0], 42);
}

#[test]
fn order_round_trip() {
    let o = Order {
        product_id: u16::MAX,
        order_id: u64::MAX,
        price: 0x0102_0304_0506_0708,
        quantity: u32::MAX,
        order_type: 2,
        price_type: 2,
        submit_time: 123_456_789,
        expire_time: 987_654_321,
    };
    let f = serialize_order(&o);
    assert!(verify_checksum(&f));
    assert_eq!(deserialize_order(&f).unwrap(), o);
    let g = serialize_order(&sample_order());
    assert_eq!(deserialize_order(&g).unwrap(), sample_order());
}

#[test]
fn stats_round_trip() {
    let st = sample_stats();
    let f = serialize_stats_result(&st);
    assert_eq!(f[1], 11);
    assert!(verify_checksum(&f));
    let back = deserialize_stats_result(&f).unwrap();
    assert_eq!(back.instance_tag, st.instance_tag);
    assert_eq!(back.product_id, 9);
    assert_eq!(back.bids_size, 4);
    assert_eq!(back.ask_size, 6);
    assert_eq!(back.matched_orders, 100);
    assert_eq!(back.total_received_orders, 250);
    assert_eq!(back.start_time, 1_700_000_000_000_000_000);
    assert!(f[36..].iter().all(|&b| b == 0));
}

#[test]
fn checksum_detects_single_bit_flips() {
    let f = serialize_order(&sample_order());
    for i in 2..50 {
        for bit in 0..8 {
            let mut g = f;
            g[i] ^= 1 << bit;
            assert!(!verify_checksum(&g), "byte {} bit {}", i, bit);
        }
    }
    let mut g = f;
    g[1] ^= 0x80;
    assert_eq!(calculate_checksum(&g), calculate_checksum(&f));
    assert!(verify_checksum(&g));
    let mut h = f;
    h[0] ^= 1;
    assert_eq!(calculate_checksum(&h), calculate_checksum(&f));
    assert!(!verify_checksum(&h));
}

#[test]
fn checksum_misses_paired_flips() {
    let f = serialize_cancel(42);
    let mut g = f;
    g[20] ^= 0x04;
    g[30] ^= 0x04;
    assert!(verify_checksum(&g));
}

#[test]
fn verify_checksum_needs_a_whole_frame() {
    assert!(!verify_checksum(&[]));
    assert!(!verify_checksum(&[0u8; 49]));
    assert!(verify_checksum(&[0u8; 50]));
    assert!(!verify_checksum(&[0u8; 51]));
}

#[test]
fn decoders_reject_short_buffers() {
    for len in [0usize, 1, 2, 10, 49] {
        let buf = vec![0u8; len];
        assert!(matches!(
            deserialize_match_result(&buf),
            Err(FormatError::TooShort { expected: 50, actual }) if actual == len
        ));
        assert!(matches!(
            deserialize_stats_result(&buf),
            Err(FormatError::TooShort { expected: 50, actual }) if actual == len
        ));
        assert!(matches!(
            deserialize_order(&buf),
            Err(FormatError::TooShort { expected: 50, actual }) if actual == len
        ));
        assert!(matches!(
            decode_broadcast_message(&buf),
            Err(DecodeError::Format(FormatError::TooShort { expected: 50, actual })) if actual == len
        ));
    }
}

#[test]
fn trade_frame_decodes() {
    let f = trade_frame();
    let m = deserialize_match_result(&f).unwrap();
    assert_eq!(&m.instance_tag, b"ENGINE01");
    assert_eq!(m.product_id, 5);
    assert_eq!(m.buy_order_id, 111);
    assert_eq!(m.sell_order_id, 222);
    assert_eq!(m.price, 49_990);
    assert_eq!(m.quantity, 12);
    assert_eq!(m.trade_network_time, 3_000);
    assert_eq!(m.internal_match_time, 450);
}

#[test]
fn decoding_ignores_a_bad_checksum() {
    let mut f = trade_frame();
    f[0] ^= 0xff;
    assert!(!verify_checksum(&f));
    assert_eq!(deserialize_match_result(&f).unwrap().price, 49_990);
}

#[test]
fn dispatch_renders_trade() {
    let text = decode_broadcast_message(&trade_frame()).unwrap();
    assert_eq!(
        text,
        "🔥 TRADE: Product=5 | Price=49990 | Qty=12 | BuyID=111 | SellId=222| Net=3000ns | Match=450ns"
    );
}

#[test]
fn dispatch_renders_status() {
    let f = serialize_stats_result(&sample_stats());
    let text = decode_broadcast_message(&f).unwrap();
    assert_eq!(text, "📊 STATUS: Product=9 | Bids=4 | Asks=6 | Matched=100 | Received=250");
}

#[test]
fn dispatch_reports_unknown_tags() {
    for tag in [0u8, 1, 2, 3, 9, 12, 99, 255] {
        let mut f = trade_frame();
        f[1] = tag;
        match decode_broadcast_message(&f) {
            Err(DecodeError::UnknownTag { tag: t, bytes }) => {
                assert_eq!(t, tag);
                assert_eq!(bytes, f.to_vec());
            }
            other => panic!("tag {} gave {:?}", tag, other),
        }
    }
}

#[test]
fn decoders_reject_long_buffers() {
    for extra in [1usize, 2, 50] {
        let mut v = trade_frame().to_vec();
        v.extend(std::iter::repeat(7u8).take(extra));
        let len = 50 + extra;
        assert!(matches!(
            deserialize_match_result(&v),
            Err(FormatError::TooLong { expected: 50, actual }) if actual == len
        ));
        assert!(matches!(
            deserialize_stats_result(&v),
            Err(FormatError::TooLong { expected: 50, actual }) if actual == len
        ));
        assert!(matches!(
            deserialize_order(&v),
            Err(FormatError::TooLong { expected: 50, actual }) if actual == len
        ));
        assert!(matches!(
            decode_broadcast_message(&v),
            Err(DecodeError::Format(FormatError::TooLong { expected: 50, actual })) if actual == len
        ));
    }
}
