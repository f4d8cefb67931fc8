use vstd::prelude::*;

use crate::types::{
    BroadcastStats, MatchResult, Order, MESSAGE_TOTAL_SIZE, MSG_ORDER_CANCEL, MSG_ORDER_SUBMIT,
    MSG_STATUS_BROADCAST, MSG_TRADE_BROADCAST,
};

verus! {

/// Offset of the payload: byte 0 holds the checksum, byte 1 the tag.
pub const PAYLOAD_START: usize = 2;

/// Length of the payload region of a frame.
pub const PAYLOAD_SIZE: usize = 48;

// ---------------------------------------------------------------------
// Big-endian integers
// ---------------------------------------------------------------------

pub open spec fn be16(x: u16) -> Seq<u8> {
    seq![(x >> 8u16) as u8, x as u8]
}

pub open spec fn be32(x: u32) -> Seq<u8> {
    seq![(x >> 24u32) as u8, (x >> 16u32) as u8, (x >> 8u32) as u8, x as u8]
}

pub open spec fn be64(x: u64) -> Seq<u8> {
    seq![
        (x >> 56u64) as u8,
        (x >> 48u64) as u8,
        (x >> 40u64) as u8,
        (x >> 32u64) as u8,
        (x >> 24u64) as u8,
        (x >> 16u64) as u8,
        (x >> 8u64) as u8,
        x as u8,
    ]
}

/// The `u16` whose big-endian bytes are `s[0..2]`.
pub open spec fn from_be16(s: Seq<u8>) -> u16 {
    ((s[0] as u16) << 8u16) | (s[1] as u16)
}

/// The `u32` whose big-endian bytes are `s[0..4]`.
pub open spec fn from_be32(s: Seq<u8>) -> u32 {
    ((s[0] as u32) << 24u32) | ((s[1] as u32) << 16u32) | ((s[2] as u32) << 8u32) | (s[3] as u32)
}

/// The `u64` whose big-endian bytes are `s[0..8]`.
pub open spec fn from_be64(s: Seq<u8>) -> u64 {
    ((s[0] as u64) << 56u64) | ((s[1] as u64) << 48u64) | ((s[2] as u64) << 40u64) | ((s[3] as u64)
        << 32u64) | ((s[4] as u64) << 24u64) | ((s[5] as u64) << 16u64) | ((s[6] as u64) << 8u64)
        | (s[7] as u64)
}

pub proof fn lemma_be16_round_trip(x: u16)
    ensures
        from_be16(be16(x)) == x,
{
    let (a, b) = ((x >> 8u16) as u8, x as u8);
    assert((((a as u16) << 8u16) | (b as u16)) == x) by (bit_vector)
        requires
            a == (x >> 8u16) as u8,
            b == x as u8,
    ;
}

pub proof fn lemma_be32_round_trip(x: u32)
    ensures
        from_be32(be32(x)) == x,
{
    let (a, b, c, d) = ((x >> 24u32) as u8, (x >> 16u32) as u8, (x >> 8u32) as u8, x as u8);
    assert((((a as u32) << 24u32) | ((b as u32) << 16u32) | ((c as u32) << 8u32) | (d as u32))
        == x) by (bit_vector)
        requires
            a == (x >> 24u32) as u8,
            b == (x >> 16u32) as u8,
            c == (x >> 8u32) as u8,
            d == x as u8,
    ;
}

pub proof fn lemma_be64_round_trip(x: u64)
    ensures
        from_be64(be64(x)) == x,
{
    let s = be64(x);
    let (b0, b1, b2, b3) = (s[0], s[1], s[2], s[3]);
    let (b4, b5, b6, b7) = (s[4], s[5], s[6], s[7]);
    assert((((b0 as u64) << 56u64) | ((b1 as u64) << 48u64) | ((b2 as u64) << 40u64) | ((b3 as u64)
        << 32u64) | ((b4 as u64) << 24u64) | ((b5 as u64) << 16u64) | ((b6 as u64) << 8u64) | (
    b7 as u64)) == x) by (bit_vector)
        requires
            b0 == (x >> 56u64) as u8,
            b1 == (x >> 48u64) as u8,
            b2 == (x >> 40u64) as u8,
            b3 == (x >> 32u64) as u8,
            b4 == (x >> 24u64) as u8,
            b5 == (x >> 16u64) as u8,
            b6 == (x >> 8u64) as u8,
            b7 == x as u8,
    ;
}

fn read_u16_be(buf: &[u8], off: usize) -> (r: u16)
    requires
        off + 2 <= buf@.len(),
    ensures
        r == from_be16(buf@.subrange(off as int, off + 2)),
{
    ((buf[off] as u16) << 8u16) | (buf[off + 1] as u16)
}

fn read_u32_be(buf: &[u8], off: usize) -> (r: u32)
    requires
        off + 4 <= buf@.len(),
    ensures
        r == from_be32(buf@.subrange(off as int, off + 4)),
{
    ((buf[off] as u32) << 24u32) | ((buf[off + 1] as u32) << 16u32) | ((buf[off + 2] as u32)
        << 8u32) | (buf[off + 3] as u32)
}

fn read_u64_be(buf: &[u8], off: usize) -> (r: u64)
    requires
        off + 8 <= buf@.len(),
    ensures
        r == from_be64(buf@.subrange(off as int, off + 8)),
{
    ((buf[off] as u64) << 56u64) | ((buf[off + 1] as u64) << 48u64) | ((buf[off + 2] as u64)
        << 40u64) | ((buf[off + 3] as u64) << 32u64) | ((buf[off + 4] as u64) << 24u64) | ((buf[off
        + 5] as u64) << 16u64) | ((buf[off + 6] as u64) << 8u64) | (buf[off + 7] as u64)
}

fn push_u16_be(v: &mut Vec<u8>, x: u16)
    ensures
        final(v)@ == old(v)@ + be16(x),
{
    v.push((x >> 8u16) as u8);
    v.push(x as u8);
    assert(final(v)@ =~= old(v)@ + be16(x));
}


fn push_u32_be(v: &mut Vec<u8>, x: u32)
    ensures
        final(v)@ == old(v)@ + be32(x),
{
    v.push((x >> 24u32) as u8);
    v.push((x >> 16u32) as u8);
    v.push((x >> 8u32) as u8);
    v.push(x as u8);
    assert(v@ =~= old(v)@ + be32(x));
}

fn push_u64_be(v: &mut Vec<u8>, x: u64)
    ensures
        final(v)@ == old(v)@ + be64(x),
{
    v.push((x >> 56u64) as u8);
    v.push((x >> 48u64) as u8);
    v.push((x >> 40u64) as u8);
    v.push((x >> 32u64) as u8);
    v.push((x >> 24u64) as u8);
    v.push((x >> 16u64) as u8);
    v.push((x >> 8u64) as u8);
    v.push(x as u8);
    assert(v@ =~= old(v)@ + be64(x));
}

pub open spec fn zeros(n: nat) -> Seq<u8> {
    Seq::new(n, |i: int| 0u8)
}

fn push_zeros(v: &mut Vec<u8>, n: usize)
    ensures
        final(v)@ == old(v)@ + zeros(n as nat),
{
    let mut k: usize = 0;
    while k < n
        invariant
            k <= n,
            v@ == old(v)@ + zeros(k as nat),
        decreases n - k,
    {
        v.push(0u8);
        k = k + 1;
        assert(v@ =~= old(v)@ + zeros(k as nat));
    }
}

// ---------------------------------------------------------------------
// Checksum and frame shape
// ---------------------------------------------------------------------

/// XOR of all the bytes of `s`, folded from the left starting at 0.
pub open spec fn xor_fold(s: Seq<u8>) -> u8
    decreases s.len(),
{
    if s.len() == 0 {
        0u8
    } else {
        xor_fold(s.drop_last()) ^ s.last()
    }
}

/// The frame with the given tag and payload, its checksum computed over the payload.
pub open spec fn frame(tag: u8, payload: Seq<u8>) -> Seq<u8> {
    seq![xor_fold(payload), tag] + payload
}

/// A frame is valid when it has the fixed size and byte 0 is the XOR of bytes 2 to 50.
pub open spec fn checksum_valid(s: Seq<u8>) -> bool {
    s.len() == MESSAGE_TOTAL_SIZE && s[0] == xor_fold(s.subrange(2, MESSAGE_TOTAL_SIZE as int))
}

/// XOR of every byte from index 2 to the end of `buf`.
pub fn calculate_checksum(buf: &[u8]) -> (r: u8)
    requires
        buf@.len() >= 2,
    ensures
        r == xor_fold(buf@.subrange(2, buf@.len() as int)),
{
    let mut acc: u8 = 0;
    let mut i: usize = PAYLOAD_START;
    assert(buf@.subrange(2, 2) =~= Seq::<u8>::empty());
    while i < buf.len()
        invariant
            2 <= i <= buf@.len(),
            acc == xor_fold(buf@.subrange(2, i as int)),
        decreases buf@.len() - i,
    {
        assert(buf@.subrange(2, i + 1).drop_last() =~= buf@.subrange(2, i as int));
        acc = acc ^ buf[i];
        i = i + 1;
    }
    acc
}

/// Whether `buf` is a whole frame whose checksum byte matches its payload.
pub fn verify_checksum(buf: &[u8]) -> (r: bool)
    ensures
        r == checksum_valid(buf@),
{
    if buf.len() != MESSAGE_TOTAL_SIZE {
        return false;
    }
    calculate_checksum(buf) == buf[0]
}

/// Lays out a frame: checksum, tag, then the 48-byte payload.
fn seal_frame(tag: u8, payload: &Vec<u8>) -> (r: [u8; MESSAGE_TOTAL_SIZE])
    requires
        payload@.len() == PAYLOAD_SIZE,
    ensures
        r@ == frame(tag, payload@),
{
    let mut buf = [0u8; MESSAGE_TOTAL_SIZE];
    buf[1] = tag;
    let mut i: usize = 0;
    while i < PAYLOAD_SIZE
        invariant
            i <= PAYLOAD_SIZE,
            payload@.len() == PAYLOAD_SIZE,
            buf@.len() == MESSAGE_TOTAL_SIZE,
            buf@[1] == tag,
            forall|k: int| 0 <= k < i ==> buf@[k + 2] == payload@[k],
        decreases PAYLOAD_SIZE - i,
    {
        buf[i + 2] = payload[i];
        i = i + 1;
    }
    assert(buf@.subrange(2, 50) =~= payload@);
    let cs = calculate_checksum(buf.as_slice());
    buf[0] = cs;
    assert(buf@ =~= frame(tag, payload@));
    buf
}

// ---------------------------------------------------------------------
// Order submission and cancellation
// ---------------------------------------------------------------------

/// The payload of an order submission frame.
pub open spec fn order_payload(o: Order) -> Seq<u8> {
    be16(o.product_id) + be64(o.order_id) + be64(o.price) + be32(o.quantity) + seq![
        o.order_type,
        o.price_type,
    ] + be64(o.submit_time) + be64(o.expire_time) + zeros(8)
}

/// The payload of an order cancellation frame.
pub open spec fn cancel_payload(order_id: u64) -> Seq<u8> {
    be64(order_id) + zeros(40)
}

/// Encodes an order submission frame.
pub fn serialize_order(order: &Order) -> (r: [u8; MESSAGE_TOTAL_SIZE])
    ensures
        r@ == frame(MSG_ORDER_SUBMIT, order_payload(*order)),
{
    let mut p: Vec<u8> = Vec::new();
    push_u16_be(&mut p, order.product_id);
    push_u64_be(&mut p, order.order_id);
    push_u64_be(&mut p, order.price);
    push_u32_be(&mut p, order.quantity);
    p.push(order.order_type);
    p.push(order.price_type);
    push_u64_be(&mut p, order.submit_time);
    push_u64_be(&mut p, order.expire_time);
    push_zeros(&mut p, 8);
    assert(p@ =~= order_payload(*order));
    seal_frame(MSG_ORDER_SUBMIT, &p)
}

/// Encodes an order cancellation frame.
pub fn serialize_cancel(order_id: u64) -> (r: [u8; MESSAGE_TOTAL_SIZE])
    ensures
        r@ == frame(MSG_ORDER_CANCEL, cancel_payload(order_id)),
{
    let mut p: Vec<u8> = Vec::new();
    push_u64_be(&mut p, order_id);
    push_zeros(&mut p, 40);
    assert(p@ =~= cancel_payload(order_id));
    seal_frame(MSG_ORDER_CANCEL, &p)
}

// ---------------------------------------------------------------------
// Decoding
// ---------------------------------------------------------------------

/// Why a buffer could not be read as a frame.
#[derive(Debug, Clone, Copy, PartialEq, Eq, Structural)]
pub enum FormatError {
    /// The buffer holds fewer bytes than a frame.
    TooShort { expected: usize, actual: usize },
    /// The buffer holds more bytes than a frame.
    TooLong { expected: usize, actual: usize },
}

/// The order that an order submission frame `s` carries.
pub open spec fn order_of(s: Seq<u8>) -> Order {
    Order {
        product_id: from_be16(s.subrange(2, 4)),
        order_id: from_be64(s.subrange(4, 12)),
        price: from_be64(s.subrange(12, 20)),
        quantity: from_be32(s.subrange(20, 24)),
        order_type: s[24],
        price_type: s[25],
        submit_time: from_be64(s.subrange(26, 34)),
        expire_time: from_be64(s.subrange(34, 42)),
    }
}

/// `m` holds the fields of the trade broadcast frame `s`.
pub open spec fn trade_fields(m: MatchResult, s: Seq<u8>) -> bool {
    &&& m.instance_tag@ == s.subrange(2, 10)
    &&& m.product_id == from_be16(s.subrange(10, 12))
    &&& m.buy_order_id == from_be64(s.subrange(12, 20))
    &&& m.sell_order_id == from_be64(s.subrange(20, 28))
    &&& m.price == from_be64(s.subrange(28, 36))
    &&& m.quantity == from_be32(s.subrange(36, 40))
    &&& m.trade_network_time == from_be32(s.subrange(40, 44))
    &&& m.internal_match_time == from_be32(s.subrange(44, 48))
}

/// `st` holds the fields of the status broadcast frame `s`.
pub open spec fn stats_fields(st: BroadcastStats, s: Seq<u8>) -> bool {
    &&& st.instance_tag@ == s.subrange(2, 10)
    &&& st.product_id == from_be16(s.subrange(10, 12))
    &&& st.bids_size == from_be32(s.subrange(12, 16))
    &&& st.ask_size == from_be32(s.subrange(16, 20))
    &&& st.matched_orders == from_be32(s.subrange(20, 24))
    &&& st.total_received_orders == from_be32(s.subrange(24, 28))
    &&& st.start_time == from_be64(s.subrange(28, 36))
}

/// The error for a buffer of `len` bytes, which is not a frame's size.
pub open spec fn length_error(len: int) -> FormatError {
    if len < MESSAGE_TOTAL_SIZE {
        FormatError::TooShort { expected: MESSAGE_TOTAL_SIZE, actual: len as usize }
    } else {
        FormatError::TooLong { expected: MESSAGE_TOTAL_SIZE, actual: len as usize }
    }
}

/// Accepts a buffer of exactly one frame's size.
fn check_length(buf: &[u8]) -> (r: Result<(), FormatError>)
    ensures
        buf@.len() == MESSAGE_TOTAL_SIZE ==> r is Ok,
        buf@.len() != MESSAGE_TOTAL_SIZE ==> r == Err::<(), FormatError>(length_error(buf@.len() as int)),
{
    if buf.len() < MESSAGE_TOTAL_SIZE {
        Err(FormatError::TooShort { expected: MESSAGE_TOTAL_SIZE, actual: buf.len() })
    } else if buf.len() > MESSAGE_TOTAL_SIZE {
        Err(FormatError::TooLong { expected: MESSAGE_TOTAL_SIZE, actual: buf.len() })
    } else {
        Ok(())
    }
}

fn read_instance_tag(buf: &[u8]) -> (r: [u8; 8])
    requires
        buf@.len() >= MESSAGE_TOTAL_SIZE,
    ensures
        r@ == buf@.subrange(2, 10),
{
    let mut tag = [0u8; 8];
    let mut i: usize = 0;
    while i < 8
        invariant
            i <= 8,
            buf@.len() >= MESSAGE_TOTAL_SIZE,
            tag@.len() == 8,
            forall|k: int| 0 <= k < i ==> tag@[k] == buf@[k + 2],
        decreases 8 - i,
    {
        tag[i] = buf[PAYLOAD_START + i];
        i = i + 1;
    }
    assert(tag@ =~= buf@.subrange(2, 10));
    tag
}

/// Decodes the order of an order submission frame; the checksum is not checked.
pub fn deserialize_order(buf: &[u8]) -> (r: Result<Order, FormatError>)
    ensures
        buf@.len() != MESSAGE_TOTAL_SIZE <==> r is Err,
        buf@.len() != MESSAGE_TOTAL_SIZE ==> r == Err::<Order, FormatError>(
            length_error(buf@.len() as int),
        ),
        r matches Ok(o) ==> o == order_of(buf@),
{
    if let Err(e) = check_length(buf) {
        return Err(e);
    }
    Ok(Order {
        product_id: read_u16_be(buf, 2),
        order_id: read_u64_be(buf, 4),
        price: read_u64_be(buf, 12),
        quantity: read_u32_be(buf, 20),
        order_type: buf[24],
        price_type: buf[25],
        submit_time: read_u64_be(buf, 26),
        expire_time: read_u64_be(buf, 34),
    })
}

/// Decodes a trade broadcast frame; the checksum is not checked.
pub fn deserialize_match_result(buf: &[u8]) -> (r: Result<MatchResult, FormatError>)
    ensures
        buf@.len() != MESSAGE_TOTAL_SIZE <==> r is Err,
        buf@.len() != MESSAGE_TOTAL_SIZE ==> r == Err::<MatchResult, FormatError>(
            length_error(buf@.len() as int),
        ),
        r matches Ok(m) ==> trade_fields(m, buf@),
{
    if let Err(e) = check_length(buf) {
        return Err(e);
    }
    Ok(MatchResult {
        instance_tag: read_instance_tag(buf),
        product_id: read_u16_be(buf, 10),
        buy_order_id: read_u64_be(buf, 12),
        sell_order_id: read_u64_be(buf, 20),
        price: read_u64_be(buf, 28),
        quantity: read_u32_be(buf, 36),
        trade_network_time: read_u32_be(buf, 40),
        internal_match_time: read_u32_be(buf, 44),
    })
}

/// Decodes a status broadcast frame; the checksum is not checked.
pub fn deserialize_stats_result(buf: &[u8]) -> (r: Result<BroadcastStats, FormatError>)
    ensures
        buf@.len() != MESSAGE_TOTAL_SIZE <==> r is Err,
        buf@.len() != MESSAGE_TOTAL_SIZE ==> r == Err::<BroadcastStats, FormatError>(
            length_error(buf@.len() as int),
        ),
        r matches Ok(st) ==> stats_fields(st, buf@),
{
    if let Err(e) = check_length(buf) {
        return Err(e);
    }
    Ok(BroadcastStats {
        instance_tag: read_instance_tag(buf),
        product_id: read_u16_be(buf, 10),
        bids_size: read_u32_be(buf, 12),
        ask_size: read_u32_be(buf, 16),
        matched_orders: read_u32_be(buf, 20),
        total_received_orders: read_u32_be(buf, 24),
        start_time: read_u64_be(buf, 28),
    })
}

/// The payload of a status broadcast frame.
pub open spec fn stats_payload(st: BroadcastStats) -> Seq<u8> {
    st.instance_tag@ + be16(st.product_id) + be32(st.bids_size) + be32(st.ask_size) + be32(
        st.matched_orders,
    ) + be32(st.total_received_orders) + be64(st.start_time) + zeros(14)
}

/// Encodes a status broadcast frame.
pub fn serialize_stats_result(stats: &BroadcastStats) -> (r: [u8; MESSAGE_TOTAL_SIZE])
    ensures
        r@ == frame(MSG_STATUS_BROADCAST, stats_payload(*stats)),
{
    let mut p: Vec<u8> = Vec::new();
    let mut i: usize = 0;
    while i < 8
        invariant
            i <= 8,
            stats.instance_tag@.len() == 8,
            p@ == stats.instance_tag@.take(i as int),
        decreases 8 - i,
    {
        p.push(stats.instance_tag[i]);
        i = i + 1;
        assert(p@ =~= stats.instance_tag@.take(i as int));
    }
    assert(stats.instance_tag@.take(8) =~= stats.instance_tag@);
    push_u16_be(&mut p, stats.product_id);
    push_u32_be(&mut p, stats.bids_size);
    push_u32_be(&mut p, stats.ask_size);
    push_u32_be(&mut p, stats.matched_orders);
    push_u32_be(&mut p, stats.total_received_orders);
    push_u64_be(&mut p, stats.start_time);
    push_zeros(&mut p, 14);
    assert(p@ =~= stats_payload(*stats));
    seal_frame(MSG_STATUS_BROADCAST, &p)
}

// ---------------------------------------------------------------------
// Laws of the codec
// ---------------------------------------------------------------------

/// Every frame built from a 48-byte payload has a valid checksum.
pub proof fn lemma_frame_checksum_valid(tag: u8, payload: Seq<u8>)
    requires
        payload.len() == PAYLOAD_SIZE,
    ensures
        checksum_valid(frame(tag, payload)),
{
    assert(frame(tag, payload).subrange(2, 50) =~= payload);
}

/// Decoding an encoded order gives back every field of the order, and the
/// encoded frame passes checksum verification.
pub proof fn lemma_order_round_trip(o: Order)
    ensures
        order_of(frame(MSG_ORDER_SUBMIT, order_payload(o))) == o,
        checksum_valid(frame(MSG_ORDER_SUBMIT, order_payload(o))),
{
    let f = frame(MSG_ORDER_SUBMIT, order_payload(o));
    assert(f.subrange(2, 4) =~= be16(o.product_id));
    assert(f.subrange(4, 12) =~= be64(o.order_id));
    assert(f.subrange(12, 20) =~= be64(o.price));
    assert(f.subrange(20, 24) =~= be32(o.quantity));
    assert(f.subrange(26, 34) =~= be64(o.submit_time));
    assert(f.subrange(34, 42) =~= be64(o.expire_time));
    lemma_be16_round_trip(o.product_id);
    lemma_be64_round_trip(o.order_id);
    lemma_be64_round_trip(o.price);
    lemma_be32_round_trip(o.quantity);
    lemma_be64_round_trip(o.submit_time);
    lemma_be64_round_trip(o.expire_time);
    lemma_frame_checksum_valid(MSG_ORDER_SUBMIT, order_payload(o));
}

/// Decoding an encoded status broadcast gives back every field of it.
pub proof fn lemma_stats_round_trip(st: BroadcastStats)
    ensures
        stats_fields(st, frame(MSG_STATUS_BROADCAST, stats_payload(st))),
        checksum_valid(frame(MSG_STATUS_BROADCAST, stats_payload(st))),
{
    let f = frame(MSG_STATUS_BROADCAST, stats_payload(st));
    assert(f.subrange(2, 10) =~= st.instance_tag@);
    assert(f.subrange(10, 12) =~= be16(st.product_id));
    assert(f.subrange(12, 16) =~= be32(st.bids_size));
    assert(f.subrange(16, 20) =~= be32(st.ask_size));
    assert(f.subrange(20, 24) =~= be32(st.matched_orders));
    assert(f.subrange(24, 28) =~= be32(st.total_received_orders));
    assert(f.subrange(28, 36) =~= be64(st.start_time));
    lemma_be16_round_trip(st.product_id);
    lemma_be32_round_trip(st.bids_size);
    lemma_be32_round_trip(st.ask_size);
    lemma_be32_round_trip(st.matched_orders);
    lemma_be32_round_trip(st.total_received_orders);
    lemma_be64_round_trip(st.start_time);
    lemma_frame_checksum_valid(MSG_STATUS_BROADCAST, stats_payload(st));
}

/// XOR-ing one byte of `s` with `mask` XORs the fold of `s` with `mask`.
pub proof fn lemma_xor_fold_update(s: Seq<u8>, i: int, mask: u8)
    requires
        0 <= i < s.len(),
    ensures
        xor_fold(s.update(i, s[i] ^ mask)) == xor_fold(s) ^ mask,
    decreases s.len(),
{
    let t = s.update(i, s[i] ^ mask);
    let a = xor_fold(s.drop_last());
    let l = s.last();
    if i == s.len() - 1 {
        assert(t.drop_last() =~= s.drop_last());
        assert(a ^ (l ^ mask) == (a ^ l) ^ mask) by (bit_vector);
    } else {
        assert(t.drop_last() =~= s.drop_last().update(i, s[i] ^ mask));
        lemma_xor_fold_update(s.drop_last(), i, mask);
        assert((a ^ mask) ^ l == (a ^ l) ^ mask) by (bit_vector);
    }
}

/// Flipping any single bit of the payload of a valid frame makes its
/// checksum fail; flipping a bit of the checksum or tag bytes leaves the
/// checksum computed over the payload unchanged.
pub proof fn lemma_single_bit_flip(s: Seq<u8>, i: int, bit: u8)
    requires
        checksum_valid(s),
        0 <= i < MESSAGE_TOTAL_SIZE,
        bit < 8,
    ensures
        2 <= i ==> !checksum_valid(s.update(i, s[i] ^ (1u8 << bit))),
        i < 2 ==> xor_fold(s.update(i, s[i] ^ (1u8 << bit)).subrange(2, 50)) == xor_fold(
            s.subrange(2, 50),
        ),
{
    let mask: u8 = 1u8 << bit;
    let t = s.update(i, s[i] ^ mask);
    if 2 <= i {
        let p = s.subrange(2, 50);
        assert(t.subrange(2, 50) =~= p.update(i - 2, p[i - 2] ^ mask));
        lemma_xor_fold_update(p, i - 2, mask);
        let x = xor_fold(p);
        assert(bit < 8 ==> x ^ (1u8 << bit) != x) by (bit_vector);
    } else {
        assert(t.subrange(2, 50) =~= s.subrange(2, 50));
    }
}

// ---------------------------------------------------------------------
// Dispatch and rendering of broadcasts
// ---------------------------------------------------------------------

pub open spec fn digit_char(d: nat) -> char {
    seq!['0', '1', '2', '3', '4', '5', '6', '7', '8', '9'][d as int]
}

/// The decimal digits of `n`, without leading zeros.
pub open spec fn decimal(n: nat) -> Seq<char>
    decreases n,
{
    if n < 10 {
        seq![digit_char(n)]
    } else {
        decimal(n / 10).push(digit_char(n % 10))
    }
}

/// Relies on `ToString` of `u64` (its `Display`): the decimal digits of the value.
#[verifier::external_body]
fn decimal_string(n: u64) -> (r: String)
    ensures
        r@ == decimal(n as nat),
{
    n.to_string()
}

/// Why a received buffer could not be rendered.
#[derive(Debug, Clone)]
pub enum DecodeError {
    /// The buffer does not hold exactly one frame.
    Format(FormatError),
    /// A whole frame whose tag names no broadcast; `bytes` is everything received.
    UnknownTag { tag: u8, bytes: Vec<u8> },
}

/// The summary line of the trade broadcast frame `s`.
pub open spec fn trade_text(s: Seq<u8>) -> Seq<char> {
    "🔥 TRADE: Product="@ + decimal(from_be16(s.subrange(10, 12)) as nat) + " | Price="@
        + decimal(from_be64(s.subrange(28, 36)) as nat) + " | Qty="@ + decimal(
        from_be32(s.subrange(36, 40)) as nat,
    ) + " | BuyID="@ + decimal(from_be64(s.subrange(12, 20)) as nat) + " | SellId="@ + decimal(
        from_be64(s.subrange(20, 28)) as nat,
    ) + "| Net="@ + decimal(from_be32(s.subrange(40, 44)) as nat) + "ns | Match="@ + decimal(
        from_be32(s.subrange(44, 48)) as nat,
    ) + "ns"@
}

/// The summary line of the status broadcast frame `s`.
pub open spec fn status_text(s: Seq<u8>) -> Seq<char> {
    "📊 STATUS: Product="@ + decimal(from_be16(s.subrange(10, 12)) as nat) + " | Bids="@
        + decimal(from_be32(s.subrange(12, 16)) as nat) + " | Asks="@ + decimal(
        from_be32(s.subrange(16, 20)) as nat,
    ) + " | Matched="@ + decimal(from_be32(s.subrange(20, 24)) as nat) + " | Received="@
        + decimal(from_be32(s.subrange(24, 28)) as nat)
}

fn render_trade(m: &MatchResult, Ghost(s): Ghost<Seq<u8>>) -> (r: String)
    requires
        trade_fields(*m, s),
    ensures
        r@ == trade_text(s),
{
    let mut t = String::from_str("🔥 TRADE: Product=");
    t.append(decimal_string(m.product_id as u64).as_str());
    t.append(" | Price=");
    t.append(decimal_string(m.price).as_str());
    t.append(" | Qty=");
    t.append(decimal_string(m.quantity as u64).as_str());
    t.append(" | BuyID=");
    t.append(decimal_string(m.buy_order_id).as_str());
    t.append(" | SellId=");
    t.append(decimal_string(m.sell_order_id).as_str());
    t.append("| Net=");
    t.append(decimal_string(m.trade_network_time as u64).as_str());
    t.append("ns | Match=");
    t.append(decimal_string(m.internal_match_time as u64).as_str());
    t.append("ns");
    t
}

fn render_stats(st: &BroadcastStats, Ghost(s): Ghost<Seq<u8>>) -> (r: String)
    requires
        stats_fields(*st, s),
    ensures
        r@ == status_text(s),
{
    let mut t = String::from_str("📊 STATUS: Product=");
    t.append(decimal_string(st.product_id as u64).as_str());
    t.append(" | Bids=");
    t.append(decimal_string(st.bids_size as u64).as_str());
    t.append(" | Asks=");
    t.append(decimal_string(st.ask_size as u64).as_str());
    t.append(" | Matched=");
    t.append(decimal_string(st.matched_orders as u64).as_str());
    t.append(" | Received=");
    t.append(decimal_string(st.total_received_orders as u64).as_str());
    t
}

/// Decodes a received broadcast by its tag and renders it as one line:
/// tag `MSG_TRADE_BROADCAST` as a trade, tag `MSG_STATUS_BROADCAST` as a status.
pub fn decode_broadcast_message(buf: &[u8]) -> (r: Result<String, DecodeError>)
    ensures
        buf@.len() != MESSAGE_TOTAL_SIZE ==> r == Err::<String, DecodeError>(
            DecodeError::Format(length_error(buf@.len() as int)),
        ),
        buf@.len() == MESSAGE_TOTAL_SIZE && buf@[1] == MSG_TRADE_BROADCAST ==> (r matches Ok(t)
            && t@ == trade_text(buf@)),
        buf@.len() == MESSAGE_TOTAL_SIZE && buf@[1] == MSG_STATUS_BROADCAST ==> (r matches Ok(t)
            && t@ == status_text(buf@)),
        buf@.len() == MESSAGE_TOTAL_SIZE && buf@[1] != MSG_TRADE_BROADCAST && buf@[1]
            != MSG_STATUS_BROADCAST ==> (r matches Err(
            DecodeError::UnknownTag { tag, bytes },
        ) && tag == buf@[1] && bytes@ == buf@),
{
    if let Err(e) = check_length(buf) {
        return Err(DecodeError::Format(e));
    }
    let tag = buf[1];
    if tag == MSG_TRADE_BROADCAST {
        match deserialize_match_result(buf) {
            Ok(m) => Ok(render_trade(&m, Ghost(buf@))),
            Err(e) => Err(DecodeError::Format(e)),
        }
    } else if tag == MSG_STATUS_BROADCAST {
        match deserialize_stats_result(buf) {
            Ok(st) => Ok(render_stats(&st, Ghost(buf@))),
            Err(e) => Err(DecodeError::Format(e)),
        }
    } else {
        Err(DecodeError::UnknownTag { tag, bytes: vstd::slice::slice_to_vec(buf) })
    }
}

} // verus!
