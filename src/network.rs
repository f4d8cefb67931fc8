use vstd::prelude::*;

use crate::encoding::{
    checksum_valid, decode_broadcast_message, length_error, status_text, trade_text, verify_checksum,
    DecodeError,
};
use crate::types::{MESSAGE_TOTAL_SIZE, MSG_STATUS_BROADCAST, MSG_TRADE_BROADCAST};

verus! {

/// Hop limit set on the sending socket when the destination is a multicast group.
pub const MULTICAST_TTL: u32 = 10;

/// An IP address: four octets, or eight 16-bit segments.
#[derive(Debug, Clone, Copy)]
pub enum IpAddress {
    V4([u8; 4]),
    V6([u16; 8]),
}

/// An IP address with a port.
#[derive(Debug, Clone, Copy)]
pub struct GroupAddress {
    pub ip: IpAddress,
    pub port: u16,
}

/// IPv4 multicast is 224.0.0.0/4; IPv6 multicast is ff00::/8.
pub open spec fn is_multicast_spec(ip: IpAddress) -> bool {
    match ip {
        IpAddress::V4(o) => 224 <= o@[0] <= 239,
        IpAddress::V6(s) => s@[0] & 0xff00u16 == 0xff00u16,
    }
}

/// Whether `ip` is a multicast address.
pub fn is_multicast(ip: &IpAddress) -> (r: bool)
    ensures
        r == is_multicast_spec(*ip),
{
    match ip {
        IpAddress::V4(o) => 224 <= o[0] && o[0] <= 239,
        IpAddress::V6(s) => s[0] & 0xff00u16 == 0xff00u16,
    }
}

/// The step of socket setup or use at which the operating system failed.
#[derive(Debug, Clone, Copy, PartialEq, Eq, Structural)]
pub enum SocketStep {
    Bind,
    Create,
    ReuseAddress,
    JoinGroup,
    Send,
    Receive,
}

/// Why the transport could not do its work.
#[derive(Debug, Clone)]
pub enum TransportError {
    /// The text is no `IP:port` address; `detail` says why.
    InvalidAddress { input: String, detail: String },
    /// A multicast group was required and the address is not one.
    NotMulticast { ip: IpAddress },
    /// Joining an IPv6 multicast group is not supported.
    Unsupported,
    /// The operating system sent only part of a frame.
    PartialSend { sent: usize, expected: usize },
    /// The operating system refused a socket operation.
    Os { step: SocketStep, detail: String },
}

/// How to open a listener on a multicast group: bind to the group's port with
/// address reuse on, and join the group on every interface.
#[derive(Debug, Clone, Copy)]
pub struct ListenerPlan {
    pub group: [u8; 4],
    pub port: u16,
    /// Local interface for the membership: the unspecified address 0.0.0.0.
    pub interface: [u8; 4],
    pub reuse_address: bool,
}

/// Decides how to listen on `addr`, or why it cannot be listened on.
pub fn plan_listener(addr: &GroupAddress) -> (r: Result<ListenerPlan, TransportError>)
    ensures
        !is_multicast_spec(addr.ip) ==> (r matches Err(TransportError::NotMulticast { ip })
            && ip == addr.ip),
        is_multicast_spec(addr.ip) && addr.ip is V6 ==> (r matches Err(
            TransportError::Unsupported,
        )),
        is_multicast_spec(addr.ip) && addr.ip is V4 ==> (r matches Ok(p) && p.group@ == addr.ip->V4_0@
            && p.port == addr.port && p.interface@ == seq![0u8, 0u8, 0u8, 0u8]
            && p.reuse_address),
{
    if !is_multicast(&addr.ip) {
        return Err(TransportError::NotMulticast { ip: addr.ip });
    }
    match addr.ip {
        IpAddress::V4(o) => {
            let p = ListenerPlan { group: o, port: addr.port, interface: [0u8; 4], reuse_address: true };
            assert(p.interface@ =~= seq![0u8, 0u8, 0u8, 0u8]);
            Ok(p)
        },
        IpAddress::V6(_) => Err(TransportError::Unsupported),
    }
}

/// The multicast hop limit to set on the sender for destination `dest`, if any.
pub fn sender_ttl(dest: &GroupAddress) -> (r: Option<u32>)
    ensures
        is_multicast_spec(dest.ip) ==> r == Some(MULTICAST_TTL),
        !is_multicast_spec(dest.ip) ==> r is None,
{
    if is_multicast(&dest.ip) {
        Some(MULTICAST_TTL)
    } else {
        None
    }
}

/// Judges one send: the whole frame must have gone out.
pub fn check_send(sent: usize, expected: usize) -> (r: Result<(), TransportError>)
    ensures
        sent == expected <==> r is Ok,
        sent != expected ==> (r matches Err(TransportError::PartialSend { sent: s, expected: e })
            && s == sent && e == expected),
{
    if sent == expected {
        Ok(())
    } else {
        Err(TransportError::PartialSend { sent, expected })
    }
}

/// What one blocking receive on the listener gave.
#[derive(Debug, Clone)]
pub enum ReceiveEvent {
    /// A datagram arrived; `bytes` is what was received.
    Datagram { bytes: Vec<u8> },
    /// The call was interrupted before anything arrived.
    Interrupted,
    /// Any other socket error.
    Failed { detail: String },
}

/// What the receive loop does next.
#[derive(Debug, Clone)]
pub enum LoopAction {
    /// Print the rendered broadcast; `checksum_ok` is advisory only.
    Show { text: String, checksum_ok: bool },
    /// Report a datagram that could not be rendered, and go on.
    Report { error: DecodeError, checksum_ok: bool },
    /// Receive again.
    Retry,
    /// Leave the loop with a fatal error.
    Stop { detail: String },
}

/// Whether the loop goes on receiving after `a`.
pub open spec fn keeps_running(a: LoopAction) -> bool {
    !(a is Stop)
}

/// The rendering that a received datagram `s` gets, if any.
pub open spec fn shown_text(s: Seq<u8>) -> Option<Seq<char>> {
    if s.len() == MESSAGE_TOTAL_SIZE && s[1] == MSG_TRADE_BROADCAST {
        Some(trade_text(s))
    } else if s.len() == MESSAGE_TOTAL_SIZE && s[1] == MSG_STATUS_BROADCAST {
        Some(status_text(s))
    } else {
        None
    }
}

/// Decides what the receive loop does with one event.
pub fn receive_step(event: ReceiveEvent) -> (r: LoopAction)
    ensures
        event is Datagram ==> keeps_running(r),
        event matches ReceiveEvent::Datagram { bytes } ==> match shown_text(bytes@) {
            Some(t) => r matches LoopAction::Show { text, checksum_ok } && text@ == t
                && checksum_ok == checksum_valid(bytes@),
            None => r matches LoopAction::Report { error, checksum_ok } && checksum_ok
                == checksum_valid(bytes@) && (bytes@.len() != MESSAGE_TOTAL_SIZE ==> error
                == DecodeError::Format(length_error(bytes@.len() as int)))
                && (bytes@.len() == MESSAGE_TOTAL_SIZE ==> (error matches DecodeError::UnknownTag {
                tag, bytes: b } && tag == bytes@[1] && b@ == bytes@)),
        },
        event is Interrupted ==> r is Retry,
        event matches ReceiveEvent::Failed { detail } ==> (r matches LoopAction::Stop { detail: d }
            && d == detail),
{
    match event {
        ReceiveEvent::Datagram { bytes } => {
            let checksum_ok = verify_checksum(bytes.as_slice());
            match decode_broadcast_message(bytes.as_slice()) {
                Ok(text) => LoopAction::Show { text, checksum_ok },
                Err(error) => LoopAction::Report { error, checksum_ok },
            }
        },
        ReceiveEvent::Interrupted => LoopAction::Retry,
        ReceiveEvent::Failed { detail } => LoopAction::Stop { detail },
    }
}

} // verus!
