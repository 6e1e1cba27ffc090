//! Connectivity-check (STUN binding) responder: classifies raw datagrams
//! and encodes binding success responses with an XOR-mapped address.

use vstd::prelude::*;

verus! {

/// A datagram is a connectivity-check (STUN) message when it is at least 20
/// bytes long (the fixed STUN header) and its leading byte is 0x00 or 0x01,
/// i.e. the high byte of its message type marks a request or indication.
pub open spec fn spec_is_stun(data: Seq<u8>) -> bool {
    data.len() >= 20 && (data[0] == 0x00u8 || data[0] == 0x01u8)
}

/// How the datagram listener treats an incoming packet.
#[derive(PartialEq, Eq, Structural, Debug, Clone, Copy)]
pub enum DatagramKind {
    /// Answer with a binding success response.
    ConnectivityCheck,
    /// Treat as a payload for the (stubbed) data-relay path.
    RelayData,
}

pub fn is_stun_message(data: &[u8]) -> (r: bool)
    ensures
        r == spec_is_stun(data@),
{
    if data.len() < 20 {
        return false;
    }
    let b0 = data[0];
    b0 == 0x00 || b0 == 0x01
}

/// The decision the datagram loop applies to each received packet.
pub fn classify_datagram(data: &[u8]) -> (r: DatagramKind)
    ensures
        r == DatagramKind::ConnectivityCheck <==> spec_is_stun(data@),
{
    if is_stun_message(data) {
        DatagramKind::ConnectivityCheck
    } else {
        DatagramKind::RelayData
    }
}

/// The full binding success response sent to a client observed at
/// IPv4 address `ip`, port `port`: a 20-byte STUN header (type 0x0101,
/// length 12, magic cookie, zero transaction id) followed by one
/// XOR-MAPPED-ADDRESS attribute whose port and address bytes are XORed
/// with the magic cookie.
pub open spec fn spec_binding_response(port: u16, ip: Seq<u8>) -> Seq<u8>
    recommends
        ip.len() == 4,
{
    seq![
        0x01u8, 0x01u8,
        0x00u8, 0x0cu8,
        0x21u8, 0x12u8, 0xa4u8, 0x42u8,
        0x00u8, 0x00u8, 0x00u8, 0x00u8,
        0x00u8, 0x00u8, 0x00u8, 0x00u8,
        0x00u8, 0x00u8, 0x00u8, 0x00u8,
        0x00u8, 0x20u8,
        0x00u8, 0x08u8,
        0x00u8, 0x01u8,
        ((((port ^ 0x2112) >> 8) & 0xff) as u8),
        (((port ^ 0x2112) & 0xff) as u8),
        ip[0] ^ 0x21u8, ip[1] ^ 0x12u8, ip[2] ^ 0xa4u8, ip[3] ^ 0x42u8,
    ]
}

pub fn create_binding_response(port: u16, ip: &[u8; 4]) -> (r: Vec<u8>)
    ensures
        r@ == spec_binding_response(port, ip@),
        r@.len() == 32,
        (r@[2] as int) * 256 + (r@[3] as int) == r@.len() - 20,
{
    let mut r: Vec<u8> = Vec::new();
    r.push(0x01);
    r.push(0x01);
    r.push(0x00);
    r.push(0x0c);
    r.push(0x21);
    r.push(0x12);
    r.push(0xa4);
    r.push(0x42);
    r.push(0x00);
    r.push(0x00);
    r.push(0x00);
    r.push(0x00);
    r.push(0x00);
    r.push(0x00);
    r.push(0x00);
    r.push(0x00);
    r.push(0x00);
    r.push(0x00);
    r.push(0x00);
    r.push(0x00);
    r.push(0x00);
    r.push(0x20);
    r.push(0x00);
    r.push(0x08);
    r.push(0x00);
    r.push(0x01);
    let xp: u16 = port ^ 0x2112;
    proof {
        assert((xp >> 8) & 0xff < 256 && xp & 0xff < 256) by (bit_vector);
    }
    r.push(((xp >> 8) & 0xff) as u8);
    r.push((xp & 0xff) as u8);
    r.push(ip[0] ^ 0x21);
    r.push(ip[1] ^ 0x12);
    r.push(ip[2] ^ 0xa4);
    r.push(ip[3] ^ 0x42);
    assert(r@ =~= spec_binding_response(port, ip@));
    r
}

} // verus!
