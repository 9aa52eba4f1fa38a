//! Remote endpoint addresses, held as plain integers.

use vstd::bytes::{
    spec_u128_to_le_bytes, spec_u16_to_le_bytes, spec_u32_to_le_bytes, u128_to_le_bytes,
    u16_to_le_bytes, u32_to_le_bytes,
};
use vstd::prelude::*;

verus! {

/// The address a datagram came from, or is sent to.
///
/// An IPv4 host is its four octets read as one big-endian `u32`; an IPv6
/// host is its sixteen octets read as one big-endian `u128`.
#[allow(inconsistent_fields)]
#[derive(Clone, Copy, Debug, PartialEq, Eq, Hash, Structural)]
pub enum Address {
    /// An IPv4 host and port.
    V4 { ip: u32, port: u16 },
    /// An IPv6 host and port, with flow label and scope.
    V6 { ip: u128, port: u16, flowinfo: u32, scope_id: u32 },
}

/// A host address without a port, as a handshake carries it.
#[derive(Clone, Copy, Debug, PartialEq, Eq, Hash, Structural)]
pub enum IpAddress {
    /// Four octets read as one big-endian `u32`.
    V4(u32),
    /// Sixteen octets read as one big-endian `u128`.
    V6(u128),
}

/// Leading byte of the encoding of an IPv4 address.
pub const TAG_V4: u8 = 4;

/// Leading byte of the encoding of an IPv6 address.
pub const TAG_V6: u8 = 6;

/// The bytes that stand for an address wherever it is hashed: a tag for
/// the family, then every field in declaration order, least significant
/// byte first.
pub open spec fn address_bytes(a: Address) -> Seq<u8> {
    match a {
        Address::V4 { ip, port } => seq![TAG_V4] + spec_u32_to_le_bytes(ip) + spec_u16_to_le_bytes(
            port,
        ),
        Address::V6 { ip, port, flowinfo, scope_id } => seq![TAG_V6] + spec_u128_to_le_bytes(ip)
            + spec_u16_to_le_bytes(port) + spec_u32_to_le_bytes(flowinfo) + spec_u32_to_le_bytes(
            scope_id,
        ),
    }
}

impl Address {
    /// The encoding of this address as bytes.
    pub fn to_bytes(&self) -> (out: Vec<u8>)
        ensures
            out@ == address_bytes(*self),
    {
        let mut out: Vec<u8> = Vec::new();
        match *self {
            Address::V4 { ip, port } => {
                out.push(TAG_V4);
                assert(out@ == seq![TAG_V4]);
                let mut ip_bytes = u32_to_le_bytes(ip);
                out.append(&mut ip_bytes);
                let mut port_bytes = u16_to_le_bytes(port);
                out.append(&mut port_bytes);
            },
            Address::V6 { ip, port, flowinfo, scope_id } => {
                out.push(TAG_V6);
                assert(out@ == seq![TAG_V6]);
                let mut ip_bytes = u128_to_le_bytes(ip);
                out.append(&mut ip_bytes);
                let mut port_bytes = u16_to_le_bytes(port);
                out.append(&mut port_bytes);
                let mut flow_bytes = u32_to_le_bytes(flowinfo);
                out.append(&mut flow_bytes);
                let mut scope_bytes = u32_to_le_bytes(scope_id);
                out.append(&mut scope_bytes);
            },
        }
        out
    }
}

} // verus!
