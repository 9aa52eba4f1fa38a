//! The packets a listener sees, reduced to what the handshake reads and
//! writes.  Payloads the handshake never looks at are not held.

use crate::address::IpAddress;
use crate::latency::Latency;
use vstd::prelude::*;

verus! {

/// Identifies one endpoint of a session.  Compared, never interpreted.
#[derive(Clone, Copy, Debug, PartialEq, Eq, Hash, Structural)]
pub struct SocketID(pub u32);

/// A packet sequence number.
#[derive(Clone, Copy, Debug, PartialEq, Eq, Hash, Structural)]
pub struct SeqNumber(pub u32);

/// The phase a handshake packet belongs to.
#[derive(Clone, Copy, Debug, PartialEq, Eq, Hash, Structural)]
pub enum ShakeType {
    /// First phase: the requester asks for a cookie.
    Induction,
    /// Rendezvous probing; not part of the listener's exchange.
    Waveahand,
    /// Second phase: the requester echoes the cookie.
    Conclusion,
    /// Rendezvous agreement; not part of the listener's exchange.
    Agreement,
}

/// Kind of socket announced by a version-4 handshake.
#[derive(Clone, Copy, Debug, PartialEq, Eq, Hash, Structural)]
pub enum SocketType {
    Stream,
    Datagram,
}

/// Version of the SRT implementation at the other end.
#[derive(Clone, Copy, Debug, PartialEq, Eq, Hash, Structural)]
pub struct SrtVersion {
    pub major: u8,
    pub minor: u8,
    pub patch: u8,
}

/// The SRT handshake extension: the latency an end asks for or grants,
/// beside fields that pass through the listener unread.
#[derive(Clone, Copy, Debug, PartialEq, Eq)]
pub struct SrtHandshake {
    /// Version of the sender's implementation.
    pub version: SrtVersion,
    /// Capability flags of the sender.
    pub flags: u32,
    /// Latency the sender wants its peer to apply.
    pub peer_latency: Latency,
    /// Latency asked for in a request, granted in a response.
    pub latency: Latency,
}

/// An SRT-specific control message, alone or inside a handshake.
#[derive(Clone, Copy, Debug, PartialEq, Eq)]
pub enum SrtControlPacket {
    /// The handshake was refused.
    Reject,
    /// Latency negotiation, as sent by the requester.
    HandshakeRequest(SrtHandshake),
    /// Latency negotiation, as answered by the listener.
    HandshakeResponse(SrtHandshake),
    /// Key material offered; only its presence is kept.
    KeyManagerRequest,
    /// Key material answered; only its presence is kept.
    KeyManagerResponse,
}

/// The part of a handshake that depends on the protocol version.
#[derive(Clone, Copy, Debug, PartialEq, Eq)]
pub enum HandshakeVSInfo {
    /// A version-4 handshake, which names the socket type.
    V4(SocketType),
    /// A version-5 handshake, with its extension slots.
    V5 {
        /// Size of the crypto block in bytes; zero without encryption.
        crypto_size: u8,
        /// The handshake extension.
        ext_hs: Option<SrtControlPacket>,
        /// The key-material extension.
        ext_km: Option<SrtControlPacket>,
        /// The configuration extension.
        ext_config: Option<SrtControlPacket>,
    },
}

impl HandshakeVSInfo {
    /// The protocol version this block declares.
    pub open spec fn spec_version(&self) -> u32 {
        match *self {
            HandshakeVSInfo::V4(_) => 4,
            HandshakeVSInfo::V5 { .. } => 5,
        }
    }

    /// The handshake request carried in a version-5 block, if there is
    /// one.
    pub open spec fn spec_handshake_request(&self) -> Option<SrtHandshake> {
        match *self {
            HandshakeVSInfo::V5 {
                ext_hs: Some(SrtControlPacket::HandshakeRequest(request)),
                ..
            } => Some(request),
            _ => None,
        }
    }

    /// The protocol version this block declares: 4 or 5.
    #[verifier::when_used_as_spec(spec_version)]
    pub fn version(&self) -> (v: u32)
        ensures
            v == self.spec_version(),
    {
        match self {
            HandshakeVSInfo::V4(_) => 4,
            HandshakeVSInfo::V5 { .. } => 5,
        }
    }

    /// The handshake request carried in a version-5 block, if there is
    /// one.  A version-4 block, an empty slot and any other message in
    /// the slot all give `None`.
    #[verifier::when_used_as_spec(spec_handshake_request)]
    pub fn handshake_request(&self) -> (r: Option<SrtHandshake>)
        ensures
            r == self.spec_handshake_request(),
    {
        match self {
            HandshakeVSInfo::V5 {
                ext_hs: Some(SrtControlPacket::HandshakeRequest(request)),
                ..
            } => Some(*request),
            _ => None,
        }
    }
}

/// The body of a handshake control packet.
#[derive(Clone, Copy, Debug, PartialEq, Eq)]
pub struct HandshakeControlInfo {
    /// First sequence number the sender will use.
    pub init_seq_num: SeqNumber,
    /// Largest packet the sender handles, in bytes.
    pub max_packet_size: u32,
    /// Largest flow window the sender handles, in packets.
    pub max_flow_size: u32,
    /// Phase of the exchange.
    pub shake_type: ShakeType,
    /// Socket identifier of the sender.
    pub socket_id: SocketID,
    /// Cookie issued by the listener, echoed by the requester.
    pub syn_cookie: i32,
    /// Host address as written into the packet by its sender.
    pub peer_addr: IpAddress,
    /// Version-specific part.
    pub info: HandshakeVSInfo,
}

/// What a control packet is about.  Kinds other than the handshake carry
/// nothing here: a listener discards them unread.
#[derive(Clone, Copy, Debug, PartialEq, Eq)]
pub enum ControlTypes {
    Handshake(HandshakeControlInfo),
    KeepAlive,
    Ack,
    Nak,
    Shutdown,
    Ack2,
    DropRequest,
    Srt(SrtControlPacket),
}

/// A control packet.
#[derive(Clone, Copy, Debug, PartialEq, Eq)]
pub struct ControlPacket {
    /// Sender's timestamp, in microseconds since its session began.
    pub timestamp: i32,
    /// Socket the packet is meant for.
    pub dest_sockid: SocketID,
    /// Kind and body.
    pub control_type: ControlTypes,
}

/// The header of a data packet.
#[derive(Clone, Copy, Debug, PartialEq, Eq)]
pub struct DataPacket {
    pub seq_number: SeqNumber,
    pub timestamp: i32,
    pub dest_sockid: SocketID,
}

/// Anything that arrives on, or leaves through, the packet channel.
#[derive(Clone, Copy, Debug, PartialEq, Eq)]
pub enum Packet {
    Data(DataPacket),
    Control(ControlPacket),
}

impl Packet {
    /// The control packet that carries a handshake, if this is one.
    pub open spec fn spec_handshake(&self) -> Option<(ControlPacket, HandshakeControlInfo)> {
        match *self {
            Packet::Control(control) => match control.control_type {
                ControlTypes::Handshake(shake) => Some((control, shake)),
                _ => None,
            },
            Packet::Data(_) => None,
        }
    }

    /// Whether this is a handshake control packet.
    pub open spec fn is_handshake(&self) -> bool {
        self.spec_handshake() is Some
    }

    /// The control packet this is; meant for control packets only.
    pub open spec fn control(&self) -> ControlPacket
        recommends
            self is Control,
    {
        self->Control_0
    }

    /// The handshake this carries; meant for handshake packets only.
    pub open spec fn shake(&self) -> HandshakeControlInfo
        recommends
            self.is_handshake(),
    {
        let (_, shake) = self.spec_handshake()->0;
        shake
    }

    /// The control packet that carries a handshake, beside the handshake
    /// itself; `None` for data packets and for every other control packet.
    #[verifier::when_used_as_spec(spec_handshake)]
    pub fn handshake(&self) -> (r: Option<(ControlPacket, HandshakeControlInfo)>)
        ensures
            r == self.spec_handshake(),
    {
        match self {
            Packet::Control(control) => match control.control_type {
                ControlTypes::Handshake(shake) => Some((*control, shake)),
                _ => None,
            },
            Packet::Data(_) => None,
        }
    }
}

} // verus!
