//! The parameters of an established session.

use crate::address::Address;
use crate::latency::Latency;
use crate::packet::{HandshakeControlInfo, Packet, SeqNumber, SocketID};
use std::time::Instant;
use vstd::prelude::*;

verus! {

/// A reading of the monotonic clock.  Its inside is not looked at here:
/// a session carries the instant at which it began, and hands it on.
#[verifier::external_type_specification]
#[verifier::external_body]
pub struct ExInstant(Instant);

/// Flow window given to every session, in packets.  It is fixed, not
/// negotiated.
pub const MAX_FLOW_SIZE: u32 = 16000;

/// Answers repeated conclusion packets once a session stands: it hands
/// out the response that completed the handshake, whatever it is shown.
#[derive(Clone, Copy, Debug, PartialEq, Eq)]
pub struct HandshakeReturner {
    /// The response that completed the handshake.
    pub response: Packet,
}

impl HandshakeReturner {
    /// What `call` returns for `shake`: the completed response, which
    /// does not depend on `shake`.
    pub open spec fn spec_call(&self, shake: HandshakeControlInfo) -> Option<Packet> {
        Some(self.response)
    }

    /// A returner for `response`.
    pub fn new(response: Packet) -> (r: HandshakeReturner)
        ensures
            r.response == response,
    {
        HandshakeReturner { response }
    }

    /// The packet to send in answer to the handshake `shake`, which is
    /// always the completed response.
    pub fn call(&self, shake: &HandshakeControlInfo) -> (r: Option<Packet>)
        ensures
            r == self.spec_call(*shake),
            r == Some(self.response),
    {
        Some(self.response)
    }

    /// Every call of one returner gives the same packet: for any two
    /// handshakes shown to it, the answers are equal, and there is one.
    pub proof fn call_ignores_argument(self, first: HandshakeControlInfo, second: HandshakeControlInfo)
        ensures
            self.spec_call(first) == self.spec_call(second),
            self.spec_call(first) is Some,
    {
    }
}

/// What a completed handshake hands to the session layer.
#[derive(Clone, Copy, Debug)]
pub struct ConnectionSettings {
    /// First sequence number the remote end will use.
    pub init_seq_num: SeqNumber,
    /// Socket identifier of the remote end.
    pub remote_sockid: SocketID,
    /// Address of the remote end.
    pub remote: Address,
    /// Flow window, in packets.
    pub max_flow_size: u32,
    /// Largest packet, in bytes.
    pub max_packet_size: u32,
    /// Socket identifier of this end.
    pub local_sockid: SocketID,
    /// When the session began.
    pub socket_start_time: Instant,
    /// Latency of time-stamped delivery.
    pub tsbpd_latency: Latency,
    /// Answers repeated conclusion packets.
    pub handshake_returner: HandshakeReturner,
}

/// The settings of the session that the conclusion handshake `shake`,
/// received from `remote`, sets up at the moment `start`.
///
/// Sequence number, remote socket identifier and packet size are the
/// remote's own, taken as declared; the flow window is `MAX_FLOW_SIZE`.
pub open spec fn settings_of(
    shake: HandshakeControlInfo,
    remote: Address,
    local_sockid: SocketID,
    latency: Latency,
    response: Packet,
    start: Instant,
) -> ConnectionSettings {
    ConnectionSettings {
        init_seq_num: shake.init_seq_num,
        remote_sockid: shake.socket_id,
        remote,
        max_flow_size: MAX_FLOW_SIZE,
        max_packet_size: shake.max_packet_size,
        local_sockid,
        socket_start_time: start,
        tsbpd_latency: latency,
        handshake_returner: HandshakeReturner { response },
    }
}

impl ConnectionSettings {
    /// Assembles the settings of the session that `shake` sets up.
    pub fn new(
        shake: &HandshakeControlInfo,
        remote: Address,
        local_sockid: SocketID,
        latency: Latency,
        response: Packet,
        start: Instant,
    ) -> (s: ConnectionSettings)
        ensures
            s == settings_of(*shake, remote, local_sockid, latency, response, start),
    {
        ConnectionSettings {
            init_seq_num: shake.init_seq_num,
            remote_sockid: shake.socket_id,
            remote,
            max_flow_size: MAX_FLOW_SIZE,
            max_packet_size: shake.max_packet_size,
            local_sockid,
            socket_start_time: start,
            tsbpd_latency: latency,
            handshake_returner: HandshakeReturner::new(response),
        }
    }
}

/// Reads the monotonic clock with `std::time::Instant::now`.  The
/// reading differs from call to call, so nothing is stated about it.
#[verifier::external_body]
pub(crate) fn now() -> Instant {
    Instant::now()
}

} // verus!
