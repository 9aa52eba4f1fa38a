//! The listener's side of the handshake.
//!
//! A requester first asks for a cookie (induction) and then echoes it
//! together with its session parameters (conclusion).  The listener
//! answers both, and a session stands once the conclusion has been
//! answered.  Whatever else arrives meanwhile is dropped without a word:
//! a channel may carry stray and repeated packets, and they are no
//! reason to give up.

use crate::address::Address;
use crate::channel::Channel;
use crate::cookie::{cookie, cookie_of};
use crate::latency::{larger, Latency};
use crate::packet::{
    ControlPacket, ControlTypes, HandshakeControlInfo, HandshakeVSInfo, Packet, ShakeType,
    SocketID, SrtControlPacket, SrtHandshake,
};
use crate::settings::{now, settings_of, ConnectionSettings};
use vstd::prelude::*;

verus! {

/// Why a handshake was given up.
#[derive(Clone, Copy, Debug, PartialEq, Eq, Hash, Structural)]
pub enum ListenError {
    /// The conclusion declared a protocol version other than 5.
    VersionMismatch,
    /// The conclusion carried no SRT handshake request.
    MissingHandshakeRequest,
    /// The channel ended before the handshake was complete.
    ChannelClosed,
}

impl ListenError {
    /// The text that goes with each error.
    pub open spec fn spec_message(&self) -> Seq<char> {
        match *self {
            ListenError::VersionMismatch => "Conclusion was HSv4, not HSv5, terminating connection"@,
            ListenError::MissingHandshakeRequest =>
                "Did not get SRT handshake request in conclusion handshake packet"@,
            ListenError::ChannelClosed => "Packet channel ended during the handshake"@,
        }
    }

    /// A line that says what went wrong.
    pub fn message(&self) -> (m: &'static str)
        ensures
            m@ == self.spec_message(),
    {
        match self {
            ListenError::VersionMismatch => "Conclusion was HSv4, not HSv5, terminating connection",
            ListenError::MissingHandshakeRequest => {
                "Did not get SRT handshake request in conclusion handshake packet"
            },
            ListenError::ChannelClosed => "Packet channel ended during the handshake",
        }
    }
}

/// What the induction phase yields once a handshake has arrived.
#[derive(Clone, Copy, Debug, PartialEq, Eq)]
pub struct Induction {
    /// The cookie issued to the requester.
    pub cookie: i32,
    /// The requester's address, to which `response` goes.
    pub from: Address,
    /// The answer that carries the cookie.
    pub response: Packet,
}

/// What the conclusion phase yields once the handshake is complete.
#[derive(Clone, Copy, Debug, PartialEq, Eq)]
pub struct Conclusion {
    /// The negotiated latency.
    pub latency: Latency,
    /// The timestamp of the conclusion packet.
    pub timestamp: i32,
    /// The requester's handshake, as received.
    pub shake: HandshakeControlInfo,
    /// The answer that completes the handshake.
    pub response: Packet,
}

/// The verdict on one packet that arrives during the conclusion phase.
#[derive(Clone, Copy, Debug, PartialEq, Eq)]
pub enum ConclusionStep {
    /// The packet is not the awaited conclusion; keep waiting.
    Discard,
    /// The packet is the awaited conclusion and cannot be accepted.
    Reject(ListenError),
    /// The packet is the awaited conclusion and completes the handshake.
    Accept(Conclusion),
}

/// The answer to an induction handshake: the requester's own fields,
/// with the cookie set and the version-specific part replaced by an
/// empty version-5 block.
pub open spec fn induction_response(
    timestamp: i32,
    shake: HandshakeControlInfo,
    cookie: i32,
) -> Packet {
    Packet::Control(
        ControlPacket {
            timestamp,
            dest_sockid: shake.socket_id,
            control_type: ControlTypes::Handshake(
                HandshakeControlInfo {
                    syn_cookie: cookie,
                    info: HandshakeVSInfo::V5 {
                        crypto_size: 0,
                        ext_hs: None,
                        ext_km: None,
                        ext_config: None,
                    },
                    ..shake
                },
            ),
        },
    )
}

/// What a packet from `from` means to a listener that awaits induction:
/// nothing unless it is a handshake; else the cookie of `from` and the
/// answer that carries it.
pub open spec fn induction_of(packet: Packet, from: Address) -> Option<Induction> {
    match packet.spec_handshake() {
        Some((control, shake)) => Some(
            Induction {
                cookie: cookie_of(from),
                from,
                response: induction_response(control.timestamp, shake, cookie_of(from)),
            },
        ),
        None => None,
    }
}

/// Judges one packet that arrives while induction is awaited.
///
/// A handshake of any phase and any declared version is answered, and
/// the answer is always of version 5.
pub fn induction_step(packet: &Packet, from: &Address) -> (r: Option<Induction>)
    ensures
        r == induction_of(*packet, *from),
{
    match packet.handshake() {
        Some((control, shake)) => {
            let cookie = cookie(from);
            let response = Packet::Control(
                ControlPacket {
                    timestamp: control.timestamp,
                    dest_sockid: shake.socket_id,
                    control_type: ControlTypes::Handshake(
                        HandshakeControlInfo {
                            syn_cookie: cookie,
                            info: HandshakeVSInfo::V5 {
                                crypto_size: 0,
                                ext_hs: None,
                                ext_km: None,
                                ext_config: None,
                            },
                            ..shake
                        },
                    ),
                },
            );
            Some(Induction { cookie, from: *from, response })
        },
        None => None,
    }
}

/// Whether `packet`, which came from `from_second`, is the conclusion
/// that a listener with socket `local_socket_id` awaits from `from`
/// after issuing `cookie`: a handshake of the conclusion phase, from that
/// address, meant for that socket, that echoes that cookie.
pub open spec fn is_awaited_conclusion(
    packet: Packet,
    from_second: Address,
    cookie: i32,
    local_socket_id: SocketID,
    from: Address,
) -> bool {
    match packet.spec_handshake() {
        Some((control, shake)) => {
            &&& from_second == from
            &&& control.dest_sockid == local_socket_id
            &&& shake.shake_type == ShakeType::Conclusion
            &&& shake.syn_cookie == cookie
        },
        None => false,
    }
}

/// The answer to an accepted conclusion: the requester's own fields, sent
/// back to the requester's socket in the name of `local_socket_id`, with
/// the cookie echoed and the request turned into a response that grants
/// `latency`.  The crypto size is the requester's; the other extension
/// slots are empty.
pub open spec fn conclusion_response(
    timestamp: i32,
    shake: HandshakeControlInfo,
    request: SrtHandshake,
    cookie: i32,
    local_socket_id: SocketID,
    latency: Latency,
) -> Packet {
    Packet::Control(
        ControlPacket {
            timestamp,
            dest_sockid: shake.socket_id,
            control_type: ControlTypes::Handshake(
                HandshakeControlInfo {
                    syn_cookie: cookie,
                    socket_id: local_socket_id,
                    info: HandshakeVSInfo::V5 {
                        crypto_size: shake.info->crypto_size,
                        ext_hs: Some(
                            SrtControlPacket::HandshakeResponse(SrtHandshake { latency, ..request }),
                        ),
                        ext_km: None,
                        ext_config: None,
                    },
                    ..shake
                },
            ),
        },
    )
}

/// What a packet from `from_second` means to a listener that awaits the
/// conclusion from `from`.
///
/// Anything but the awaited conclusion is discarded.  The awaited
/// conclusion is rejected if it declares a version other than 5, or
/// carries no handshake request; else it is accepted, with the larger of
/// the requested and the configured latency.
pub open spec fn conclusion_of(
    packet: Packet,
    from_second: Address,
    cookie: i32,
    local_socket_id: SocketID,
    tsbpd_latency: Latency,
    from: Address,
) -> ConclusionStep {
    if !is_awaited_conclusion(packet, from_second, cookie, local_socket_id, from) {
        ConclusionStep::Discard
    } else {
        let (control, shake) = packet.spec_handshake()->0;
        if shake.info.spec_version() != 5 {
            ConclusionStep::Reject(ListenError::VersionMismatch)
        } else {
            match shake.info.spec_handshake_request() {
                None => ConclusionStep::Reject(ListenError::MissingHandshakeRequest),
                Some(request) => {
                    let latency = larger(request.latency, tsbpd_latency);
                    ConclusionStep::Accept(
                        Conclusion {
                            latency,
                            timestamp: control.timestamp,
                            shake,
                            response: conclusion_response(
                                control.timestamp,
                                shake,
                                request,
                                cookie,
                                local_socket_id,
                                latency,
                            ),
                        },
                    )
                },
            }
        }
    }
}

/// Judges one packet that arrives while the conclusion is awaited.
pub fn conclusion_step(
    packet: &Packet,
    from_second: &Address,
    cookie: i32,
    local_socket_id: SocketID,
    tsbpd_latency: Latency,
    from: &Address,
) -> (r: ConclusionStep)
    ensures
        r == conclusion_of(*packet, *from_second, cookie, local_socket_id, tsbpd_latency, *from),
{
    let (control, shake) = match packet.handshake() {
        Some(pair) => pair,
        None => {
            return ConclusionStep::Discard;
        },
    };
    if *from_second != *from || control.dest_sockid != local_socket_id {
        return ConclusionStep::Discard;
    }
    if shake.shake_type != ShakeType::Conclusion {
        return ConclusionStep::Discard;
    }
    if shake.syn_cookie != cookie {
        return ConclusionStep::Discard;
    }
    match shake.info {
        HandshakeVSInfo::V4(_) => ConclusionStep::Reject(ListenError::VersionMismatch),
        HandshakeVSInfo::V5 {
            crypto_size,
            ext_hs: Some(SrtControlPacket::HandshakeRequest(request)),
            ..
        } => {
            let latency = request.latency.max(tsbpd_latency);
            let response = Packet::Control(
                ControlPacket {
                    timestamp: control.timestamp,
                    dest_sockid: shake.socket_id,
                    control_type: ControlTypes::Handshake(
                        HandshakeControlInfo {
                            syn_cookie: cookie,
                            socket_id: local_socket_id,
                            info: HandshakeVSInfo::V5 {
                                crypto_size,
                                ext_hs: Some(
                                    SrtControlPacket::HandshakeResponse(
                                        SrtHandshake { latency, ..request },
                                    ),
                                ),
                                ext_km: None,
                                ext_config: None,
                            },
                            ..shake
                        },
                    ),
                },
            );
            ConclusionStep::Accept(
                Conclusion { latency, timestamp: control.timestamp, shake, response },
            )
        },
        HandshakeVSInfo::V5 { .. } => ConclusionStep::Reject(ListenError::MissingHandshakeRequest),
    }
}

/// Where the first handshake stands among the arrivals `inbound`, from
/// place `start` on; the number of arrivals if there is none.
pub open spec fn next_handshake(inbound: Seq<(Packet, Address)>, start: int) -> int
    decreases inbound.len() - start,
{
    if start < 0 || start >= inbound.len() {
        inbound.len() as int
    } else if inbound[start].0.is_handshake() {
        start
    } else {
        next_handshake(inbound, start + 1)
    }
}

/// Where the first arrival stands, from place `start` on, that a
/// listener awaiting the conclusion from `from` does not discard; the
/// number of arrivals if there is none.
pub open spec fn next_decisive(
    inbound: Seq<(Packet, Address)>,
    start: int,
    cookie: i32,
    local_socket_id: SocketID,
    tsbpd_latency: Latency,
    from: Address,
) -> int
    decreases inbound.len() - start,
{
    if start < 0 || start >= inbound.len() {
        inbound.len() as int
    } else if conclusion_of(
        inbound[start].0,
        inbound[start].1,
        cookie,
        local_socket_id,
        tsbpd_latency,
        from,
    ) != ConclusionStep::Discard {
        start
    } else {
        next_decisive(inbound, start + 1, cookie, local_socket_id, tsbpd_latency, from)
    }
}

/// Waits for induction: reads arrivals until a handshake comes, answers
/// it with the cookie of its sender, and returns the cookie and the
/// sender's address.
///
/// Arrivals before that handshake are read and dropped.  If the channel
/// ends first, all of it has been read, nothing has been sent, and the
/// result is `ChannelClosed`.
pub fn get_handshake(sock: &mut Channel) -> (r: Result<(i32, Address), ListenError>)
    ensures
        final(sock).inbound() == old(sock).inbound(),
        ({
            let inbound = old(sock).inbound();
            let at = next_handshake(inbound, old(sock).position());
            if at < inbound.len() {
                let induction = induction_of(inbound[at].0, inbound[at].1)->0;
                &&& r == Ok::<(i32, Address), ListenError>((induction.cookie, induction.from))
                &&& final(sock).position() == at + 1
                &&& final(sock).outbound() == old(sock).outbound().push(
                    (induction.response, induction.from),
                )
            } else {
                &&& r == Err::<(i32, Address), ListenError>(ListenError::ChannelClosed)
                &&& final(sock).position() == inbound.len()
                &&& final(sock).outbound() == old(sock).outbound()
            }
        }),
{
    let ghost inbound = sock.inbound();
    let ghost start = sock.position();
    let ghost sent = sock.outbound();
    proof {
        sock.position_in_bounds();
    }
    loop
        invariant
            inbound == old(sock).inbound(),
            start == old(sock).position(),
            sent == old(sock).outbound(),
            sock.inbound() == inbound,
            sock.outbound() == sent,
            0 <= start <= sock.position() <= inbound.len(),
            next_handshake(inbound, start) == next_handshake(inbound, sock.position()),
        decreases inbound.len() - sock.position(),
    {
        match sock.recv() {
            None => {
                return Err(ListenError::ChannelClosed);
            },
            Some((packet, from)) => {
                match induction_step(&packet, &from) {
                    Some(induction) => {
                        sock.send(induction.response, induction.from);
                        return Ok((induction.cookie, induction.from));
                    },
                    None => {},
                }
            },
        }
    }
}

/// Waits for the conclusion: reads arrivals until one is the awaited
/// conclusion, and answers it if it can be accepted.
///
/// Arrivals that are discarded are read and dropped, and leave nothing
/// behind.  An accepted conclusion is answered to `from`, and its outcome
/// returned.  A rejected one ends the wait with its error, unanswered.
/// If the channel ends first, the result is `ChannelClosed`.
pub fn get_conclusion(
    sock: &mut Channel,
    cookie: i32,
    local_socket_id: SocketID,
    tsbpd_latency: Latency,
    from: &Address,
) -> (r: Result<Conclusion, ListenError>)
    ensures
        final(sock).inbound() == old(sock).inbound(),
        ({
            let inbound = old(sock).inbound();
            let at = next_decisive(
                inbound,
                old(sock).position(),
                cookie,
                local_socket_id,
                tsbpd_latency,
                *from,
            );
            if at < inbound.len() {
                &&& final(sock).position() == at + 1
                &&& match conclusion_of(
                    inbound[at].0,
                    inbound[at].1,
                    cookie,
                    local_socket_id,
                    tsbpd_latency,
                    *from,
                ) {
                    ConclusionStep::Accept(conclusion) => {
                        &&& r == Ok::<Conclusion, ListenError>(conclusion)
                        &&& final(sock).outbound() == old(sock).outbound().push(
                            (conclusion.response, *from),
                        )
                    },
                    ConclusionStep::Reject(error) => {
                        &&& r == Err::<Conclusion, ListenError>(error)
                        &&& final(sock).outbound() == old(sock).outbound()
                    },
                    ConclusionStep::Discard => false,
                }
            } else {
                &&& r == Err::<Conclusion, ListenError>(ListenError::ChannelClosed)
                &&& final(sock).position() == inbound.len()
                &&& final(sock).outbound() == old(sock).outbound()
            }
        }),
{
    let ghost inbound = sock.inbound();
    let ghost start = sock.position();
    let ghost sent = sock.outbound();
    proof {
        sock.position_in_bounds();
    }
    loop
        invariant
            inbound == old(sock).inbound(),
            start == old(sock).position(),
            sent == old(sock).outbound(),
            sock.inbound() == inbound,
            sock.outbound() == sent,
            0 <= start <= sock.position() <= inbound.len(),
            next_decisive(inbound, start, cookie, local_socket_id, tsbpd_latency, *from)
                == next_decisive(
                inbound,
                sock.position(),
                cookie,
                local_socket_id,
                tsbpd_latency,
                *from,
            ),
        decreases inbound.len() - sock.position(),
    {
        match sock.recv() {
            None => {
                return Err(ListenError::ChannelClosed);
            },
            Some((packet, from_second)) => {
                match conclusion_step(
                    &packet,
                    &from_second,
                    cookie,
                    local_socket_id,
                    tsbpd_latency,
                    from,
                ) {
                    ConclusionStep::Discard => {},
                    ConclusionStep::Reject(error) => {
                        return Err(error);
                    },
                    ConclusionStep::Accept(conclusion) => {
                        sock.send(conclusion.response, *from);
                        return Ok(conclusion);
                    },
                }
            },
        }
    }
}

/// Stamps the start of the session that `conclusion` sets up with
/// `remote`, and assembles its settings.
///
/// The start is read from the clock now, when the handshake is complete,
/// not when the requester first called.  The settings are those of
/// `settings_of` at whatever instant the clock gave.
pub fn establish(conclusion: &Conclusion, remote: Address, local_socket_id: SocketID) -> (s:
    ConnectionSettings)
    ensures
        s == settings_of(
            conclusion.shake,
            remote,
            local_socket_id,
            conclusion.latency,
            conclusion.response,
            s.socket_start_time,
        ),
{
    let start = now();
    ConnectionSettings::new(
        &conclusion.shake,
        remote,
        local_socket_id,
        conclusion.latency,
        conclusion.response,
        start,
    )
}

/// How a whole handshake on a channel ends.
///
/// `inbound` is what arrives, read from place `start` on, and `sent` what
/// had been sent before.  The first handshake is answered with the
/// cookie of its sender; from then on the first arrival that is not
/// discarded decides.  `position` and `outbound` are the channel's state
/// afterwards and `r` is the result.
pub open spec fn listen_outcome(
    inbound: Seq<(Packet, Address)>,
    start: int,
    sent: Seq<(Packet, Address)>,
    local_socket_id: SocketID,
    tsbpd_latency: Latency,
    position: int,
    outbound: Seq<(Packet, Address)>,
    r: Result<ConnectionSettings, ListenError>,
) -> bool {
    let first = next_handshake(inbound, start);
    if first >= inbound.len() {
        &&& r == Err::<ConnectionSettings, ListenError>(ListenError::ChannelClosed)
        &&& position == inbound.len()
        &&& outbound == sent
    } else {
        let induction = induction_of(inbound[first].0, inbound[first].1)->0;
        let induced = sent.push((induction.response, induction.from));
        let second = next_decisive(
            inbound,
            first + 1,
            induction.cookie,
            local_socket_id,
            tsbpd_latency,
            induction.from,
        );
        if second >= inbound.len() {
            &&& r == Err::<ConnectionSettings, ListenError>(ListenError::ChannelClosed)
            &&& position == inbound.len()
            &&& outbound == induced
        } else {
            &&& position == second + 1
            &&& match conclusion_of(
                inbound[second].0,
                inbound[second].1,
                induction.cookie,
                local_socket_id,
                tsbpd_latency,
                induction.from,
            ) {
                ConclusionStep::Accept(conclusion) => {
                    &&& r is Ok
                    &&& r->Ok_0 == settings_of(
                        conclusion.shake,
                        induction.from,
                        local_socket_id,
                        conclusion.latency,
                        conclusion.response,
                        r->Ok_0.socket_start_time,
                    )
                    &&& outbound == induced.push((conclusion.response, induction.from))
                },
                ConclusionStep::Reject(error) => {
                    &&& r == Err::<ConnectionSettings, ListenError>(error)
                    &&& outbound == induced
                },
                ConclusionStep::Discard => false,
            }
        }
    }
}

/// Runs one handshake on `sock`: induction, then conclusion, then the
/// settings of the session, with `local_socket_id` as this end's socket
/// and `tsbpd_latency` as the latency this end is configured with.
///
/// Only a rejected conclusion or the end of the channel makes it fail;
/// packets that do not belong to the exchange are passed over.
pub fn listen(sock: &mut Channel, local_socket_id: SocketID, tsbpd_latency: Latency) -> (r: Result<
    ConnectionSettings,
    ListenError,
>)
    ensures
        final(sock).inbound() == old(sock).inbound(),
        listen_outcome(
            old(sock).inbound(),
            old(sock).position(),
            old(sock).outbound(),
            local_socket_id,
            tsbpd_latency,
            final(sock).position(),
            final(sock).outbound(),
            r,
        ),
{
    proof {
        sock.position_in_bounds();
    }
    let (cookie, from) = match get_handshake(sock) {
        Ok(pair) => pair,
        Err(error) => {
            return Err(error);
        },
    };
    let conclusion = match get_conclusion(sock, cookie, local_socket_id, tsbpd_latency, &from) {
        Ok(conclusion) => conclusion,
        Err(error) => {
            return Err(error);
        },
    };
    Ok(establish(&conclusion, from, local_socket_id))
}

} // verus!
