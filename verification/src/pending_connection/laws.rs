//! What holds of the handshake, proved from the definitions in
//! `listen`.

use crate::address::Address;
use crate::cookie::cookie_of;
use crate::latency::{larger, Latency};
use crate::packet::{
    HandshakeControlInfo, HandshakeVSInfo, Packet, ShakeType, SocketID, SrtControlPacket,
    SrtHandshake,
};
use crate::pending_connection::listen::{
    conclusion_of, induction_of, is_awaited_conclusion, listen_outcome, next_decisive,
    next_handshake, ConclusionStep, ListenError,
};
use crate::settings::{ConnectionSettings, MAX_FLOW_SIZE};
use vstd::prelude::*;

verus! {

/// A packet that echoes another cookie than the one issued is discarded,
/// whoever sent it and whatever else it holds.
pub proof fn wrong_cookie_is_discarded(
    packet: Packet,
    from_second: Address,
    cookie: i32,
    local_socket_id: SocketID,
    tsbpd_latency: Latency,
    from: Address,
)
    requires
        packet.spec_handshake() is Some,
        packet.shake().syn_cookie != cookie,
    ensures
        conclusion_of(packet, from_second, cookie, local_socket_id, tsbpd_latency, from)
            == ConclusionStep::Discard,
{
}

/// A packet from another address than the one that asked for induction
/// is discarded, even if it echoes the cookie.
pub proof fn wrong_address_is_discarded(
    packet: Packet,
    from_second: Address,
    cookie: i32,
    local_socket_id: SocketID,
    tsbpd_latency: Latency,
    from: Address,
)
    requires
        from_second != from,
    ensures
        conclusion_of(packet, from_second, cookie, local_socket_id, tsbpd_latency, from)
            == ConclusionStep::Discard,
{
}

/// A handshake of another phase than conclusion is discarded, even from
/// the right address and with the right cookie.
pub proof fn wrong_shake_type_is_discarded(
    packet: Packet,
    from_second: Address,
    cookie: i32,
    local_socket_id: SocketID,
    tsbpd_latency: Latency,
    from: Address,
)
    requires
        packet.spec_handshake() is Some,
        packet.shake().shake_type != ShakeType::Conclusion,
    ensures
        conclusion_of(packet, from_second, cookie, local_socket_id, tsbpd_latency, from)
            == ConclusionStep::Discard,
{
}

/// A packet meant for another socket than the listener's is discarded.
pub proof fn wrong_socket_is_discarded(
    packet: Packet,
    from_second: Address,
    cookie: i32,
    local_socket_id: SocketID,
    tsbpd_latency: Latency,
    from: Address,
)
    requires
        packet.spec_handshake() is Some,
        packet.control().dest_sockid != local_socket_id,
    ensures
        conclusion_of(packet, from_second, cookie, local_socket_id, tsbpd_latency, from)
            == ConclusionStep::Discard,
{
}

/// A packet that is no handshake is discarded in both phases.
pub proof fn other_packet_is_discarded(
    packet: Packet,
    from_second: Address,
    cookie: i32,
    local_socket_id: SocketID,
    tsbpd_latency: Latency,
    from: Address,
)
    requires
        !packet.is_handshake(),
    ensures
        induction_of(packet, from_second) is None,
        conclusion_of(packet, from_second, cookie, local_socket_id, tsbpd_latency, from)
            == ConclusionStep::Discard,
{
}

/// The awaited conclusion is rejected for its version if it declares
/// version 4.
pub proof fn version_four_is_rejected(
    packet: Packet,
    from_second: Address,
    cookie: i32,
    local_socket_id: SocketID,
    tsbpd_latency: Latency,
    from: Address,
)
    requires
        is_awaited_conclusion(packet, from_second, cookie, local_socket_id, from),
        packet.shake().info is V4,
    ensures
        conclusion_of(packet, from_second, cookie, local_socket_id, tsbpd_latency, from)
            == ConclusionStep::Reject(ListenError::VersionMismatch),
{
}

/// The awaited conclusion is rejected if it carries no handshake
/// request: for the missing request if it is of version 5, for its
/// version otherwise.
pub proof fn missing_request_is_rejected(
    packet: Packet,
    from_second: Address,
    cookie: i32,
    local_socket_id: SocketID,
    tsbpd_latency: Latency,
    from: Address,
)
    requires
        is_awaited_conclusion(packet, from_second, cookie, local_socket_id, from),
        packet.shake().info.spec_handshake_request() is None,
    ensures
        conclusion_of(packet, from_second, cookie, local_socket_id, tsbpd_latency, from)
            is Reject,
        packet.shake().info is V5 ==> conclusion_of(
            packet,
            from_second,
            cookie,
            local_socket_id,
            tsbpd_latency,
            from,
        ) == ConclusionStep::Reject(ListenError::MissingHandshakeRequest),
{
}

/// A conclusion is accepted only after it has been checked: it is a
/// handshake of the conclusion phase, from the address that asked for
/// induction, meant for the listener's socket, it echoes the cookie, and
/// it is of version 5 with a handshake request.
pub proof fn accepted_conclusion_was_checked(
    packet: Packet,
    from_second: Address,
    cookie: i32,
    local_socket_id: SocketID,
    tsbpd_latency: Latency,
    from: Address,
)
    requires
        conclusion_of(packet, from_second, cookie, local_socket_id, tsbpd_latency, from)
            is Accept,
    ensures
        packet.spec_handshake() is Some,
        from_second == from,
        packet.control().dest_sockid == local_socket_id,
        packet.shake().shake_type == ShakeType::Conclusion,
        packet.shake().syn_cookie == cookie,
        packet.shake().info.spec_version() == 5,
        packet.shake().info.spec_handshake_request() is Some,
{
}

/// The latency of an accepted conclusion is the larger of the requested
/// and the configured one, and the response grants exactly that latency
/// in a handshake response that keeps the request's other fields.
pub proof fn accepted_latency_is_the_larger(
    packet: Packet,
    from_second: Address,
    cookie: i32,
    local_socket_id: SocketID,
    tsbpd_latency: Latency,
    from: Address,
)
    requires
        conclusion_of(packet, from_second, cookie, local_socket_id, tsbpd_latency, from)
            is Accept,
    ensures
        ({
            let accepted = conclusion_of(
                packet,
                from_second,
                cookie,
                local_socket_id,
                tsbpd_latency,
                from,
            )->Accept_0;
            let request = packet.shake().info.spec_handshake_request()->0;
            let answer = accepted.response.shake();
            &&& accepted.latency.nanos >= request.latency.nanos
            &&& accepted.latency.nanos >= tsbpd_latency.nanos
            &&& accepted.latency == request.latency || accepted.latency == tsbpd_latency
            &&& accepted.response.spec_handshake() is Some
            &&& answer.info == (HandshakeVSInfo::V5 {
                crypto_size: packet.shake().info->crypto_size,
                ext_hs: Some(
                    SrtControlPacket::HandshakeResponse(
                        SrtHandshake { latency: accepted.latency, ..request },
                    ),
                ),
                ext_km: None,
                ext_config: None,
            })
            &&& answer.syn_cookie == cookie
            &&& answer.socket_id == local_socket_id
            &&& accepted.response.control().dest_sockid == packet.shake().socket_id
        }),
{
}

/// The answer to an induction is a handshake of version 5 with empty
/// extension slots and no crypto block, which carries the cookie of its
/// sender and is otherwise the request.
pub proof fn induction_answer_is_version_five(packet: Packet, from: Address)
    requires
        packet.is_handshake(),
    ensures
        ({
            let induction = induction_of(packet, from)->0;
            let request = packet.shake();
            let answer = induction.response.shake();
            &&& induction_of(packet, from) is Some
            &&& induction.cookie == cookie_of(from)
            &&& induction.from == from
            &&& induction.response.spec_handshake() is Some
            &&& answer.syn_cookie == cookie_of(from)
            &&& answer.info.spec_version() == 5
            &&& answer.info == (HandshakeVSInfo::V5 {
                crypto_size: 0,
                ext_hs: None,
                ext_km: None,
                ext_config: None,
            })
            &&& answer == (HandshakeControlInfo {
                syn_cookie: answer.syn_cookie,
                info: answer.info,
                ..request
            })
        }),
{
}

/// `next_handshake` is the least place from `start` on that holds a
/// handshake: every place before it holds none, and it lies within the
/// arrivals if and only if some place from `start` on holds one.
pub proof fn next_handshake_is_first(inbound: Seq<(Packet, Address)>, start: int)
    requires
        0 <= start <= inbound.len(),
    ensures
        start <= next_handshake(inbound, start) <= inbound.len(),
        forall|i: int|
            start <= i < next_handshake(inbound, start) ==> !(#[trigger] inbound[i]).0.is_handshake(),
        next_handshake(inbound, start) < inbound.len() ==> inbound[next_handshake(
            inbound,
            start,
        )].0.is_handshake(),
    decreases inbound.len() - start,
{
    if start < inbound.len() && !inbound[start].0.is_handshake() {
        next_handshake_is_first(inbound, start + 1);
    }
}

/// `next_decisive` is the least place from `start` on that holds an
/// arrival which is not discarded: every place before it holds one that
/// is.
pub proof fn next_decisive_is_first(
    inbound: Seq<(Packet, Address)>,
    start: int,
    cookie: i32,
    local_socket_id: SocketID,
    tsbpd_latency: Latency,
    from: Address,
)
    requires
        0 <= start <= inbound.len(),
    ensures
        ({
            let at = next_decisive(inbound, start, cookie, local_socket_id, tsbpd_latency, from);
            &&& start <= at <= inbound.len()
            &&& forall|i: int|
                start <= i < at ==> conclusion_of(
                    (#[trigger] inbound[i]).0,
                    inbound[i].1,
                    cookie,
                    local_socket_id,
                    tsbpd_latency,
                    from,
                ) == ConclusionStep::Discard
            &&& at < inbound.len() ==> conclusion_of(
                inbound[at].0,
                inbound[at].1,
                cookie,
                local_socket_id,
                tsbpd_latency,
                from,
            ) != ConclusionStep::Discard
        }),
    decreases inbound.len() - start,
{
    if start < inbound.len() && conclusion_of(
        inbound[start].0,
        inbound[start].1,
        cookie,
        local_socket_id,
        tsbpd_latency,
        from,
    ) == ConclusionStep::Discard {
        next_decisive_is_first(inbound, start + 1, cookie, local_socket_id, tsbpd_latency, from);
    }
}

/// A discarded arrival changes nothing for what follows: the wait goes
/// on with the next arrival as if the discarded one had never come, so a
/// correct conclusion behind it is still accepted.
pub proof fn discarded_arrival_is_passed_over(
    inbound: Seq<(Packet, Address)>,
    start: int,
    cookie: i32,
    local_socket_id: SocketID,
    tsbpd_latency: Latency,
    from: Address,
)
    requires
        0 <= start < inbound.len(),
        conclusion_of(
            inbound[start].0,
            inbound[start].1,
            cookie,
            local_socket_id,
            tsbpd_latency,
            from,
        ) == ConclusionStep::Discard,
    ensures
        next_decisive(inbound, start, cookie, local_socket_id, tsbpd_latency, from)
            == next_decisive(inbound, start + 1, cookie, local_socket_id, tsbpd_latency, from),
{
}

/// Where the arrival stands that decides a whole handshake read from
/// place `start` on: the first one behind the first handshake that is not
/// discarded.  The number of arrivals if the channel ends before.
pub open spec fn deciding_place(
    inbound: Seq<(Packet, Address)>,
    start: int,
    local_socket_id: SocketID,
    tsbpd_latency: Latency,
) -> int {
    let first = next_handshake(inbound, start);
    if first >= inbound.len() {
        inbound.len() as int
    } else {
        next_decisive(
            inbound,
            first + 1,
            cookie_of(inbound[first].1),
            local_socket_id,
            tsbpd_latency,
            inbound[first].1,
        )
    }
}

/// A handshake fails for its version if the arrival that decides it
/// declares version 4.
pub proof fn listen_fails_on_version_four(
    inbound: Seq<(Packet, Address)>,
    start: int,
    sent: Seq<(Packet, Address)>,
    local_socket_id: SocketID,
    tsbpd_latency: Latency,
    position: int,
    outbound: Seq<(Packet, Address)>,
    r: Result<ConnectionSettings, ListenError>,
)
    requires
        0 <= start <= inbound.len(),
        listen_outcome(
            inbound,
            start,
            sent,
            local_socket_id,
            tsbpd_latency,
            position,
            outbound,
            r,
        ),
        deciding_place(inbound, start, local_socket_id, tsbpd_latency) < inbound.len(),
        inbound[deciding_place(
            inbound,
            start,
            local_socket_id,
            tsbpd_latency,
        )].0.shake().info is V4,
    ensures
        r == Err::<ConnectionSettings, ListenError>(ListenError::VersionMismatch),
{
    let first = next_handshake(inbound, start);
    next_handshake_is_first(inbound, start);
    next_decisive_is_first(
        inbound,
        first + 1,
        cookie_of(inbound[first].1),
        local_socket_id,
        tsbpd_latency,
        inbound[first].1,
    );
}

/// A handshake fails if the arrival that decides it carries no
/// handshake request.
pub proof fn listen_fails_on_missing_request(
    inbound: Seq<(Packet, Address)>,
    start: int,
    sent: Seq<(Packet, Address)>,
    local_socket_id: SocketID,
    tsbpd_latency: Latency,
    position: int,
    outbound: Seq<(Packet, Address)>,
    r: Result<ConnectionSettings, ListenError>,
)
    requires
        0 <= start <= inbound.len(),
        listen_outcome(
            inbound,
            start,
            sent,
            local_socket_id,
            tsbpd_latency,
            position,
            outbound,
            r,
        ),
        deciding_place(inbound, start, local_socket_id, tsbpd_latency) < inbound.len(),
        inbound[deciding_place(
            inbound,
            start,
            local_socket_id,
            tsbpd_latency,
        )].0.shake().info.spec_handshake_request() is None,
    ensures
        r is Err,
        r->Err_0 == ListenError::VersionMismatch || r->Err_0
            == ListenError::MissingHandshakeRequest,
        inbound[deciding_place(inbound, start, local_socket_id, tsbpd_latency)].0.shake().info
            is V5 ==> r->Err_0 == ListenError::MissingHandshakeRequest,
{
    let first = next_handshake(inbound, start);
    next_handshake_is_first(inbound, start);
    next_decisive_is_first(
        inbound,
        first + 1,
        cookie_of(inbound[first].1),
        local_socket_id,
        tsbpd_latency,
        inbound[first].1,
    );
}

/// A session that was set up matches the handshake behind it.
///
/// Its remote address is the sender of the first handshake, and the
/// deciding arrival is a checked conclusion from that address: its
/// socket identifier, sequence number and packet size are the session's,
/// the latency is the larger of the requested and the configured one,
/// and the packet kept for repeated conclusions is the response that was
/// sent last, which grants that latency.
pub proof fn established_session_matches_handshake(
    inbound: Seq<(Packet, Address)>,
    start: int,
    sent: Seq<(Packet, Address)>,
    local_socket_id: SocketID,
    tsbpd_latency: Latency,
    position: int,
    outbound: Seq<(Packet, Address)>,
    r: Result<ConnectionSettings, ListenError>,
)
    requires
        0 <= start <= inbound.len(),
        listen_outcome(
            inbound,
            start,
            sent,
            local_socket_id,
            tsbpd_latency,
            position,
            outbound,
            r,
        ),
        r is Ok,
    ensures
        ({
            let first = next_handshake(inbound, start);
            let second = deciding_place(inbound, start, local_socket_id, tsbpd_latency);
            let remote = inbound[first].1;
            let shake = inbound[second].0.shake();
            let settings = r->Ok_0;
            let response = settings.handshake_returner.response;
            &&& start <= first < second < inbound.len()
            &&& is_awaited_conclusion(
                inbound[second].0,
                inbound[second].1,
                cookie_of(remote),
                local_socket_id,
                remote,
            )
            &&& shake.info.spec_handshake_request() is Some
            &&& settings.remote == remote
            &&& settings.remote_sockid == shake.socket_id
            &&& settings.init_seq_num == shake.init_seq_num
            &&& settings.max_packet_size == shake.max_packet_size
            &&& settings.max_flow_size == MAX_FLOW_SIZE
            &&& settings.local_sockid == local_socket_id
            &&& settings.tsbpd_latency == larger(
                shake.info.spec_handshake_request()->0.latency,
                tsbpd_latency,
            )
            &&& outbound.len() == sent.len() + 2
            &&& outbound.last() == (response, remote)
            &&& response.is_handshake()
            &&& response.shake().info->ext_hs == Some(
                SrtControlPacket::HandshakeResponse(
                    SrtHandshake {
                        latency: settings.tsbpd_latency,
                        ..shake.info.spec_handshake_request()->0
                    },
                ),
            )
        }),
{
    let first = next_handshake(inbound, start);
    next_handshake_is_first(inbound, start);
    next_decisive_is_first(
        inbound,
        first + 1,
        cookie_of(inbound[first].1),
        local_socket_id,
        tsbpd_latency,
        inbound[first].1,
    );
}

} // verus!
