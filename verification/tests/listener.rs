use srt_listener::address::{Address, IpAddress};
use srt_listener::channel::Channel;
use srt_listener::cookie::cookie;
use srt_listener::latency::Latency;
use srt_listener::listen;
use srt_listener::packet::{
    ControlPacket, ControlTypes, DataPacket, HandshakeControlInfo, HandshakeVSInfo, Packet,
    SeqNumber, ShakeType, SocketID, SocketType, SrtControlPacket, SrtHandshake, SrtVersion,
};
use srt_listener::pending_connection::listen::ListenError;
use srt_listener::pending_connection::listener::{ListenAction, ListenState, Listener};

const LOCAL: SocketID = SocketID(42);
const S: SocketID = SocketID(1_000_001);

fn x() -> Address {
    Address::V6 { ip: 0x2001_0db8 << 96 | 0x17, port: 2000, flowinfo: 0, scope_id: 0 }
}

fn y() -> Address {
    Address::V4 { ip: 0x0a01_0203, port: 2000 }
}

fn body(shake_type: ShakeType, syn_cookie: i32, info: HandshakeVSInfo) -> HandshakeControlInfo {
    HandshakeControlInfo {
        init_seq_num: SeqNumber(31_337),
        max_packet_size: 1500,
        max_flow_size: 25_600,
        shake_type,
        socket_id: S,
        syn_cookie,
        peer_addr: IpAddress::V6(0x17),
        info,
    }
}

fn packet(timestamp: i32, dest_sockid: SocketID, shake: HandshakeControlInfo) -> Packet {
    Packet::Control(ControlPacket {
        timestamp,
        dest_sockid,
        control_type: ControlTypes::Handshake(shake),
    })
}

fn induction() -> Packet {
    packet(
        100,
        SocketID(0),
        body(ShakeType::Induction, 0, HandshakeVSInfo::V4(SocketType::Datagram)),
    )
}

fn hs_request(latency_ms: u64) -> SrtHandshake {
    SrtHandshake {
        version: SrtVersion { major: 1, minor: 4, patch: 0 },
        flags: 0x3f,
        peer_latency: Latency::from_millis(0),
        latency: Latency::from_millis(latency_ms),
    }
}

fn with_request(latency_ms: u64) -> HandshakeVSInfo {
    HandshakeVSInfo::V5 {
        crypto_size: 0,
        ext_hs: Some(SrtControlPacket::HandshakeRequest(hs_request(latency_ms))),
        ext_km: None,
        ext_config: None,
    }
}

fn conclusion(syn_cookie: i32, latency_ms: u64) -> Packet {
    packet(200, LOCAL, body(ShakeType::Conclusion, syn_cookie, with_request(latency_ms)))
}

fn noise() -> Packet {
    Packet::Data(DataPacket { seq_number: SeqNumber(1), timestamp: 0, dest_sockid: LOCAL })
}

fn granted_latency(response: &Packet) -> Latency {
    match response.handshake() {
        Some((
            _,
            HandshakeControlInfo {
                info:
                    HandshakeVSInfo::V5 {
                        ext_hs: Some(SrtControlPacket::HandshakeResponse(granted)),
                        ..
                    },
                ..
            },
        )) => granted.latency,
        other => panic!("no handshake response in {:?}", other),
    }
}

fn awaiting_conclusion(configured_ms: u64) -> Listener {
    let mut listener = Listener::new(LOCAL, Latency::from_millis(configured_ms));
    match listener.handle_packet(&induction(), &x()) {
        ListenAction::Send { .. } => {}
        other => panic!("induction not answered: {:?}", other),
    }
    listener
}

#[test]
fn new_listener_awaits_induction() {
    let listener = Listener::new(LOCAL, Latency::from_millis(120));
    assert_eq!(listener.state, ListenState::AwaitingInduction);
    assert_eq!(listener.local_socket_id, LOCAL);
    assert_eq!(listener.tsbpd_latency, Latency::from_millis(120));
    assert!(listener.is_waiting());
}

#[test]
fn listener_ignores_noise_before_induction() {
    let mut listener = Listener::new(LOCAL, Latency::from_millis(120));
    assert!(matches!(listener.handle_packet(&noise(), &x()), ListenAction::Discard));
    assert_eq!(listener, Listener::new(LOCAL, Latency::from_millis(120)));
}

#[test]
fn listener_issues_cookie_and_awaits_conclusion() {
    let mut listener = Listener::new(LOCAL, Latency::from_millis(120));
    match listener.handle_packet(&induction(), &x()) {
        ListenAction::Send { packet, to } => {
            assert_eq!(to, x());
            let (control, shake) = packet.handshake().unwrap();
            assert_eq!(control.timestamp, 100);
            assert_eq!(control.dest_sockid, S);
            assert_eq!(shake.syn_cookie, cookie(&x()));
            assert_eq!(shake.socket_id, S);
            assert_eq!(shake.info.version(), 5);
        }
        other => panic!("induction not answered: {:?}", other),
    }
    assert_eq!(
        listener.state,
        ListenState::AwaitingConclusion { cookie: cookie(&x()), from: x() }
    );
    assert!(listener.is_waiting());
}

#[test]
fn wrong_cookie_leaves_listener_waiting_for_the_right_one() {
    let mut listener = awaiting_conclusion(120);
    let waiting = listener;
    let wrong = cookie(&x()) ^ 0x40;
    assert!(matches!(
        listener.handle_packet(&conclusion(wrong, 200), &x()),
        ListenAction::Discard
    ));
    assert_eq!(listener, waiting);
    assert!(listener.is_waiting());
    match listener.handle_packet(&conclusion(cookie(&x()), 200), &x()) {
        ListenAction::Connect { to, settings, .. } => {
            assert_eq!(to, x());
            assert_eq!(settings.remote, x());
        }
        other => panic!("conclusion not accepted: {:?}", other),
    }
    assert_eq!(listener.state, ListenState::Established);
}

#[test]
fn wrong_address_leaves_listener_waiting() {
    let mut listener = awaiting_conclusion(120);
    let waiting = listener;
    assert!(matches!(
        listener.handle_packet(&conclusion(cookie(&x()), 200), &y()),
        ListenAction::Discard
    ));
    assert_eq!(listener, waiting);
    // Not even with the cookie that would belong to the other address.
    assert!(matches!(
        listener.handle_packet(&conclusion(cookie(&y()), 200), &y()),
        ListenAction::Discard
    ));
    assert_eq!(listener, waiting);
}

#[test]
fn wrong_phase_leaves_listener_waiting() {
    let mut listener = awaiting_conclusion(120);
    let waiting = listener;
    let again = packet(150, LOCAL, body(ShakeType::Induction, cookie(&x()), with_request(200)));
    assert!(matches!(listener.handle_packet(&again, &x()), ListenAction::Discard));
    assert_eq!(listener, waiting);
    assert!(matches!(listener.handle_packet(&noise(), &x()), ListenAction::Discard));
    assert_eq!(listener, waiting);
}

#[test]
fn version_four_fails_the_listener_for_good() {
    let mut listener = awaiting_conclusion(120);
    let v4 = packet(
        200,
        LOCAL,
        body(ShakeType::Conclusion, cookie(&x()), HandshakeVSInfo::V4(SocketType::Datagram)),
    );
    assert!(matches!(
        listener.handle_packet(&v4, &x()),
        ListenAction::Fail(ListenError::VersionMismatch)
    ));
    assert_eq!(listener.state, ListenState::Failed(ListenError::VersionMismatch));
    assert!(!listener.is_waiting());
    assert!(matches!(
        listener.handle_packet(&conclusion(cookie(&x()), 200), &x()),
        ListenAction::Discard
    ));
    assert_eq!(listener.state, ListenState::Failed(ListenError::VersionMismatch));
}

#[test]
fn missing_request_fails_the_listener() {
    let mut listener = awaiting_conclusion(120);
    let bare = packet(
        200,
        LOCAL,
        body(
            ShakeType::Conclusion,
            cookie(&x()),
            HandshakeVSInfo::V5 { crypto_size: 0, ext_hs: None, ext_km: None, ext_config: None },
        ),
    );
    assert!(matches!(
        listener.handle_packet(&bare, &x()),
        ListenAction::Fail(ListenError::MissingHandshakeRequest)
    ));
    assert_eq!(listener.state, ListenState::Failed(ListenError::MissingHandshakeRequest));
}

#[test]
fn established_listener_discards_everything() {
    let mut listener = awaiting_conclusion(120);
    assert!(matches!(
        listener.handle_packet(&conclusion(cookie(&x()), 200), &x()),
        ListenAction::Connect { .. }
    ));
    assert!(!listener.is_waiting());
    for again in [conclusion(cookie(&x()), 200), induction(), noise()] {
        assert!(matches!(listener.handle_packet(&again, &x()), ListenAction::Discard));
        assert_eq!(listener.state, ListenState::Established);
    }
}

#[test]
fn listener_negotiates_the_larger_latency() {
    let mut listener = awaiting_conclusion(120);
    match listener.handle_packet(&conclusion(cookie(&x()), 200), &x()) {
        ListenAction::Connect { packet, settings, .. } => {
            assert_eq!(settings.tsbpd_latency, Latency::from_millis(200));
            assert_eq!(granted_latency(&packet), Latency::from_millis(200));
        }
        other => panic!("conclusion not accepted: {:?}", other),
    }
    let mut listener = awaiting_conclusion(120);
    match listener.handle_packet(&conclusion(cookie(&x()), 80), &x()) {
        ListenAction::Connect { packet, settings, .. } => {
            assert_eq!(settings.tsbpd_latency, Latency::from_millis(120));
            assert_eq!(granted_latency(&packet), Latency::from_millis(120));
        }
        other => panic!("conclusion not accepted: {:?}", other),
    }
}

#[test]
fn listen_end_to_end() {
    for configured_ms in [120u64, 150, 400] {
        let configured = Latency::from_millis(configured_ms);
        let negotiated = Latency::from_millis(if configured_ms > 150 { configured_ms } else { 150 });
        let mut sock =
            Channel::new(vec![(induction(), x()), (conclusion(cookie(&x()), 150), x())]);
        let settings = listen(&mut sock, LOCAL, configured).unwrap();

        assert_eq!(settings.remote, x());
        assert_eq!(settings.remote_sockid, S);
        assert_eq!(settings.local_sockid, LOCAL);
        assert_eq!(settings.tsbpd_latency, negotiated);
        assert_eq!(settings.init_seq_num, SeqNumber(31_337));
        assert_eq!(settings.max_packet_size, 1500);
        assert_eq!(settings.max_flow_size, 16_000);

        assert_eq!(sock.consumed(), 2);
        let sent = sock.sent();
        assert_eq!(sent.len(), 2);
        // The first answer carries the cookie in a version-5 handshake.
        assert_eq!(sent[0].1, x());
        let (_, first) = sent[0].0.handshake().unwrap();
        assert_eq!(first.syn_cookie, cookie(&x()));
        assert_eq!(first.info.version(), 5);
        // The second answer is what the returner hands out from then on.
        assert_eq!(sent[1].1, x());
        let (control, answer) = sent[1].0.handshake().unwrap();
        let regenerated = settings.handshake_returner.call(&answer).unwrap();
        assert_eq!(regenerated, sent[1].0);
        assert_eq!(granted_latency(&regenerated), negotiated);
        assert_eq!(control.dest_sockid, S);
        assert_eq!(answer.socket_id, LOCAL);
        assert_eq!(answer.syn_cookie, cookie(&x()));
        let request = body(ShakeType::Induction, 0, with_request(1));
        assert_eq!(settings.handshake_returner.call(&request), Some(regenerated));
        assert_eq!(settings.handshake_returner.call(&answer), Some(regenerated));
    }
}

#[test]
fn listen_passes_over_what_does_not_belong() {
    let issued = cookie(&x());
    let mut sock = Channel::new(vec![
        (noise(), y()),
        (induction(), x()),
        (conclusion(issued ^ 1, 150), x()),
        (conclusion(issued, 150), y()),
        (packet(0, LOCAL, body(ShakeType::Agreement, issued, with_request(150))), x()),
        (packet(0, SocketID(43), body(ShakeType::Conclusion, issued, with_request(150))), x()),
        (noise(), x()),
        (conclusion(issued, 150), x()),
        (noise(), x()),
    ]);
    let settings = listen(&mut sock, LOCAL, Latency::from_millis(120)).unwrap();
    assert_eq!(settings.remote, x());
    assert_eq!(settings.tsbpd_latency, Latency::from_millis(150));
    assert_eq!(sock.consumed(), 8);
    assert_eq!(sock.sent().len(), 2);
}

#[test]
fn listen_fails_on_version_four() {
    let v4 = packet(
        200,
        LOCAL,
        body(ShakeType::Conclusion, cookie(&x()), HandshakeVSInfo::V4(SocketType::Datagram)),
    );
    let mut sock =
        Channel::new(vec![(induction(), x()), (v4, x()), (conclusion(cookie(&x()), 150), x())]);
    let got = listen(&mut sock, LOCAL, Latency::from_millis(120));
    assert!(matches!(got, Err(ListenError::VersionMismatch)));
    assert_eq!(sock.consumed(), 2);
    assert_eq!(sock.sent().len(), 1);
}

#[test]
fn listen_passes_over_version_four_with_wrong_cookie() {
    let v4 = packet(
        200,
        LOCAL,
        body(ShakeType::Conclusion, cookie(&x()) ^ 2, HandshakeVSInfo::V4(SocketType::Datagram)),
    );
    let mut sock =
        Channel::new(vec![(induction(), x()), (v4, x()), (conclusion(cookie(&x()), 150), x())]);
    let settings = listen(&mut sock, LOCAL, Latency::from_millis(120)).unwrap();
    assert_eq!(settings.remote_sockid, S);
    assert_eq!(sock.consumed(), 3);
}

#[test]
fn listen_fails_on_missing_request() {
    let bare = packet(
        200,
        LOCAL,
        body(
            ShakeType::Conclusion,
            cookie(&x()),
            HandshakeVSInfo::V5 {
                crypto_size: 0,
                ext_hs: None,
                ext_km: Some(SrtControlPacket::KeyManagerRequest),
                ext_config: None,
            },
        ),
    );
    let mut sock = Channel::new(vec![(induction(), x()), (bare, x())]);
    let got = listen(&mut sock, LOCAL, Latency::from_millis(120));
    assert!(matches!(got, Err(ListenError::MissingHandshakeRequest)));
    assert_eq!(sock.sent().len(), 1);
}

#[test]
fn listen_fails_when_the_channel_ends() {
    let mut sock = Channel::new(vec![]);
    assert!(matches!(
        listen(&mut sock, LOCAL, Latency::from_millis(120)),
        Err(ListenError::ChannelClosed)
    ));
    let mut sock = Channel::new(vec![(induction(), x()), (noise(), x())]);
    assert!(matches!(
        listen(&mut sock, LOCAL, Latency::from_millis(120)),
        Err(ListenError::ChannelClosed)
    ));
    assert_eq!(sock.consumed(), 2);
    assert_eq!(sock.sent().len(), 1);
}

#[test]
fn listen_and_listener_agree() {
    let arrivals = vec![
        (noise(), x()),
        (induction(), x()),
        (conclusion(cookie(&x()) ^ 8, 90), x()),
        (conclusion(cookie(&x()), 90), x()),
    ];
    let mut sock = Channel::new(arrivals.clone());
    let settings = listen(&mut sock, LOCAL, Latency::from_millis(120)).unwrap();

    let mut listener = Listener::new(LOCAL, Latency::from_millis(120));
    let mut sent = Vec::new();
    let mut connected = None;
    for (arrival, from) in &arrivals {
        match listener.handle_packet(arrival, from) {
            ListenAction::Discard => {}
            ListenAction::Send { packet, to } => sent.push((packet, to)),
            ListenAction::Connect { packet, to, settings } => {
                sent.push((packet, to));
                connected = Some(settings);
            }
            ListenAction::Fail(error) => panic!("failed: {:?}", error),
        }
    }
    let stepwise = connected.unwrap();
    assert_eq!(&sent, sock.sent());
    assert_eq!(stepwise.remote, settings.remote);
    assert_eq!(stepwise.remote_sockid, settings.remote_sockid);
    assert_eq!(stepwise.tsbpd_latency, settings.tsbpd_latency);
    assert_eq!(stepwise.tsbpd_latency, Latency::from_millis(120));
    assert_eq!(stepwise.handshake_returner, settings.handshake_returner);
}
