//! The handshake as a state machine that is fed one packet at a time.
//!
//! The machine reads nothing and sends nothing.  Whoever owns the
//! transport hands it each packet that arrives and carries out the
//! action it answers with.

use crate::address::Address;
use crate::latency::Latency;
use crate::packet::{Packet, ShakeType, SocketID};
use crate::pending_connection::listen::{
    conclusion_of, conclusion_step, establish, induction_of, induction_step, ConclusionStep,
    ListenError,
};
use crate::settings::{settings_of, ConnectionSettings};
use vstd::prelude::*;

verus! {

/// Where a handshake stands.
#[derive(Clone, Copy, Debug, PartialEq, Eq, Structural)]
pub enum ListenState {
    /// No handshake has arrived yet.
    AwaitingInduction,
    /// A cookie has been issued to `from`, which has yet to echo it.
    AwaitingConclusion { cookie: i32, from: Address },
    /// The handshake is complete.
    Established,
    /// The handshake was given up.
    Failed(ListenError),
}

/// What the owner of the transport has to do after a packet.
#[derive(Clone, Copy, Debug)]
pub enum ListenAction {
    /// Nothing: the packet was dropped, and the wait goes on.
    Discard,
    /// Send `packet` to `to`, and go on waiting.
    Send { packet: Packet, to: Address },
    /// Send `packet` to `to`; the session stands, with `settings`.
    Connect { packet: Packet, to: Address, settings: ConnectionSettings },
    /// Give up, for the reason given.
    Fail(ListenError),
}

/// One handshake in progress.
#[derive(Clone, Copy, Debug, PartialEq, Eq)]
pub struct Listener {
    /// Socket identifier of this end.
    pub local_socket_id: SocketID,
    /// Latency this end is configured with.
    pub tsbpd_latency: Latency,
    /// Where the handshake stands.
    pub state: ListenState,
}

impl Listener {
    /// Whether the handshake still waits for a packet.
    pub open spec fn spec_is_waiting(&self) -> bool {
        self.state is AwaitingInduction || self.state is AwaitingConclusion
    }

    /// Whether the listener `after` and the action `action` are what
    /// this listener comes to when `packet` arrives from `from`.
    ///
    /// Awaiting induction, a handshake is answered with a cookie and the
    /// listener goes on to await the conclusion from its sender.
    /// Awaiting the conclusion, an accepted one is answered and
    /// establishes the session, a rejected one fails the handshake for
    /// good.  Every other packet is discarded and leaves the listener as
    /// it was, and so does every packet once the handshake has ended.
    pub open spec fn steps_to(
        &self,
        packet: Packet,
        from: Address,
        after: Listener,
        action: ListenAction,
    ) -> bool {
        &&& after.local_socket_id == self.local_socket_id
        &&& after.tsbpd_latency == self.tsbpd_latency
        &&& match self.state {
            ListenState::AwaitingInduction => match induction_of(packet, from) {
                Some(induction) => {
                    &&& after.state == (ListenState::AwaitingConclusion {
                        cookie: induction.cookie,
                        from: induction.from,
                    })
                    &&& action == (ListenAction::Send {
                        packet: induction.response,
                        to: induction.from,
                    })
                },
                None => after.state == self.state && action == ListenAction::Discard,
            },
            ListenState::AwaitingConclusion { cookie, from: peer } => match conclusion_of(
                packet,
                from,
                cookie,
                self.local_socket_id,
                self.tsbpd_latency,
                peer,
            ) {
                ConclusionStep::Discard => after.state == self.state && action
                    == ListenAction::Discard,
                ConclusionStep::Reject(error) => {
                    &&& after.state == ListenState::Failed(error)
                    &&& action == ListenAction::Fail(error)
                },
                ConclusionStep::Accept(conclusion) => {
                    &&& after.state == ListenState::Established
                    &&& action is Connect
                    &&& action->Connect_packet == conclusion.response
                    &&& action->Connect_to == peer
                    &&& action->settings == settings_of(
                        conclusion.shake,
                        peer,
                        self.local_socket_id,
                        conclusion.latency,
                        conclusion.response,
                        action->settings.socket_start_time,
                    )
                },
            },
            ListenState::Established | ListenState::Failed(_) => {
                &&& after.state == self.state
                &&& action == ListenAction::Discard
            },
        }
    }

    /// A listener that awaits induction.
    pub fn new(local_socket_id: SocketID, tsbpd_latency: Latency) -> (l: Listener)
        ensures
            l == (Listener { local_socket_id, tsbpd_latency, state: ListenState::AwaitingInduction }),
    {
        Listener { local_socket_id, tsbpd_latency, state: ListenState::AwaitingInduction }
    }

    /// Whether the handshake still waits for a packet.
    #[verifier::when_used_as_spec(spec_is_waiting)]
    pub fn is_waiting(&self) -> (r: bool)
        ensures
            r == self.spec_is_waiting(),
    {
        match self.state {
            ListenState::AwaitingInduction => true,
            ListenState::AwaitingConclusion { .. } => true,
            _ => false,
        }
    }

    /// Takes the packet that arrived from `from`, moves on, and says
    /// what is to be done.
    pub fn handle_packet(&mut self, packet: &Packet, from: &Address) -> (action: ListenAction)
        ensures
            old(self).steps_to(*packet, *from, *final(self), action),
    {
        match self.state {
            ListenState::AwaitingInduction => match induction_step(packet, from) {
                Some(induction) => {
                    self.state =
                    ListenState::AwaitingConclusion {
                        cookie: induction.cookie,
                        from: induction.from,
                    };
                    ListenAction::Send { packet: induction.response, to: induction.from }
                },
                None => ListenAction::Discard,
            },
            ListenState::AwaitingConclusion { cookie, from: peer } => match conclusion_step(
                packet,
                from,
                cookie,
                self.local_socket_id,
                self.tsbpd_latency,
                &peer,
            ) {
                ConclusionStep::Discard => ListenAction::Discard,
                ConclusionStep::Reject(error) => {
                    self.state = ListenState::Failed(error);
                    ListenAction::Fail(error)
                },
                ConclusionStep::Accept(conclusion) => {
                    let settings = establish(&conclusion, peer, self.local_socket_id);
                    self.state = ListenState::Established;
                    ListenAction::Connect { packet: conclusion.response, to: peer, settings }
                },
            },
            ListenState::Established => ListenAction::Discard,
            ListenState::Failed(_) => ListenAction::Discard,
        }
    }

    /// Whatever is discarded leaves the listener exactly as it was.
    pub proof fn discard_changes_nothing(
        self,
        packet: Packet,
        from: Address,
        after: Listener,
        action: ListenAction,
    )
        requires
            self.steps_to(packet, from, after, action),
            action is Discard,
        ensures
            after == self,
    {
    }

    /// While the conclusion is awaited, a packet with another cookie
    /// than the one issued, from another address than the requester's,
    /// or of another phase than conclusion is discarded, and the
    /// listener waits on as before.
    pub proof fn stray_packet_keeps_waiting(
        self,
        packet: Packet,
        from: Address,
        after: Listener,
        action: ListenAction,
    )
        requires
            self.state is AwaitingConclusion,
            self.steps_to(packet, from, after, action),
            packet.is_handshake(),
            packet.shake().syn_cookie != self.state->cookie || from != self.state->from
                || packet.shake().shake_type != ShakeType::Conclusion,
        ensures
            action is Discard,
            after == self,
            after.spec_is_waiting(),
    {
    }

    /// The handshake only moves forward: from awaiting induction to
    /// awaiting the conclusion, from there to established or failed, and
    /// from those two nowhere.
    pub proof fn steps_go_forward(
        self,
        packet: Packet,
        from: Address,
        after: Listener,
        action: ListenAction,
    )
        requires
            self.steps_to(packet, from, after, action),
        ensures
            after.state == self.state || match self.state {
                ListenState::AwaitingInduction => after.state is AwaitingConclusion,
                ListenState::AwaitingConclusion { .. } => after.state is Established
                    || after.state is Failed,
                _ => false,
            },
            after.state is Established <==> self.state is Established || action is Connect,
            after.state is Failed <==> self.state is Failed || action is Fail,
    {
    }
}

} // verus!
