//! The decisions of the solicitation responder: a state machine that turns
//! each solicitation into a reply to transmit, and stops on cancellation.

use vstd::prelude::*;

use crate::addr::{MacAddr, NeighborSolicit};
use crate::codec::{build_reply, spec_reply};

verus! {

/// Where the responder stands.
#[derive(PartialEq, Eq, Structural, Clone, Copy, Debug)]
pub enum ResponderState {
    /// Waiting for the next solicitation or for cancellation.
    Listening,
    /// A reply was handed out for transmission; its outcome is awaited.
    Responding,
    /// Cancelled; nothing more is done.
    Terminated,
}

/// What happened since the last step.
#[derive(Clone, Copy, Debug)]
pub enum ResponderEvent {
    /// A solicitation was received from the channel.
    Solicitation(NeighborSolicit),
    /// Termination was requested.
    Cancelled,
    /// The last reply was transmitted.
    Transmitted,
    /// Transmitting the last reply failed.
    TransmitFailed,
}

/// What the responder asks to be done next.
#[derive(Debug)]
pub enum ResponderAction {
    /// Wait for the next event.
    Wait,
    /// Transmit this frame, then report the outcome.
    Transmit(Vec<u8>),
    /// Report that a transmission failed, then wait for the next event.
    ReportFailure,
    /// Stop the loop.
    Stop,
}

/// The state after `event` in state `s`. Cancellation ends every state;
/// a solicitation is answered while listening; the outcome of a
/// transmission brings the responder back to listening.
pub open spec fn spec_next_state(s: ResponderState, event: ResponderEvent) -> ResponderState {
    match (s, event) {
        (ResponderState::Terminated, _) => ResponderState::Terminated,
        (_, ResponderEvent::Cancelled) => ResponderState::Terminated,
        (ResponderState::Listening, ResponderEvent::Solicitation(_)) => ResponderState::Responding,
        (ResponderState::Responding, ResponderEvent::Transmitted) => ResponderState::Listening,
        (ResponderState::Responding, ResponderEvent::TransmitFailed) => ResponderState::Listening,
        _ => s,
    }
}

/// Whether `a` is the action for `event` in state `s`, with `host` as the
/// host's MAC: a reply to transmit for a solicitation while listening, a
/// failure report after a failed transmission, a stop on cancellation or
/// once terminated, and waiting otherwise.
pub open spec fn spec_action(
    s: ResponderState,
    event: ResponderEvent,
    host: MacAddr,
    a: ResponderAction,
) -> bool {
    match (s, event) {
        (ResponderState::Terminated, _) => a is Stop,
        (_, ResponderEvent::Cancelled) => a is Stop,
        (ResponderState::Listening, ResponderEvent::Solicitation(e)) => match a {
            ResponderAction::Transmit(frame) => frame@ == spec_reply(e, host),
            _ => false,
        },
        (ResponderState::Responding, ResponderEvent::TransmitFailed) => a is ReportFailure,
        _ => a is Wait,
    }
}

/// Answers Neighbor Solicitations on behalf of a host.
#[derive(Clone, Copy, Debug)]
pub struct NeighborSolicitationResponder {
    host_mac: MacAddr,
    state: ResponderState,
}

impl NeighborSolicitationResponder {
    /// The MAC that replies are sent from and that they advertise.
    pub closed spec fn spec_host_mac(&self) -> MacAddr {
        self.host_mac
    }

    /// The current state.
    pub closed spec fn spec_state(&self) -> ResponderState {
        self.state
    }

    /// A listening responder for the host whose MAC is `host_mac`.
    pub fn new(host_mac: MacAddr) -> (r: NeighborSolicitationResponder)
        ensures
            r.spec_host_mac() == host_mac,
            r.spec_state() == ResponderState::Listening,
    {
        NeighborSolicitationResponder { host_mac, state: ResponderState::Listening }
    }

    /// The host's MAC.
    pub fn host_mac(&self) -> (r: MacAddr)
        ensures
            r == self.spec_host_mac(),
    {
        self.host_mac
    }

    /// The current state.
    pub fn state(&self) -> (r: ResponderState)
        ensures
            r == self.spec_state(),
    {
        self.state
    }

    /// The advertisement that answers `solicit` on behalf of this host.
    pub fn build_packet(&self, solicit: NeighborSolicit) -> (r: Vec<u8>)
        ensures
            r@ == spec_reply(solicit, self.spec_host_mac()),
    {
        build_reply(&solicit, self.host_mac)
    }

    /// Takes one step: moves to the next state and says what to do.
    pub fn step(&mut self, event: ResponderEvent) -> (r: ResponderAction)
        ensures
            final(self).spec_host_mac() == old(self).spec_host_mac(),
            final(self).spec_state() == spec_next_state(old(self).spec_state(), event),
            spec_action(old(self).spec_state(), event, old(self).spec_host_mac(), r),
    {
        match (self.state, event) {
            (ResponderState::Terminated, _) => ResponderAction::Stop,
            (_, ResponderEvent::Cancelled) => {
                self.state = ResponderState::Terminated;
                ResponderAction::Stop
            },
            (ResponderState::Listening, ResponderEvent::Solicitation(e)) => {
                self.state = ResponderState::Responding;
                ResponderAction::Transmit(self.build_packet(e))
            },
            (ResponderState::Responding, ResponderEvent::Transmitted) => {
                self.state = ResponderState::Listening;
                ResponderAction::Wait
            },
            (ResponderState::Responding, ResponderEvent::TransmitFailed) => {
                self.state = ResponderState::Listening;
                ResponderAction::ReportFailure
            },
            _ => ResponderAction::Wait,
        }
    }
}

} // verus!
