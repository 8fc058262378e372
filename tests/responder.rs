use nassauer::addr::{MacAddr, NeighborSolicit};
use nassauer::codec::build_reply;
use nassauer::responder::{
    NeighborSolicitationResponder, ResponderAction, ResponderEvent, ResponderState,
};

fn event() -> NeighborSolicit {
    NeighborSolicit {
        router_mac: MacAddr::new(2, 0, 0, 0, 0, 1),
        router_addr: [0xfe; 16],
        dest_addr: [0xff; 16],
        target_addr: [0x20; 16],
    }
}

fn host() -> MacAddr {
    MacAddr::new(0x52, 0x54, 0, 1, 2, 3)
}

#[test]
fn responder_answers_then_listens() {
    let mut r = NeighborSolicitationResponder::new(host());
    assert_eq!(r.state(), ResponderState::Listening);
    assert_eq!(r.host_mac(), host());
    match r.step(ResponderEvent::Solicitation(event())) {
        ResponderAction::Transmit(frame) => assert_eq!(frame, build_reply(&event(), host())),
        other => panic!("unexpected action {:?}", other),
    }
    assert_eq!(r.state(), ResponderState::Responding);
    assert!(matches!(r.step(ResponderEvent::Transmitted), ResponderAction::Wait));
    assert_eq!(r.state(), ResponderState::Listening);
}

#[test]
fn responder_transmit_failure_is_not_fatal() {
    let mut r = NeighborSolicitationResponder::new(host());
    r.step(ResponderEvent::Solicitation(event()));
    assert!(matches!(r.step(ResponderEvent::TransmitFailed), ResponderAction::ReportFailure));
    assert_eq!(r.state(), ResponderState::Listening);
    assert!(matches!(
        r.step(ResponderEvent::Solicitation(event())),
        ResponderAction::Transmit(_)
    ));
}

#[test]
fn responder_stops_on_cancel() {
    let mut r = NeighborSolicitationResponder::new(host());
    assert!(matches!(r.step(ResponderEvent::Cancelled), ResponderAction::Stop));
    assert_eq!(r.state(), ResponderState::Terminated);
    assert!(matches!(
        r.step(ResponderEvent::Solicitation(event())),
        ResponderAction::Stop
    ));
    assert_eq!(r.state(), ResponderState::Terminated);
}

#[test]
fn responder_cancel_while_responding() {
    let mut r = NeighborSolicitationResponder::new(host());
    r.step(ResponderEvent::Solicitation(event()));
    assert!(matches!(r.step(ResponderEvent::Cancelled), ResponderAction::Stop));
    assert_eq!(r.state(), ResponderState::Terminated);
}

#[test]
fn build_packet_uses_host_mac() {
    let r = NeighborSolicitationResponder::new(host());
    let p = r.build_packet(event());
    assert_eq!(&p[6..12], &host().octets());
    assert_eq!(&p[80..86], &host().octets());
    assert_eq!(p, build_reply(&event(), host()));
}
