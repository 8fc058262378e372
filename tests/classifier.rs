use nassauer::addr::MacAddr;
use nassauer::channel::EventChannel;
use nassauer::classifier::{classify, classify_into, Disposition};
use nassauer::responder::NeighborSolicitationResponder;

fn ns_frame(src_mac: [u8; 6], src: [u8; 16], dst: [u8; 16], target: [u8; 16]) -> Vec<u8> {
    let mut f = Vec::new();
    f.extend_from_slice(&[0x33, 0x33, 0xff, 0x00, 0x00, 0x05]);
    f.extend_from_slice(&src_mac);
    f.extend_from_slice(&[0x86, 0xdd]);
    f.extend_from_slice(&[0x60, 0, 0, 0, 0, 32, 58, 255]);
    f.extend_from_slice(&src);
    f.extend_from_slice(&dst);
    f.extend_from_slice(&[135, 0, 0x12, 0x34]);
    f.extend_from_slice(&[0, 0, 0, 0]);
    f.extend_from_slice(&target);
    f.extend_from_slice(&[1, 1, 2, 0, 0, 0, 0, 1]);
    f
}

fn fe80_1() -> [u8; 16] {
    let mut a = [0u8; 16];
    a[0] = 0xfe;
    a[1] = 0x80;
    a[15] = 1;
    a
}

fn ff02_1() -> [u8; 16] {
    let mut a = [0u8; 16];
    a[0] = 0xff;
    a[1] = 0x02;
    a[15] = 1;
    a
}

fn doc_5() -> [u8; 16] {
    let mut a = [0u8; 16];
    a[0] = 0x20;
    a[1] = 0x01;
    a[2] = 0x0d;
    a[3] = 0xb8;
    a[15] = 5;
    a
}

fn sample() -> Vec<u8> {
    ns_frame([2, 0, 0, 0, 0, 1], fe80_1(), ff02_1(), doc_5())
}

#[test]
fn short_buffers_emit_nothing() {
    let f = sample();
    for len in 0..58 {
        let (d, e) = classify(&f[..len]);
        assert!(e.is_none(), "length {}", len);
        if len < 14 || (len >= 14 && len < 54) || (len >= 54 && len < 58) {
            assert_eq!(d, Disposition::Consume, "length {}", len);
        }
    }
}

#[test]
fn truncated_solicitation_body_is_consumed_without_event() {
    let f = sample();
    for len in 58..78 {
        let (d, e) = classify(&f[..len]);
        assert_eq!(d, Disposition::Consume);
        assert!(e.is_none());
    }
}

#[test]
fn non_ipv6_frame_passes() {
    let mut f = sample();
    f[12] = 0x08;
    f[13] = 0x00;
    let (d, e) = classify(&f);
    assert_eq!(d, Disposition::Pass);
    assert!(e.is_none());
    let (d, e) = classify(&f[..14]);
    assert_eq!(d, Disposition::Pass);
    assert!(e.is_none());
}

#[test]
fn non_icmpv6_frame_passes() {
    let mut f = sample();
    f[20] = 17;
    let (d, e) = classify(&f);
    assert_eq!(d, Disposition::Pass);
    assert!(e.is_none());
}

#[test]
fn other_icmpv6_type_passes() {
    for t in [128u8, 133, 134, 136, 137] {
        let mut f = sample();
        f[54] = t;
        let (d, e) = classify(&f);
        assert_eq!(d, Disposition::Pass);
        assert!(e.is_none());
    }
}

#[test]
fn solicitation_event_holds_frame_fields() {
    let f = sample();
    let (d, e) = classify(&f);
    assert_eq!(d, Disposition::Consume);
    let e = e.expect("a solicitation");
    assert_eq!(e.router_mac, MacAddr::new(2, 0, 0, 0, 0, 1));
    assert_eq!(e.router_addr, fe80_1());
    assert_eq!(e.dest_addr, ff02_1());
    assert_eq!(e.target_addr, doc_5());
}

#[test]
fn solicitation_without_options_is_accepted() {
    let f = sample();
    let (d, e) = classify(&f[..78]);
    assert_eq!(d, Disposition::Consume);
    assert_eq!(e.unwrap().target_addr, doc_5());
}

#[test]
fn classify_into_queues_event() {
    let mut ch = EventChannel::new(2);
    assert_eq!(classify_into(&sample(), &mut ch), Disposition::Consume);
    assert_eq!(ch.len(), 1);
    let e = ch.recv().unwrap();
    assert_eq!(e.target_addr, doc_5());
    assert_eq!(e.router_addr, fe80_1());
}

#[test]
fn classify_into_full_channel_drops_event_but_consumes() {
    let mut ch = EventChannel::new(1);
    assert_eq!(classify_into(&sample(), &mut ch), Disposition::Consume);
    let other = ns_frame([2, 0, 0, 0, 0, 9], fe80_1(), ff02_1(), fe80_1());
    assert_eq!(classify_into(&other, &mut ch), Disposition::Consume);
    assert_eq!(ch.len(), 1);
    assert_eq!(ch.recv().unwrap().router_mac, MacAddr::new(2, 0, 0, 0, 0, 1));
    assert!(ch.recv().is_none());
}

#[test]
fn classify_into_passed_frame_queues_nothing() {
    let mut ch = EventChannel::new(4);
    let mut f = sample();
    f[54] = 128;
    assert_eq!(classify_into(&f, &mut ch), Disposition::Pass);
    assert!(ch.is_empty());
}

#[test]
fn scenario_solicitation_to_advertisement() {
    let (d, e) = classify(&sample());
    assert_eq!(d, Disposition::Consume);
    let e = e.unwrap();
    assert_eq!(e.router_mac.octets(), [0x02, 0x00, 0x00, 0x00, 0x00, 0x01]);
    assert_eq!(e.router_addr, fe80_1());
    assert_eq!(e.dest_addr, ff02_1());
    assert_eq!(e.target_addr, doc_5());
    let host = MacAddr::new(0x52, 0x54, 0x00, 0x12, 0x34, 0x56);
    let reply = NeighborSolicitationResponder::new(host).build_packet(e);
    assert_eq!(&reply[0..6], &[0x02, 0x00, 0x00, 0x00, 0x00, 0x01]);
    assert_eq!(&reply[22..38], &doc_5());
    assert_eq!(&reply[38..54], &fe80_1());
    assert_eq!(reply[54], 136);
    assert_eq!(reply[58] & 0x80, 0x80);
    assert_eq!(reply[58] & 0x40, 0x40);
    assert_eq!(reply[58] & 0x20, 0x20);
    assert_eq!(&reply[80..86], &host.octets());
}
