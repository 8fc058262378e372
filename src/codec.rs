//! Construction of the Neighbor Advertisement that answers a solicitation.

use vstd::prelude::*;

use crate::addr::{is_multicast, spec_is_multicast, MacAddr, NeighborSolicit};
use crate::headers::{
    frame_eth_dst, frame_eth_src, frame_ether_type, frame_hop_limit, frame_icmp_checksum,
    frame_icmp_type, frame_ip_dst, frame_ip_src, frame_nd_target, frame_next_header,
    ETHERTYPE_IPV6, ICMP_NEIGHBOR_ADVERTISEMENT_TYPE, NEXT_HEADER_ICMPV6,
};
use crate::wire::{lemma_be16_of_bytes, push_be16, push_bytes, u16_bytes};

verus! {

/// Length of the reply frame: Ethernet, IPv6, ICMPv6 header, advertisement
/// flags, target address, and one Target Link-Layer Address option.
pub const REPLY_LEN: usize = 86;
/// Length of the ICMPv6 part of the reply.
pub const ADVERT_LEN: usize = 32;
/// Offset of the ICMPv6 part in the reply.
pub const ADVERT_OFFSET: usize = 54;

/// Router flag of a Neighbor Advertisement.
pub const FLAG_ROUTER: u8 = 0x80;
/// Solicited flag of a Neighbor Advertisement.
pub const FLAG_SOLICITED: u8 = 0x40;
/// Override flag of a Neighbor Advertisement.
pub const FLAG_OVERRIDE: u8 = 0x20;

/// NDP option type of a Target Link-Layer Address.
pub const OPTION_TARGET_LL_ADDR: u8 = 2;

/// The Internet checksum of an ICMPv6 message, computed under the IPv6
/// pseudo-header made of `source`, `destination`, the message length and
/// next-header 58, with the message's own checksum field left out.
pub uninterp spec fn icmpv6_checksum_of(message: Seq<u8>, source: Seq<u8>, destination: Seq<u8>) -> u16;

/// Relies on pnet's `packet::icmpv6::checksum`, which sums the pseudo-header
/// and the message and returns the complemented, folded sum. It panics on
/// a message shorter than an ICMPv6 header, and its 32-bit sum stays in range
/// for messages of at most 65535 bytes.
#[verifier::external_body]
fn icmpv6_checksum(message: &[u8], source: &[u8; 16], destination: &[u8; 16]) -> (r: u16)
    requires
        4 <= message@.len() <= 65535,
    ensures
        r == icmpv6_checksum_of(message@, source@, destination@),
{
    let packet = pnet::packet::icmpv6::Icmpv6Packet::new(message).unwrap();
    pnet::packet::icmpv6::checksum(
        &packet,
        &pnet::util::core_net::Ipv6Addr::from(*source),
        &pnet::util::core_net::Ipv6Addr::from(*destination),
    )
}

/// The flags byte of the advertisement: Router and Solicited always, and
/// Override when the solicitation was sent to a multicast address.
pub open spec fn spec_advert_flags(e: NeighborSolicit) -> u8 {
    if spec_is_multicast(e.dest_addr@) {
        FLAG_ROUTER | FLAG_SOLICITED | FLAG_OVERRIDE
    } else {
        FLAG_ROUTER | FLAG_SOLICITED
    }
}

/// Ethernet header of the reply: to the solicitor, from the host, IPv6.
pub open spec fn spec_reply_eth(e: NeighborSolicit, host: MacAddr) -> Seq<u8> {
    e.router_mac.spec_octets() + host.spec_octets() + u16_bytes(ETHERTYPE_IPV6)
}

/// IPv6 header of the reply: version 6, a 32-byte payload, ICMPv6, hop
/// limit 255, from the target address to the solicitor.
pub open spec fn spec_reply_ip(e: NeighborSolicit) -> Seq<u8> {
    seq![0x60u8, 0, 0, 0] + u16_bytes(ADVERT_LEN as u16) + seq![NEXT_HEADER_ICMPV6, 255u8]
        + e.target_addr@ + e.router_addr@
}

/// ICMPv6 part of the reply with the checksum field set to `checksum`:
/// type 136, code 0, the flags, the target address, and the option that
/// gives the host's link-layer address.
pub open spec fn spec_reply_advert(e: NeighborSolicit, host: MacAddr, checksum: u16) -> Seq<u8> {
    seq![ICMP_NEIGHBOR_ADVERTISEMENT_TYPE, 0u8] + u16_bytes(checksum) + seq![
        spec_advert_flags(e),
        0u8,
        0,
        0,
    ] + e.target_addr@ + seq![OPTION_TARGET_LL_ADDR, 1u8] + host.spec_octets()
}

/// The reply frame with the checksum field set to `checksum`.
pub open spec fn spec_reply_with(e: NeighborSolicit, host: MacAddr, checksum: u16) -> Seq<u8> {
    spec_reply_eth(e, host) + spec_reply_ip(e) + spec_reply_advert(e, host, checksum)
}

/// The checksum that the reply carries.
pub open spec fn spec_reply_checksum(e: NeighborSolicit, host: MacAddr) -> u16 {
    icmpv6_checksum_of(spec_reply_advert(e, host, 0), e.target_addr@, e.router_addr@)
}

/// The reply frame that answers `e` on behalf of `host`.
pub open spec fn spec_reply(e: NeighborSolicit, host: MacAddr) -> Seq<u8> {
    spec_reply_with(e, host, spec_reply_checksum(e, host))
}

/// The flags byte of the advertisement that answers `e`.
pub fn advert_flags(e: &NeighborSolicit) -> (r: u8)
    ensures
        r == spec_advert_flags(*e),
{
    if is_multicast(&e.dest_addr) {
        FLAG_ROUTER | FLAG_SOLICITED | FLAG_OVERRIDE
    } else {
        FLAG_ROUTER | FLAG_SOLICITED
    }
}

/// Builds the ICMPv6 part of the reply with the checksum field set to
/// `checksum`.
fn build_advert(e: &NeighborSolicit, host: MacAddr, checksum: u16) -> (r: Vec<u8>)
    ensures
        r@ == spec_reply_advert(*e, host, checksum),
{
    let mut v: Vec<u8> = Vec::new();
    v.push(ICMP_NEIGHBOR_ADVERTISEMENT_TYPE);
    v.push(0u8);
    push_be16(&mut v, checksum);
    v.push(advert_flags(e));
    v.push(0u8);
    v.push(0u8);
    v.push(0u8);
    push_bytes(&mut v, &e.target_addr);
    v.push(OPTION_TARGET_LL_ADDR);
    v.push(1u8);
    push_bytes(&mut v, &host.octets());
    assert(v@ =~= spec_reply_advert(*e, host, checksum));
    v
}

/// Builds the reply that answers `e` on behalf of `host`, with the checksum
/// field set to the given value.
pub fn assemble_reply(e: &NeighborSolicit, host: MacAddr, checksum: u16) -> (r: Vec<u8>)
    ensures
        r@ == spec_reply_with(*e, host, checksum),
{
    let mut v: Vec<u8> = Vec::new();
    push_bytes(&mut v, &e.router_mac.octets());
    push_bytes(&mut v, &host.octets());
    push_be16(&mut v, ETHERTYPE_IPV6);
    assert(v@ =~= spec_reply_eth(*e, host));
    v.push(0x60u8);
    v.push(0u8);
    v.push(0u8);
    v.push(0u8);
    push_be16(&mut v, ADVERT_LEN as u16);
    v.push(NEXT_HEADER_ICMPV6);
    v.push(255u8);
    push_bytes(&mut v, &e.target_addr);
    push_bytes(&mut v, &e.router_addr);
    assert(v@ =~= spec_reply_eth(*e, host) + spec_reply_ip(*e));
    let advert = build_advert(e, host, checksum);
    push_bytes(&mut v, advert.as_slice());
    assert(v@ =~= spec_reply_with(*e, host, checksum));
    v
}

/// Builds the reply that answers `e` on behalf of `host`: the advertisement
/// is summed with its checksum field zero, and the sum is then stored in it.
pub fn build_reply(e: &NeighborSolicit, host: MacAddr) -> (r: Vec<u8>)
    ensures
        r@ == spec_reply(*e, host),
{
    let unsummed = build_advert(e, host, 0);
    let checksum = icmpv6_checksum(unsummed.as_slice(), &e.target_addr, &e.router_addr);
    assemble_reply(e, host, checksum)
}

/// The reply's field layout: the positions that each part takes.
proof fn lemma_reply_layout(e: NeighborSolicit, host: MacAddr, checksum: u16)
    ensures
        spec_reply_with(e, host, checksum).len() == REPLY_LEN,
        spec_reply_with(e, host, checksum).subrange(0, 14) == spec_reply_eth(e, host),
        spec_reply_with(e, host, checksum).subrange(14, 54) == spec_reply_ip(e),
        spec_reply_with(e, host, checksum).subrange(54, 86) == spec_reply_advert(e, host, checksum),
{
    let eth = spec_reply_eth(e, host);
    let ip = spec_reply_ip(e);
    let adv = spec_reply_advert(e, host, checksum);
    let f = spec_reply_with(e, host, checksum);
    assert(f.subrange(0, 14) =~= eth);
    assert(f.subrange(14, 54) =~= ip);
    assert(f.subrange(54, 86) =~= adv);
}

/// Reading a built reply back gives its addresses: the Ethernet destination
/// is the solicitor's MAC, the IPv6 source and the advertised target are the
/// solicited target, and the IPv6 destination is the solicitor's address.
/// The reply is an ICMPv6 Neighbor Advertisement over IPv6 with hop limit
/// 255, sent from the host's MAC, whose option carries the host's MAC.
pub proof fn lemma_reply_round_trip(e: NeighborSolicit, host: MacAddr)
    ensures
        spec_reply(e, host).len() == REPLY_LEN,
        frame_eth_dst(spec_reply(e, host)) == e.router_mac.spec_octets(),
        frame_eth_src(spec_reply(e, host)) == host.spec_octets(),
        frame_ether_type(spec_reply(e, host)) == ETHERTYPE_IPV6,
        frame_next_header(spec_reply(e, host)) == NEXT_HEADER_ICMPV6,
        frame_hop_limit(spec_reply(e, host)) == 255,
        frame_ip_src(spec_reply(e, host)) == e.target_addr@,
        frame_ip_dst(spec_reply(e, host)) == e.router_addr@,
        frame_icmp_type(spec_reply(e, host)) == ICMP_NEIGHBOR_ADVERTISEMENT_TYPE,
        frame_nd_target(spec_reply(e, host)) == e.target_addr@,
        spec_reply(e, host).subrange(78, 80) == seq![OPTION_TARGET_LL_ADDR, 1u8],
        spec_reply(e, host).subrange(80, 86) == host.spec_octets(),
{
    let c = spec_reply_checksum(e, host);
    let f = spec_reply(e, host);
    lemma_reply_layout(e, host, c);
    lemma_be16_of_bytes(ETHERTYPE_IPV6);
    assert(frame_eth_dst(f) =~= e.router_mac.spec_octets());
    assert(frame_eth_src(f) =~= host.spec_octets());
    assert(f.subrange(12, 14) =~= u16_bytes(ETHERTYPE_IPV6));
    assert(frame_ip_src(f) =~= e.target_addr@);
    assert(frame_ip_dst(f) =~= e.router_addr@);
    assert(frame_nd_target(f) =~= e.target_addr@);
    assert(f.subrange(78, 80) =~= seq![OPTION_TARGET_LL_ADDR, 1u8]);
    assert(f.subrange(80, 86) =~= host.spec_octets());
}

/// Summing a built reply's advertisement again, with its checksum field set
/// to zero and under its own source and destination addresses, gives the
/// checksum that the reply carries.
pub proof fn lemma_reply_checksum(e: NeighborSolicit, host: MacAddr)
    ensures
        frame_icmp_checksum(spec_reply(e, host)) == icmpv6_checksum_of(
            spec_reply(e, host).subrange(54, 86).update(2, 0u8).update(3, 0u8),
            frame_ip_src(spec_reply(e, host)),
            frame_ip_dst(spec_reply(e, host)),
        ),
{
    let c = spec_reply_checksum(e, host);
    let f = spec_reply(e, host);
    lemma_reply_layout(e, host, c);
    lemma_reply_round_trip(e, host);
    lemma_be16_of_bytes(c);
    assert(f.subrange(56, 58) =~= u16_bytes(c));
    assert((0u16 >> 8u16) as u8 == 0u8 && 0u16 as u8 == 0u8) by (bit_vector);
    assert(u16_bytes(0) =~= seq![0u8, 0u8]);
    assert(f.subrange(54, 86).update(2, 0u8).update(3, 0u8) =~= spec_reply_advert(e, host, 0));
}

/// In a built reply the Router and Solicited flags are set, and the Override
/// flag is set exactly when the solicitation was sent to a multicast address.
pub proof fn lemma_reply_flags(e: NeighborSolicit, host: MacAddr)
    ensures
        spec_reply(e, host)[58] & FLAG_ROUTER != 0,
        spec_reply(e, host)[58] & FLAG_SOLICITED != 0,
        (spec_reply(e, host)[58] & FLAG_OVERRIDE != 0) <==> spec_is_multicast(e.dest_addr@),
{
    let c = spec_reply_checksum(e, host);
    let f = spec_reply(e, host);
    lemma_reply_layout(e, host, c);
    assert(f[58] == spec_reply_advert(e, host, c)[4]);
    assert((0xe0u8 & 0x80u8) != 0 && (0xe0u8 & 0x40u8) != 0 && (0xe0u8 & 0x20u8) != 0)
        by (bit_vector);
    assert((0xc0u8 & 0x80u8) != 0 && (0xc0u8 & 0x40u8) != 0 && (0xc0u8 & 0x20u8) == 0)
        by (bit_vector);
    assert((0x80u8 | 0x40u8 | 0x20u8) == 0xe0u8 && (0x80u8 | 0x40u8) == 0xc0u8) by (bit_vector);
}

} // verus!
