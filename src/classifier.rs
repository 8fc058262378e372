//! Per-frame decision: pass a frame on, or consume it and report the
//! Neighbor Solicitation it carries.

use vstd::prelude::*;

use crate::addr::NeighborSolicit;
use crate::channel::EventChannel;
use crate::headers::{
    frame_eth_src, frame_ether_type, frame_icmp_type, frame_ip_dst, frame_ip_src,
    frame_nd_target, frame_next_header, EthHdr, Icmp6Hdr, Ipv6Hdr, NeighborSolicitMessage,
    ETHERTYPE_IPV6, ETH_HDR_LEN, ICMP6_OFFSET, ICMP_NEIGHBOR_SOLICITATION_TYPE, IPV6_OFFSET,
    NEXT_HEADER_ICMPV6, NS_OFFSET,
};

verus! {

/// What becomes of a frame after classification.
#[derive(PartialEq, Eq, Structural, Clone, Copy, Debug)]
pub enum Disposition {
    /// The frame continues through normal processing.
    Pass,
    /// The frame is removed from normal processing.
    Consume,
}

/// The disposition of a frame. Each header is checked in turn; a frame that
/// ends inside a header that must be read is consumed, and a frame that
/// turns out not to be a Neighbor Solicitation is passed.
pub open spec fn spec_disposition(f: Seq<u8>) -> Disposition {
    if f.len() < 14 {
        Disposition::Consume
    } else if frame_ether_type(f) != ETHERTYPE_IPV6 {
        Disposition::Pass
    } else if f.len() < 54 {
        Disposition::Consume
    } else if frame_next_header(f) != NEXT_HEADER_ICMPV6 {
        Disposition::Pass
    } else if f.len() < 58 {
        Disposition::Consume
    } else if frame_icmp_type(f) != ICMP_NEIGHBOR_SOLICITATION_TYPE {
        Disposition::Pass
    } else {
        Disposition::Consume
    }
}

/// Whether a frame is a complete Neighbor Solicitation: IPv6 over Ethernet,
/// carrying ICMPv6 of type 135 with its whole body.
pub open spec fn spec_is_solicitation(f: Seq<u8>) -> bool {
    &&& f.len() >= 78
    &&& frame_ether_type(f) == ETHERTYPE_IPV6
    &&& frame_next_header(f) == NEXT_HEADER_ICMPV6
    &&& frame_icmp_type(f) == ICMP_NEIGHBOR_SOLICITATION_TYPE
}

/// Whether `e` holds the facts of frame `f`: its Ethernet source, IPv6
/// source and destination, and solicited target.
pub open spec fn spec_event_of(f: Seq<u8>, e: NeighborSolicit) -> bool {
    e.has_fields(frame_eth_src(f), frame_ip_src(f), frame_ip_dst(f), frame_nd_target(f))
}

/// Classifies one frame: its disposition, and the solicitation it carries
/// when it is a complete Neighbor Solicitation.
pub fn classify(frame: &[u8]) -> (r: (Disposition, Option<NeighborSolicit>))
    ensures
        r.0 == spec_disposition(frame@),
        r.1 is Some <==> spec_is_solicitation(frame@),
        r.1 matches Some(e) ==> spec_event_of(frame@, e),
{
    let eth = match EthHdr::parse(frame) {
        Some(h) => h,
        None => return (Disposition::Consume, None),
    };
    if eth.ether_type != ETHERTYPE_IPV6 {
        return (Disposition::Pass, None);
    }
    let ip = match Ipv6Hdr::parse(frame, IPV6_OFFSET) {
        Some(h) => h,
        None => return (Disposition::Consume, None),
    };
    if ip.next_hdr != NEXT_HEADER_ICMPV6 {
        return (Disposition::Pass, None);
    }
    let icmp = match Icmp6Hdr::parse(frame, ICMP6_OFFSET) {
        Some(h) => h,
        None => return (Disposition::Consume, None),
    };
    if icmp.type_ != ICMP_NEIGHBOR_SOLICITATION_TYPE {
        return (Disposition::Pass, None);
    }
    let msg = match NeighborSolicitMessage::parse(frame, NS_OFFSET) {
        Some(m) => m,
        None => return (Disposition::Consume, None),
    };
    let ns = NeighborSolicit {
        router_mac: eth.src_addr,
        router_addr: ip.src_addr,
        dest_addr: ip.dst_addr,
        target_addr: msg.target_addr(),
    };
    assert(frame@.subrange(NS_OFFSET + 4, NS_OFFSET + 20) == frame_nd_target(frame@));
    (Disposition::Consume, Some(ns))
}

/// Classifies one frame and offers the solicitation it carries to
/// `channel` without waiting: when the channel has no free slot the
/// solicitation is lost, and the frame is still consumed.
pub fn classify_into(frame: &[u8], channel: &mut EventChannel) -> (r: Disposition)
    requires
        old(channel).wf(),
    ensures
        r == spec_disposition(frame@),
        final(channel).wf(),
        final(channel).spec_capacity() == old(channel).spec_capacity(),
        final(channel).pending() == old(channel).pending(),
        if spec_is_solicitation(frame@) && old(channel).has_room() {
            &&& final(channel)@.len() == old(channel)@.len() + 1
            &&& final(channel)@.drop_last() == old(channel)@
            &&& spec_event_of(frame@, final(channel)@.last())
        } else {
            final(channel)@ == old(channel)@
        },
{
    let (disposition, event) = classify(frame);
    if let Some(e) = event {
        let sent = channel.try_send(e);
        proof {
            if sent {
                assert(channel@.drop_last() =~= old(channel)@);
            }
        }
    }
    disposition
}

/// A frame too short to hold a Neighbor Solicitation's headers yields no
/// solicitation.
pub proof fn lemma_short_frame_no_event(f: Seq<u8>)
    requires
        f.len() < 58,
    ensures
        !spec_is_solicitation(f),
{
}

/// A frame that is not IPv6, not ICMPv6, or not of ICMPv6 type 135 is passed
/// on, and yields no solicitation.
pub proof fn lemma_other_traffic_passes(f: Seq<u8>)
    requires
        (f.len() >= 14 && frame_ether_type(f) != ETHERTYPE_IPV6) || (f.len() >= 54
            && frame_next_header(f) != NEXT_HEADER_ICMPV6) || (f.len() >= 58 && frame_icmp_type(f)
            != ICMP_NEIGHBOR_SOLICITATION_TYPE),
    ensures
        spec_disposition(f) == Disposition::Pass,
        !spec_is_solicitation(f),
{
}

/// A complete Neighbor Solicitation is consumed, and the solicitation it
/// yields holds exactly its source MAC, source and destination addresses and
/// target address.
pub proof fn lemma_solicitation_event(f: Seq<u8>, e: NeighborSolicit)
    requires
        spec_is_solicitation(f),
        spec_event_of(f, e),
    ensures
        spec_disposition(f) == Disposition::Consume,
        e.router_mac.spec_octets() == f.subrange(6, 12),
        e.router_addr@ == f.subrange(22, 38),
        e.dest_addr@ == f.subrange(38, 54),
        e.target_addr@ == f.subrange(62, 78),
{
}

} // verus!
