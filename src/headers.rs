//! Fixed-layout views of the Ethernet, IPv6, ICMPv6 and Neighbor
//! Solicitation headers, and their parsers.

use vstd::prelude::*;

use crate::addr::MacAddr;
use crate::wire::{be16, read_array, read_be16};

verus! {

/// Length of an Ethernet header.
pub const ETH_HDR_LEN: usize = 14;
/// Length of the fixed IPv6 header.
pub const IPV6_HDR_LEN: usize = 40;
/// Length of an ICMPv6 header.
pub const ICMP6_HDR_LEN: usize = 4;
/// Length of a Neighbor Solicitation body.
pub const NS_MSG_LEN: usize = 20;

/// Offset of the IPv6 header in a frame.
pub const IPV6_OFFSET: usize = 14;
/// Offset of the ICMPv6 header in a frame.
pub const ICMP6_OFFSET: usize = 54;
/// Offset of the Neighbor Solicitation body in a frame.
pub const NS_OFFSET: usize = 58;

/// EtherType of IPv6.
pub const ETHERTYPE_IPV6: u16 = 0x86dd;
/// IPv6 next-header value of ICMPv6.
pub const NEXT_HEADER_ICMPV6: u8 = 58;
/// ICMPv6 type of a Neighbor Solicitation.
pub const ICMP_NEIGHBOR_SOLICITATION_TYPE: u8 = 135;
/// ICMPv6 type of a Neighbor Advertisement.
pub const ICMP_NEIGHBOR_ADVERTISEMENT_TYPE: u8 = 136;

/// Ethernet destination of a frame.
pub open spec fn frame_eth_dst(f: Seq<u8>) -> Seq<u8> {
    f.subrange(0, 6)
}

/// Ethernet source of a frame.
pub open spec fn frame_eth_src(f: Seq<u8>) -> Seq<u8> {
    f.subrange(6, 12)
}

/// EtherType of a frame.
pub open spec fn frame_ether_type(f: Seq<u8>) -> u16 {
    be16(f, 12)
}

/// IPv6 next-header field of a frame.
pub open spec fn frame_next_header(f: Seq<u8>) -> u8 {
    f[20]
}

/// IPv6 hop limit of a frame.
pub open spec fn frame_hop_limit(f: Seq<u8>) -> u8 {
    f[21]
}

/// IPv6 source address of a frame.
pub open spec fn frame_ip_src(f: Seq<u8>) -> Seq<u8> {
    f.subrange(22, 38)
}

/// IPv6 destination address of a frame.
pub open spec fn frame_ip_dst(f: Seq<u8>) -> Seq<u8> {
    f.subrange(38, 54)
}

/// ICMPv6 type of a frame.
pub open spec fn frame_icmp_type(f: Seq<u8>) -> u8 {
    f[54]
}

/// ICMPv6 checksum of a frame.
pub open spec fn frame_icmp_checksum(f: Seq<u8>) -> u16 {
    be16(f, 56)
}

/// Target address of a Neighbor Solicitation or Advertisement frame.
pub open spec fn frame_nd_target(f: Seq<u8>) -> Seq<u8> {
    f.subrange(62, 78)
}

/// An Ethernet header.
#[derive(Clone, Copy, Debug)]
pub struct EthHdr {
    pub dst_addr: MacAddr,
    pub src_addr: MacAddr,
    pub ether_type: u16,
}

impl EthHdr {
    /// Reads the Ethernet header at the start of `buf`; `None` when `buf` is
    /// too short to hold one.
    pub fn parse(buf: &[u8]) -> (r: Option<EthHdr>)
        ensures
            r is None <==> buf@.len() < ETH_HDR_LEN,
            r matches Some(h) ==> {
                &&& h.dst_addr.spec_octets() == frame_eth_dst(buf@)
                &&& h.src_addr.spec_octets() == frame_eth_src(buf@)
                &&& h.ether_type == frame_ether_type(buf@)
            },
    {
        if buf.len() < ETH_HDR_LEN {
            return None;
        }
        let dst: [u8; 6] = read_array(buf, 0);
        let src: [u8; 6] = read_array(buf, 6);
        Some(EthHdr { dst_addr: MacAddr::from(dst), src_addr: MacAddr::from(src), ether_type: read_be16(buf, 12) })
    }
}

/// The fixed IPv6 header.
#[derive(Clone, Copy, Debug)]
pub struct Ipv6Hdr {
    /// Version, traffic class and flow label.
    pub vtc_flow: [u8; 4],
    pub payload_len: u16,
    pub next_hdr: u8,
    pub hop_limit: u8,
    pub src_addr: [u8; 16],
    pub dst_addr: [u8; 16],
}

impl Ipv6Hdr {
    /// Reads the IPv6 header at `buf[off..off + 40]`; `None` when `buf` ends
    /// before it does.
    pub fn parse(buf: &[u8], off: usize) -> (r: Option<Ipv6Hdr>)
        ensures
            r is None <==> buf@.len() < off + IPV6_HDR_LEN,
            r matches Some(h) ==> {
                &&& h.vtc_flow@ == buf@.subrange(off as int, off + 4)
                &&& h.payload_len == be16(buf@, off + 4)
                &&& h.next_hdr == buf@[off + 6]
                &&& h.hop_limit == buf@[off + 7]
                &&& h.src_addr@ == buf@.subrange(off + 8, off + 24)
                &&& h.dst_addr@ == buf@.subrange(off + 24, off + 40)
            },
    {
        if buf.len() < IPV6_HDR_LEN || off > buf.len() - IPV6_HDR_LEN {
            return None;
        }
        Some(Ipv6Hdr {
            vtc_flow: read_array(buf, off),
            payload_len: read_be16(buf, off + 4),
            next_hdr: buf[off + 6],
            hop_limit: buf[off + 7],
            src_addr: read_array(buf, off + 8),
            dst_addr: read_array(buf, off + 24),
        })
    }
}

/// An ICMPv6 header.
#[derive(Clone, Copy, Debug)]
pub struct Icmp6Hdr {
    pub type_: u8,
    pub code: u8,
    pub checksum: u16,
}

impl Icmp6Hdr {
    /// Reads the ICMPv6 header at `buf[off..off + 4]`; `None` when `buf` ends
    /// before it does.
    pub fn parse(buf: &[u8], off: usize) -> (r: Option<Icmp6Hdr>)
        ensures
            r is None <==> buf@.len() < off + ICMP6_HDR_LEN,
            r matches Some(h) ==> {
                &&& h.type_ == buf@[off as int]
                &&& h.code == buf@[off + 1]
                &&& h.checksum == be16(buf@, off + 2)
            },
    {
        if buf.len() < ICMP6_HDR_LEN || off > buf.len() - ICMP6_HDR_LEN {
            return None;
        }
        Some(Icmp6Hdr { type_: buf[off], code: buf[off + 1], checksum: read_be16(buf, off + 2) })
    }
}

/// The body of a Neighbor Solicitation.
#[derive(Clone, Copy, Debug)]
pub struct NeighborSolicitMessage {
    pub _reserved: [u8; 4],
    pub target_addr: [u8; 16],
}

impl NeighborSolicitMessage {
    /// Reads the body at `buf[off..off + 20]`; `None` when `buf` ends before
    /// it does.
    pub fn parse(buf: &[u8], off: usize) -> (r: Option<NeighborSolicitMessage>)
        ensures
            r is None <==> buf@.len() < off + NS_MSG_LEN,
            r matches Some(m) ==> {
                &&& m._reserved@ == buf@.subrange(off as int, off + 4)
                &&& m.target_addr@ == buf@.subrange(off + 4, off + 20)
            },
    {
        if buf.len() < NS_MSG_LEN || off > buf.len() - NS_MSG_LEN {
            return None;
        }
        Some(NeighborSolicitMessage { _reserved: read_array(buf, off), target_addr: read_array(buf, off + 4) })
    }

    /// The address that the solicitation asks about.
    pub fn target_addr(&self) -> (r: [u8; 16])
        ensures
            r@ == self.target_addr@,
    {
        self.target_addr
    }
}

} // verus!
