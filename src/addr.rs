//! Link-layer and network addresses, and the record that describes one
//! observed Neighbor Solicitation.

use vstd::prelude::*;

use crate::wire::{push_bytes, read_array};

verus! {

/// A 48-bit Ethernet hardware address.
#[derive(PartialEq, Eq, Structural, Clone, Copy, Debug, Default, Hash, PartialOrd, Ord)]
pub struct MacAddr(pub u8, pub u8, pub u8, pub u8, pub u8, pub u8);

impl MacAddr {
    /// The six octets of the address, in wire order.
    pub open spec fn spec_octets(&self) -> Seq<u8> {
        seq![self.0, self.1, self.2, self.3, self.4, self.5]
    }

    /// The address whose octets are `s[0..6]`.
    pub open spec fn from_seq(s: Seq<u8>) -> MacAddr
        recommends
            s.len() >= 6,
    {
        MacAddr(s[0], s[1], s[2], s[3], s[4], s[5])
    }

    /// Construct a new `MacAddr` instance.
    pub fn new(a: u8, b: u8, c: u8, d: u8, e: u8, f: u8) -> (r: MacAddr)
        ensures
            r == MacAddr(a, b, c, d, e, f),
    {
        MacAddr(a, b, c, d, e, f)
    }

    /// Returns the six eight-bit integers that make up this address.
    pub fn octets(&self) -> (r: [u8; 6])
        ensures
            r@ == self.spec_octets(),
    {
        let r = [self.0, self.1, self.2, self.3, self.4, self.5];
        assert(r@ =~= self.spec_octets());
        r
    }
}

impl From<[u8; 6]> for MacAddr {
    fn from(addr: [u8; 6]) -> (r: MacAddr)
        ensures
            r.spec_octets() == addr@,
    {
        let r = MacAddr(addr[0], addr[1], addr[2], addr[3], addr[4], addr[5]);
        assert(r.spec_octets() =~= addr@);
        r
    }
}

impl vstd::std_specs::convert::FromSpecImpl<[u8; 6]> for MacAddr {
    open spec fn obeys_from_spec() -> bool {
        true
    }

    open spec fn from_spec(addr: [u8; 6]) -> MacAddr {
        MacAddr::from_seq(addr@)
    }
}

/// Whether an IPv6 address lies in the multicast range `ff00::/8`.
pub open spec fn spec_is_multicast(addr: Seq<u8>) -> bool {
    addr.len() == 16 && addr[0] == 0xff
}

/// Whether an IPv6 address, given by its sixteen octets, is multicast.
pub fn is_multicast(addr: &[u8; 16]) -> (r: bool)
    ensures
        r == spec_is_multicast(addr@),
{
    addr[0] == 0xff
}

/// One observed Neighbor Solicitation: who asked, from where, to where, and
/// for which address.
#[derive(Clone, Copy, Debug)]
pub struct NeighborSolicit {
    /// Link-layer source of the solicitation.
    pub router_mac: MacAddr,
    /// IPv6 source of the solicitation.
    pub router_addr: [u8; 16],
    /// IPv6 destination of the solicitation.
    pub dest_addr: [u8; 16],
    /// The address whose link-layer address was asked for.
    pub target_addr: [u8; 16],
}

/// Size in bytes of the fixed record layout of a `NeighborSolicit`.
pub const RECORD_LEN: usize = 54;

impl NeighborSolicit {
    /// The record layout: MAC, then source, destination and target address,
    /// with no padding.
    pub open spec fn spec_record(&self) -> Seq<u8> {
        self.router_mac.spec_octets() + self.router_addr@ + self.dest_addr@ + self.target_addr@
    }

    /// Whether `self` is the solicitation whose fields are the given byte
    /// sequences.
    pub open spec fn has_fields(
        &self,
        mac: Seq<u8>,
        router: Seq<u8>,
        dest: Seq<u8>,
        target: Seq<u8>,
    ) -> bool {
        &&& self.router_mac.spec_octets() == mac
        &&& self.router_addr@ == router
        &&& self.dest_addr@ == dest
        &&& self.target_addr@ == target
    }

    /// Whether `rec` is a record in the fixed layout whose fields are those
    /// of `self`.
    pub open spec fn is_record_of(&self, rec: Seq<u8>) -> bool {
        &&& rec.len() == RECORD_LEN
        &&& self.has_fields(
            rec.subrange(0, 6),
            rec.subrange(6, 22),
            rec.subrange(22, 38),
            rec.subrange(38, 54),
        )
    }

    /// Writes the record in its fixed layout.
    pub fn to_record(&self) -> (r: Vec<u8>)
        ensures
            r@ == self.spec_record(),
            self.is_record_of(r@),
    {
        let mut v: Vec<u8> = Vec::new();
        push_bytes(&mut v, &self.router_mac.octets());
        push_bytes(&mut v, &self.router_addr);
        push_bytes(&mut v, &self.dest_addr);
        push_bytes(&mut v, &self.target_addr);
        assert(v@.subrange(0, 6) =~= self.router_mac.spec_octets());
        assert(v@.subrange(6, 22) =~= self.router_addr@);
        assert(v@.subrange(22, 38) =~= self.dest_addr@);
        assert(v@.subrange(38, 54) =~= self.target_addr@);
        v
    }

    /// Reads a record in the fixed layout; `None` when `rec` does not have
    /// exactly the record's length.
    pub fn from_record(rec: &[u8]) -> (r: Option<NeighborSolicit>)
        ensures
            r is None <==> rec@.len() != RECORD_LEN,
            r matches Some(e) ==> e.is_record_of(rec@),
    {
        if rec.len() != RECORD_LEN {
            return None;
        }
        let mac: [u8; 6] = read_array(rec, 0);
        Some(NeighborSolicit {
            router_mac: MacAddr::from(mac),
            router_addr: read_array(rec, 6),
            dest_addr: read_array(rec, 22),
            target_addr: read_array(rec, 38),
        })
    }
}

/// Decoding a written record gives back the fields it was written from.
pub proof fn lemma_record_round_trip(e: NeighborSolicit, d: NeighborSolicit)
    requires
        d.is_record_of(e.spec_record()),
    ensures
        d.router_mac == e.router_mac,
        d.router_addr@ == e.router_addr@,
        d.dest_addr@ == e.dest_addr@,
        d.target_addr@ == e.target_addr@,
{
    let rec = e.spec_record();
    assert(rec.subrange(0, 6) =~= e.router_mac.spec_octets());
    assert(rec.subrange(6, 22) =~= e.router_addr@);
    assert(rec.subrange(22, 38) =~= e.dest_addr@);
    assert(rec.subrange(38, 54) =~= e.target_addr@);
    assert(d.router_mac.spec_octets() =~= e.router_mac.spec_octets());
    assert(d.router_mac.spec_octets()[0] == e.router_mac.spec_octets()[0]);
    assert(d.router_mac.spec_octets()[1] == e.router_mac.spec_octets()[1]);
    assert(d.router_mac.spec_octets()[2] == e.router_mac.spec_octets()[2]);
    assert(d.router_mac.spec_octets()[3] == e.router_mac.spec_octets()[3]);
    assert(d.router_mac.spec_octets()[4] == e.router_mac.spec_octets()[4]);
    assert(d.router_mac.spec_octets()[5] == e.router_mac.spec_octets()[5]);
}

} // verus!
