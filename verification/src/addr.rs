use vstd::prelude::*;

verus! {

/// An IPv4 socket address: the four octets packed big-endian into a `u32`,
/// and a UDP port. The discovery protocol is IPv4-only, so this is the one
/// address shape the library speaks of.
#[derive(PartialEq, Eq, Structural, Clone, Copy, Debug)]
pub struct PeerAddr {
    pub ip: u32,
    pub port: u16,
}

/// The packed form of four IPv4 octets, highest octet first.
pub open spec fn packed_ip(o0: u8, o1: u8, o2: u8, o3: u8) -> u32 {
    ((o0 as u32) << 24) | ((o1 as u32) << 16) | ((o2 as u32) << 8) | (o3 as u32)
}

impl PeerAddr {
    /// Build an address from dotted-quad octets and a port.
    pub fn from_octets(o0: u8, o1: u8, o2: u8, o3: u8, port: u16) -> (r: PeerAddr)
        ensures
            r.ip == packed_ip(o0, o1, o2, o3),
            r.port == port,
    {
        let ip: u32 = ((o0 as u32) << 24u32) | ((o1 as u32) << 16u32) | ((o2 as u32) << 8u32)
            | (o3 as u32);
        PeerAddr { ip, port }
    }

    /// The four dotted-quad octets of the address, highest first.
    pub fn ip_octets(&self) -> (r: (u8, u8, u8, u8))
        ensures
            r.0 == self.ip >> 24,
            r.1 == (self.ip >> 16) & 0xff,
            r.2 == (self.ip >> 8) & 0xff,
            r.3 == self.ip & 0xff,
    {
        let ip = self.ip;
        proof {
            assert(ip >> 24 < 256 && (ip >> 16) & 0xff < 256 && (ip >> 8) & 0xff < 256 && ip
                & 0xff < 256) by (bit_vector);
        }
        (
            #[verifier::truncate] ((ip >> 24u32) as u8),
            #[verifier::truncate] (((ip >> 16u32) & 0xffu32) as u8),
            #[verifier::truncate] (((ip >> 8u32) & 0xffu32) as u8),
            #[verifier::truncate] ((ip & 0xffu32) as u8),
        )
    }
}

/// Packing four octets and taking them apart again are inverses: the octets
/// of a packed address are the octets it was packed from, and packing an
/// address's octets gives the address back.
pub proof fn lemma_pack_octets_inverse(o0: u8, o1: u8, o2: u8, o3: u8, ip: u32)
    ensures
        packed_ip(o0, o1, o2, o3) >> 24 == o0,
        (packed_ip(o0, o1, o2, o3) >> 16) & 0xff == o1,
        (packed_ip(o0, o1, o2, o3) >> 8) & 0xff == o2,
        packed_ip(o0, o1, o2, o3) & 0xff == o3,
        packed_ip(
            #[verifier::truncate] ((ip >> 24) as u8),
            #[verifier::truncate] (((ip >> 16) & 0xff) as u8),
            #[verifier::truncate] (((ip >> 8) & 0xff) as u8),
            #[verifier::truncate] ((ip & 0xff) as u8),
        ) == ip,
{
    assert((((o0 as u32) << 24) | ((o1 as u32) << 16) | ((o2 as u32) << 8) | (o3 as u32)) >> 24
        == o0) by (bit_vector);
    assert(((((o0 as u32) << 24) | ((o1 as u32) << 16) | ((o2 as u32) << 8) | (o3 as u32)) >> 16)
        & 0xff == o1) by (bit_vector);
    assert(((((o0 as u32) << 24) | ((o1 as u32) << 16) | ((o2 as u32) << 8) | (o3 as u32)) >> 8)
        & 0xff == o2) by (bit_vector);
    assert((((o0 as u32) << 24) | ((o1 as u32) << 16) | ((o2 as u32) << 8) | (o3 as u32)) & 0xff
        == o3) by (bit_vector);
    assert(((((ip >> 24) as u8) as u32) << 24) | (((((ip >> 16) & 0xff) as u8) as u32) << 16) | (
    ((((ip >> 8) & 0xff) as u8) as u32) << 8) | (((ip & 0xff) as u8) as u32) == ip)
        by (bit_vector);
}

} // verus!
