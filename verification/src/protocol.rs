use vstd::prelude::*;

use crate::addr::PeerAddr;

verus! {

/// Length in bytes of the verification probe.
pub const PROBE_LEN: usize = 14;

/// The UDP port all discovery traffic uses.
pub const DISCOVERY_PORT: u16 = 9487;

/// The administratively-scoped multicast group 239.255.94.87, packed
/// big-endian.
pub const MULTICAST_GROUP_IP: u32 = 0xEFFF5E57;

/// The fixed marker that identifies a pairing probe from a compatible node.
pub open spec fn probe_marker() -> Seq<u8> {
    seq![69u8, 108u8, 32u8, 80u8, 115u8, 121u8, 32u8, 67u8, 111u8, 110u8, 103u8, 114u8, 111u8, 111u8]
}

/// The probe datagram to put on the wire: exactly the fixed marker.
pub fn probe_payload() -> (r: Vec<u8>)
    ensures
        r@ == probe_marker(),
        r@.len() == PROBE_LEN,
{
    let mut v: Vec<u8> = Vec::new();
    v.push(69u8);
    v.push(108u8);
    v.push(32u8);
    v.push(80u8);
    v.push(115u8);
    v.push(121u8);
    v.push(32u8);
    v.push(67u8);
    v.push(111u8);
    v.push(110u8);
    v.push(103u8);
    v.push(114u8);
    v.push(111u8);
    v.push(111u8);
    proof {
        assert(v@ =~= probe_marker());
    }
    v
}

/// Whether the datagram is long enough and starts with the fixed marker.
/// Excess bytes past the marker are ignored, as a receiver with a
/// marker-sized buffer never sees them.
pub fn has_marker_prefix(data: &Vec<u8>) -> (r: bool)
    ensures
        r == (data@.len() >= PROBE_LEN && data@.take(PROBE_LEN as int) == probe_marker()),
{
    if data.len() < PROBE_LEN {
        return false;
    }
    let marker = probe_payload();
    let mut i: usize = 0;
    while i < PROBE_LEN
        invariant
            0 <= i <= PROBE_LEN,
            data@.len() >= PROBE_LEN,
            marker@ == probe_marker(),
            forall|j: int| 0 <= j < i ==> data@[j] == probe_marker()[j],
        decreases PROBE_LEN - i,
    {
        if data[i] != marker[i] {
            assert(data@.take(PROBE_LEN as int)[i as int] != probe_marker()[i as int]);
            return false;
        }
        i += 1;
    }
    proof {
        assert(data@.take(PROBE_LEN as int) =~= probe_marker());
    }
    true
}

/// The discovery group: multicast address 239.255.94.87, port 9487. Probes
/// are sent to this address and the listening socket joins this group.
pub fn discovery_group() -> (r: PeerAddr)
    ensures
        r.ip == MULTICAST_GROUP_IP,
        r.port == DISCOVERY_PORT,
{
    PeerAddr { ip: MULTICAST_GROUP_IP, port: DISCOVERY_PORT }
}

} // verus!
