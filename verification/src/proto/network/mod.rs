//! Network access protocols.
use vstd::prelude::*;

pub mod pxe;
pub mod read_dir;
pub mod snp;

verus! {

/// An IPv4 or IPv6 internet protocol address.
///
/// An IPv4 address occupies the first four bytes; the rest are zero.
#[derive(Clone, Copy, Debug)]
pub struct IpAddress(pub [u8; 16]);

impl IpAddress {
    /// An IPv4 address: its four bytes, then zeros.
    pub fn new_v4(ip_addr: [u8; 4]) -> (r: IpAddress)
        ensures
            r.0@ == ip_addr@ + Seq::new(12, |_i: int| 0u8),
    {
        let r = IpAddress([ip_addr[0], ip_addr[1], ip_addr[2], ip_addr[3], 0, 0, 0, 0, 0, 0, 0, 0, 0, 0, 0, 0]);
        proof {
            assert(r.0@ =~= ip_addr@ + Seq::new(12, |_i: int| 0u8));
        }
        r
    }

    /// An IPv6 address: its sixteen bytes.
    pub fn new_v6(ip_addr: [u8; 16]) -> (r: IpAddress)
        ensures
            r.0 == ip_addr,
    {
        IpAddress(ip_addr)
    }
}

/// A hardware (MAC) address, padded with zeros to 32 bytes.
#[derive(Clone, Copy, Debug)]
pub struct MacAddress(pub [u8; 32]);

} // verus!
