//! Socket addresses as Java hands them over: the raw bytes of an IP address
//! and a port number.

use vstd::prelude::*;

verus! {

/// The octets of an IPv4 or an IPv6 address.
pub enum IpOctets {
    V4([u8; 4]),
    V6([u8; 16]),
}

/// A socket address: an IP address and a port.
pub struct SockAddr {
    pub ip: IpOctets,
    pub port: u16,
}

/// The octets of an address decoded from `bytes`: four bytes make an IPv4
/// address, anything else an IPv6 address made of the first sixteen.
pub open spec fn decoded_ip(bytes: Seq<u8>) -> Seq<u8> {
    if bytes.len() == 4 {
        bytes
    } else {
        bytes.subrange(0, 16)
    }
}

/// The octets of an IP address.
pub open spec fn ip_octets(ip: IpOctets) -> Seq<u8> {
    match ip {
        IpOctets::V4(o) => o@,
        IpOctets::V6(o) => o@,
    }
}

/// Decodes an address from the bytes of its IP address and a port number.
/// Four bytes give an IPv4 address; otherwise the first sixteen bytes give an
/// IPv6 address. The port keeps the low sixteen bits of `port`.
pub fn socket_addr_from_bytes(bytes: &[u8], port: i32) -> (addr: SockAddr)
    requires
        bytes.len() == 4 || bytes.len() >= 16,
    ensures
        addr.port == port as u16,
        addr.ip is V4 <==> bytes.len() == 4,
        ip_octets(addr.ip) == decoded_ip(bytes@),
{
    let ip = if bytes.len() == 4 {
        let o: [u8; 4] = [bytes[0], bytes[1], bytes[2], bytes[3]];
        assert(o@ =~= bytes@);
        IpOctets::V4(o)
    } else {
        let o: [u8; 16] = [
            bytes[0],
            bytes[1],
            bytes[2],
            bytes[3],
            bytes[4],
            bytes[5],
            bytes[6],
            bytes[7],
            bytes[8],
            bytes[9],
            bytes[10],
            bytes[11],
            bytes[12],
            bytes[13],
            bytes[14],
            bytes[15],
        ];
        assert(o@ =~= bytes@.subrange(0, 16));
        IpOctets::V6(o)
    };
    SockAddr { ip, port: port as u16 }
}

} // verus!
