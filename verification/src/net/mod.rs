pub mod dns;
pub mod http;
pub mod tcp;

use vstd::prelude::*;
use crate::ffi::net::{vm_sockaddr_struct, VM_MAX_SOCK_ADDR_LEN};

verus! {

/// `core::net::SocketAddrV4`, an IPv4 address and port; opaque here.
#[verifier::external_type_specification]
#[verifier::external_body]
pub struct ExSocketAddrV4(core::net::SocketAddrV4);

/// `core::net::Ipv4Addr`; opaque here.
#[verifier::external_type_specification]
#[verifier::external_body]
pub struct ExIpv4Addr(core::net::Ipv4Addr);

/// The IP address that a socket address holds.
pub uninterp spec fn socket_ip_of(addr: core::net::SocketAddrV4) -> core::net::Ipv4Addr;

/// The port that a socket address holds.
pub uninterp spec fn socket_port_of(addr: core::net::SocketAddrV4) -> u16;

/// The four bytes of an IPv4 address, first byte first.
pub uninterp spec fn ipv4_octets_of(ip: core::net::Ipv4Addr) -> Seq<u8>;

/// The IP address of a socket address (std's `SocketAddrV4::ip`). The
/// contract claims only that the result is the address that the socket
/// address holds.
#[verifier::external_body]
fn socket_ip(addr: &core::net::SocketAddrV4) -> (res: core::net::Ipv4Addr)
    ensures
        res == socket_ip_of(*addr),
{
    *addr.ip()
}

/// The four bytes of an address, first byte first (std's `Ipv4Addr::octets`).
/// The contract claims that the result is the address's bytes, four of them.
#[verifier::external_body]
fn ip_octets(ip: &core::net::Ipv4Addr) -> (res: [u8; 4])
    ensures
        res@ == ipv4_octets_of(*ip),
{
    ip.octets()
}

/// The port of a socket address (std's `SocketAddrV4::port`). The contract
/// claims only that the result is the port that the socket address holds.
#[verifier::external_body]
fn socket_port(addr: &core::net::SocketAddrV4) -> (res: u16)
    ensures
        res == socket_port_of(*addr),
{
    addr.port()
}

/// The platform's socket address for an IPv4 address and port: length 4,
/// the port, the four address bytes first and zeros after them.
pub fn sockaddr_from_parts(octets: [u8; 4], port: u16) -> (res: vm_sockaddr_struct)
    ensures
        res.addr_len == 4,
        res.port == port,
        forall|i: int| 0 <= i < 4 ==> res.addr@[i] == octets@[i],
        forall|i: int| 4 <= i < VM_MAX_SOCK_ADDR_LEN ==> res.addr@[i] == 0,
{
    let mut addr_buf: [u8; 28] = [0u8; 28];
    let mut i: usize = 0;
    while i < 4
        invariant
            i <= 4,
            forall|k: int| 0 <= k < i ==> addr_buf@[k] == octets@[k],
            forall|k: int| 4 <= k < 28 ==> addr_buf@[k] == 0,
        decreases 4 - i,
    {
        addr_buf[i] = octets[i];
        i = i + 1;
    }
    vm_sockaddr_struct { addr_len: 4, port, addr: addr_buf }
}

/// Conversion of an address to the platform's socket address.
pub trait IntoMreSockAddr {
    fn into_mre_sockaddr(&self) -> vm_sockaddr_struct;
}

impl IntoMreSockAddr for core::net::SocketAddrV4 {
    /// The address's four bytes and port, as `sockaddr_from_parts` lays them out.
    fn into_mre_sockaddr(&self) -> (res: vm_sockaddr_struct)
        ensures
            res.addr_len == 4,
            res.port == socket_port_of(*self),
            forall|i: int| 0 <= i < 4 ==> res.addr@[i] == ipv4_octets_of(socket_ip_of(*self))[i],
            forall|i: int| 4 <= i < VM_MAX_SOCK_ADDR_LEN ==> res.addr@[i] == 0,
    {
        let ip = socket_ip(self);
        sockaddr_from_parts(ip_octets(&ip), socket_port(self))
    }
}

} // verus!
