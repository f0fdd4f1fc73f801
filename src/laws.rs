//! Facts that relate several operations on addresses.
use crate::addr::{
    lemma_unix_eq_is_identity, InetAddr, IpAddr, Ipv4Addr, Ipv6Addr, SockAddr, SockaddrIn,
    SOCKADDR_IN6_SIZE, SOCKADDR_IN_SIZE, SOCKADDR_STORAGE_SIZE, SOCKADDR_UN_SIZE,
};
use vstd::prelude::*;

verus! {

/// Building an IPv4 address from four octets and reading its octets back
/// gives the same four octets.
pub proof fn lemma_ipv4_octets_round_trip(a: u8, b: u8, c: u8, d: u8)
    ensures
        Ipv4Addr::spec_new(a, b, c, d).spec_octets() == seq![a, b, c, d],
{
    assert(Ipv4Addr::spec_new(a, b, c, d).spec_octets() =~= seq![a, b, c, d]);
}

/// Building an IPv6 address from eight segments and reading its segments
/// back gives the same eight segments.
pub proof fn lemma_ipv6_segments_round_trip(
    a: u16,
    b: u16,
    c: u16,
    d: u16,
    e: u16,
    f: u16,
    g: u16,
    h: u16,
)
    ensures
        Ipv6Addr::spec_new(a, b, c, d, e, f, g, h).spec_segments() == seq![a, b, c, d, e, f, g, h],
{
    let ip = Ipv6Addr::spec_new(a, b, c, d, e, f, g, h);
    assert(ip.spec_segments() =~= seq![a, b, c, d, e, f, g, h]);
}

/// The socket address of an IP address and a port gives back that IP address
/// and that port.
pub proof fn lemma_inet_round_trip(ip: IpAddr, port: u16)
    ensures
        InetAddr::spec_new(ip, port).spec_ip() == ip,
        InetAddr::spec_new(ip, port).spec_port() == port,
{
}

/// Two IPv4 socket addresses with the same port and address bytes are equal,
/// whatever their padding bytes (or family fields) hold.
pub proof fn lemma_inet_eq_ignores_padding(a: SockaddrIn, b: SockaddrIn)
    requires
        a.sin_port@ == b.sin_port@,
        a.sin_addr.s_addr@ == b.sin_addr.s_addr@,
    ensures
        InetAddr::V4(a).spec_eq(InetAddr::V4(b)),
{
}

/// Equal well-formed internet socket addresses are identical: once the
/// family code matches the variant and the padding is zero, `==` leaves no
/// field of the OS structure free.
pub proof fn lemma_inet_eq_is_identity(a: InetAddr, b: InetAddr)
    requires
        a.wf(),
        b.wf(),
        a.spec_eq(b),
    ensures
        a == b,
{
    match (a, b) {
        (InetAddr::V4(x), InetAddr::V4(y)) => {
            assert(x.sin_port =~= y.sin_port);
            assert(x.sin_addr.s_addr =~= y.sin_addr.s_addr);
            assert(x.sin_zero =~= y.sin_zero) by {
                assert(x.sin_zero@ == y.sin_zero@);
            }
        },
        (InetAddr::V6(x), InetAddr::V6(y)) => {
            assert(x.sin6_port =~= y.sin6_port);
            assert(x.sin6_addr.s6_addr =~= y.sin6_addr.s6_addr);
        },
        _ => {},
    }
}

/// Equal well-formed socket addresses are identical.
pub proof fn lemma_sock_eq_is_identity(a: SockAddr, b: SockAddr)
    requires
        a.wf(),
        b.wf(),
        a.spec_eq(b),
    ensures
        a == b,
{
    match (a, b) {
        (SockAddr::Inet(x), SockAddr::Inet(y)) => lemma_inet_eq_is_identity(x, y),
        (SockAddr::Unix(x), SockAddr::Unix(y)) => lemma_unix_eq_is_identity(x, y),
        _ => {},
    }
}

/// The length handed to OS calls is the exact size of the structure of the
/// active variant: an IPv6 structure is larger than an IPv4 one, and no
/// variant gets the size of the generic structure that fits all families.
pub proof fn lemma_socklen_exact(a: SockAddr)
    ensures
        a is Inet && a->Inet_0 is V4 ==> a.spec_socklen() == SOCKADDR_IN_SIZE,
        a is Inet && a->Inet_0 is V6 ==> a.spec_socklen() == SOCKADDR_IN6_SIZE,
        a is Unix ==> a.spec_socklen() == SOCKADDR_UN_SIZE,
        SOCKADDR_IN_SIZE < SOCKADDR_IN6_SIZE,
        a.spec_socklen() != SOCKADDR_STORAGE_SIZE,
{
}

} // verus!
