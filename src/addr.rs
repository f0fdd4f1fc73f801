//! Socket addresses in the layout of the OS structures that carry them:
//! IPv4 and IPv6 addresses, internet socket addresses (address and port),
//! Unix-domain socket addresses (a path), and the union of the two kinds.
//!
//! Multi-byte fields that the OS reads in network byte order (ports and
//! addresses) are held as their big-endian bytes, exactly as they lie in the
//! OS structure, whatever the byte order of the host.
use crate::errno::{Error, NixResult};
use crate::path::{has_nul, NixPath};
use vstd::prelude::*;
use vstd::slice::slice_subrange;

verus! {

/// Family code of Unix-domain sockets.
pub const AF_UNIX: i32 = 1;

/// Family code of IPv4 sockets.
pub const AF_INET: i32 = 2;

/// Family code of IPv6 sockets.
pub const AF_INET6: i32 = 10;

/// Bytes in the path buffer of a Unix-domain socket address.
pub const SUN_PATH_LEN: usize = 108;

/// Bytes of the OS structure of an IPv4 socket address.
pub const SOCKADDR_IN_SIZE: u32 = 16;

/// Bytes of the OS structure of an IPv6 socket address.
pub const SOCKADDR_IN6_SIZE: u32 = 28;

/// Bytes of the OS structure of a Unix-domain socket address.
pub const SOCKADDR_UN_SIZE: u32 = 110;

/// Bytes of the OS structure large enough for any socket address.
pub const SOCKADDR_STORAGE_SIZE: u32 = 128;

/// The protocol family of a socket address.
#[derive(Clone, Copy, Debug, PartialEq, Eq, Structural, Hash)]
pub enum AddressFamily {
    Unix,
    Inet,
    Inet6,
}

impl AddressFamily {
    pub open spec fn spec_code(self) -> i32 {
        match self {
            AddressFamily::Unix => AF_UNIX,
            AddressFamily::Inet => AF_INET,
            AddressFamily::Inet6 => AF_INET6,
        }
    }

    /// The platform's numeric code of this family.
    pub fn code(&self) -> (r: i32)
        ensures
            r == self.spec_code(),
    {
        match *self {
            AddressFamily::Unix => AF_UNIX,
            AddressFamily::Inet => AF_INET,
            AddressFamily::Inet6 => AF_INET6,
        }
    }
}

/// Decimal digits of `n`, most significant first, without leading zeros.
pub open spec fn decimal(n: nat) -> Seq<char>
    decreases n,
{
    if n < 10 {
        seq![digit(n)]
    } else {
        decimal(n / 10).push(digit(n % 10))
    }
}

pub open spec fn digit(d: nat) -> char {
    if d == 0 { '0' }
    else if d == 1 { '1' }
    else if d == 2 { '2' }
    else if d == 3 { '3' }
    else if d == 4 { '4' }
    else if d == 5 { '5' }
    else if d == 6 { '6' }
    else if d == 7 { '7' }
    else if d == 8 { '8' }
    else { '9' }
}

/// The one-character text of the digit `d`.
fn digit_text(d: u16) -> (r: &'static str)
    requires
        d < 10,
    ensures
        r@ == seq![digit(d as nat)],
{
    proof {
        reveal_strlit("0");
        reveal_strlit("1");
        reveal_strlit("2");
        reveal_strlit("3");
        reveal_strlit("4");
        reveal_strlit("5");
        reveal_strlit("6");
        reveal_strlit("7");
        reveal_strlit("8");
        reveal_strlit("9");
    }
    if d == 0 { "0" }
    else if d == 1 { "1" }
    else if d == 2 { "2" }
    else if d == 3 { "3" }
    else if d == 4 { "4" }
    else if d == 5 { "5" }
    else if d == 6 { "6" }
    else if d == 7 { "7" }
    else if d == 8 { "8" }
    else { "9" }
}

/// The decimal text of `n`: its digits without sign or leading zeros.
fn u16_text(n: u16) -> (r: String)
    ensures
        r@ == decimal(n as nat),
    decreases n,
{
    if n < 10 {
        String::from_str(digit_text(n))
    } else {
        let mut r = u16_text(n / 10);
        r.append(digit_text(n % 10));
        r
    }
}

/// The conventional text of the IPv6 address whose sixteen bytes in network
/// order are `bytes` (zero runs compressed, lower-case hexadecimal).
pub uninterp spec fn ipv6_text(bytes: Seq<u8>) -> Seq<char>;

/// Relies on the `Display` of `core::net::Ipv6Addr` (built from its sixteen
/// bytes in network order): the text depends on the bytes alone.
#[verifier::external_body]
fn ipv6_to_text(bytes: [u8; 16]) -> (r: String)
    ensures
        r@ == ipv6_text(bytes@),
{
    core::net::Ipv6Addr::from(bytes).to_string()
}

// ===== Ipv4Addr =====

/// An IPv4 address, held as its four bytes in network order.
#[derive(Clone, Copy, Debug, Hash)]
pub struct Ipv4Addr {
    pub s_addr: [u8; 4],
}

impl Ipv4Addr {
    /// The address a.b.c.d.
    pub open spec fn spec_new(a: u8, b: u8, c: u8, d: u8) -> Ipv4Addr {
        Ipv4Addr { s_addr: [a, b, c, d] }
    }

    /// The four octets, in the order they are written.
    pub open spec fn spec_octets(self) -> Seq<u8> {
        self.s_addr@
    }

    /// The address as one 32-bit number in host order (the first octet is
    /// the most significant).
    pub open spec fn spec_bits(self) -> nat {
        self.s_addr@[0] as nat * 0x1000000 + self.s_addr@[1] as nat * 0x10000
            + self.s_addr@[2] as nat * 0x100 + self.s_addr@[3] as nat
    }

    /// The address a.b.c.d.
    pub fn new(a: u8, b: u8, c: u8, d: u8) -> (r: Ipv4Addr)
        ensures
            r == Self::spec_new(a, b, c, d),
            r.spec_octets() == seq![a, b, c, d],
    {
        let r = Ipv4Addr { s_addr: [a, b, c, d] };
        assert(r.spec_octets() =~= seq![a, b, c, d]);
        r
    }

    /// The wildcard address 0.0.0.0.
    pub fn any() -> (r: Ipv4Addr)
        ensures
            r.spec_octets() == seq![0u8, 0u8, 0u8, 0u8],
            r.spec_bits() == 0,
    {
        Ipv4Addr::new(0, 0, 0, 0)
    }

    /// The four octets, in the order they are written.
    pub fn octets(&self) -> (r: [u8; 4])
        ensures
            r@ == self.spec_octets(),
    {
        self.s_addr
    }

    /// The dotted-quad text "a.b.c.d".
    pub open spec fn spec_text(self) -> Seq<char> {
        decimal(self.s_addr@[0] as nat) + seq!['.'] + decimal(self.s_addr@[1] as nat) + seq!['.']
            + decimal(self.s_addr@[2] as nat) + seq!['.'] + decimal(self.s_addr@[3] as nat)
    }

    /// The dotted-quad text "a.b.c.d".
    pub fn to_str(&self) -> (r: String)
        ensures
            r@ == self.spec_text(),
    {
        let mut r = u16_text(self.s_addr[0] as u16);
        r.append(".");
        r.append(u16_text(self.s_addr[1] as u16).as_str());
        r.append(".");
        r.append(u16_text(self.s_addr[2] as u16).as_str());
        r.append(".");
        r.append(u16_text(self.s_addr[3] as u16).as_str());
        proof {
            reveal_strlit(".");
        }
        r
    }
}

impl View for Ipv4Addr {
    type V = Seq<u8>;

    open spec fn view(&self) -> Seq<u8> {
        self.s_addr@
    }
}

impl PartialEq for Ipv4Addr {
    fn eq(&self, other: &Ipv4Addr) -> (r: bool) {
        let r = self.s_addr[0] == other.s_addr[0] && self.s_addr[1] == other.s_addr[1]
            && self.s_addr[2] == other.s_addr[2] && self.s_addr[3] == other.s_addr[3];
        proof {
            if r {
                assert(self.s_addr@ =~= other.s_addr@);
            }
        }
        r
    }
}

impl vstd::std_specs::cmp::PartialEqSpecImpl for Ipv4Addr {
    open spec fn obeys_eq_spec() -> bool {
        true
    }

    open spec fn eq_spec(&self, other: &Ipv4Addr) -> bool {
        self.s_addr@ == other.s_addr@
    }
}

impl Eq for Ipv4Addr {
}

// ===== Ipv6Addr =====

/// The 16-bit number held by the two bytes `hi`, `lo` in network order.
pub open spec fn be16(hi: u8, lo: u8) -> u16 {
    (hi as int * 256 + lo as int) as u16
}

/// An IPv6 address, held as its sixteen bytes in network order.
#[derive(Clone, Copy, Debug, Hash)]
pub struct Ipv6Addr {
    pub s6_addr: [u8; 16],
}

impl Ipv6Addr {
    /// The address a:b:c:d:e:f:g:h, each segment stored as its two bytes in
    /// network order.
    pub open spec fn spec_new(a: u16, b: u16, c: u16, d: u16, e: u16, f: u16, g: u16, h: u16) -> Ipv6Addr {
        Ipv6Addr {
            s6_addr: [
                (a / 256) as u8, (a % 256) as u8,
                (b / 256) as u8, (b % 256) as u8,
                (c / 256) as u8, (c % 256) as u8,
                (d / 256) as u8, (d % 256) as u8,
                (e / 256) as u8, (e % 256) as u8,
                (f / 256) as u8, (f % 256) as u8,
                (g / 256) as u8, (g % 256) as u8,
                (h / 256) as u8, (h % 256) as u8,
            ],
        }
    }

    /// The eight 16-bit segments, in the order they are written.
    pub open spec fn spec_segments(self) -> Seq<u16> {
        Seq::new(8, |i: int| be16(self.s6_addr@[2 * i], self.s6_addr@[2 * i + 1]))
    }

    /// The address a:b:c:d:e:f:g:h.
    pub fn new(a: u16, b: u16, c: u16, d: u16, e: u16, f: u16, g: u16, h: u16) -> (r: Ipv6Addr)
        ensures
            r == Self::spec_new(a, b, c, d, e, f, g, h),
            r.spec_segments() == seq![a, b, c, d, e, f, g, h],
    {
        let r = Ipv6Addr {
            s6_addr: [
                (a / 256) as u8, (a % 256) as u8,
                (b / 256) as u8, (b % 256) as u8,
                (c / 256) as u8, (c % 256) as u8,
                (d / 256) as u8, (d % 256) as u8,
                (e / 256) as u8, (e % 256) as u8,
                (f / 256) as u8, (f % 256) as u8,
                (g / 256) as u8, (g % 256) as u8,
                (h / 256) as u8, (h % 256) as u8,
            ],
        };
        assert(r.spec_segments() =~= seq![a, b, c, d, e, f, g, h]);
        r
    }

    /// The eight 16-bit segments, in the order they are written.
    pub fn segments(&self) -> (r: [u16; 8])
        ensures
            r@ == self.spec_segments(),
    {
        let b = &self.s6_addr;
        let r = [
            b[0] as u16 * 256 + b[1] as u16,
            b[2] as u16 * 256 + b[3] as u16,
            b[4] as u16 * 256 + b[5] as u16,
            b[6] as u16 * 256 + b[7] as u16,
            b[8] as u16 * 256 + b[9] as u16,
            b[10] as u16 * 256 + b[11] as u16,
            b[12] as u16 * 256 + b[13] as u16,
            b[14] as u16 * 256 + b[15] as u16,
        ];
        assert(r@ =~= self.spec_segments());
        r
    }

    /// The conventional text of the address, with the longest run of zero
    /// segments compressed to "::".
    pub fn to_str(&self) -> (r: String)
        ensures
            r@ == ipv6_text(self.s6_addr@),
    {
        ipv6_to_text(self.s6_addr)
    }
}

impl View for Ipv6Addr {
    type V = Seq<u8>;

    open spec fn view(&self) -> Seq<u8> {
        self.s6_addr@
    }
}

impl PartialEq for Ipv6Addr {
    fn eq(&self, other: &Ipv6Addr) -> (r: bool) {
        let mut i: usize = 0;
        while i < 16
            invariant
                i <= 16,
                forall|j: int| 0 <= j < i ==> self.s6_addr@[j] == other.s6_addr@[j],
            decreases 16 - i,
        {
            if self.s6_addr[i] != other.s6_addr[i] {
                return false;
            }
            i = i + 1;
        }
        assert(self.s6_addr@ =~= other.s6_addr@);
        true
    }
}

impl vstd::std_specs::cmp::PartialEqSpecImpl for Ipv6Addr {
    open spec fn obeys_eq_spec() -> bool {
        true
    }

    open spec fn eq_spec(&self, other: &Ipv6Addr) -> bool {
        self.s6_addr@ == other.s6_addr@
    }
}

impl Eq for Ipv6Addr {
}

// ===== IpAddr =====

/// An IPv4 or an IPv6 address.
#[derive(Clone, Copy, Debug, Hash)]
pub enum IpAddr {
    V4(Ipv4Addr),
    V6(Ipv6Addr),
}

impl IpAddr {
    /// The IPv4 address a.b.c.d.
    pub fn new_v4(a: u8, b: u8, c: u8, d: u8) -> (r: IpAddr)
        ensures
            r matches IpAddr::V4(ip) && ip.spec_octets() == seq![a, b, c, d],
    {
        IpAddr::V4(Ipv4Addr::new(a, b, c, d))
    }

    /// The IPv6 address a:b:c:d:e:f:g:h.
    pub fn new_v6(a: u16, b: u16, c: u16, d: u16, e: u16, f: u16, g: u16, h: u16) -> (r: IpAddr)
        ensures
            r matches IpAddr::V6(ip) && ip.spec_segments() == seq![a, b, c, d, e, f, g, h],
    {
        IpAddr::V6(Ipv6Addr::new(a, b, c, d, e, f, g, h))
    }

    pub open spec fn spec_text(self) -> Seq<char> {
        match self {
            IpAddr::V4(ip) => ip.spec_text(),
            IpAddr::V6(ip) => ipv6_text(ip.s6_addr@),
        }
    }

    /// The text of the address: dotted quad for IPv4, the conventional
    /// compressed form for IPv6.
    pub fn to_str(&self) -> (r: String)
        ensures
            r@ == self.spec_text(),
    {
        match self {
            IpAddr::V4(ip) => ip.to_str(),
            IpAddr::V6(ip) => ip.to_str(),
        }
    }
}

impl PartialEq for IpAddr {
    fn eq(&self, other: &IpAddr) -> (r: bool) {
        match (self, other) {
            (IpAddr::V4(a), IpAddr::V4(b)) => a == b,
            (IpAddr::V6(a), IpAddr::V6(b)) => a == b,
            _ => false,
        }
    }
}

impl vstd::std_specs::cmp::PartialEqSpecImpl for IpAddr {
    open spec fn obeys_eq_spec() -> bool {
        true
    }

    open spec fn eq_spec(&self, other: &IpAddr) -> bool {
        match (*self, *other) {
            (IpAddr::V4(a), IpAddr::V4(b)) => a.s_addr@ == b.s_addr@,
            (IpAddr::V6(a), IpAddr::V6(b)) => a.s6_addr@ == b.s6_addr@,
            _ => false,
        }
    }
}

impl Eq for IpAddr {
}

// ===== InetAddr =====

/// The bytes of a port in network order.
pub open spec fn port_bytes(port: u16) -> [u8; 2] {
    [(port / 256) as u8, (port % 256) as u8]
}

/// The OS structure of an IPv4 socket address: family code, port and
/// address in network order, and padding that the OS wants zeroed.
#[derive(Clone, Copy, Debug)]
pub struct SockaddrIn {
    pub sin_family: u16,
    pub sin_port: [u8; 2],
    pub sin_addr: Ipv4Addr,
    pub sin_zero: [u8; 8],
}

/// The OS structure of an IPv6 socket address: family code, port in network
/// order, flow information, address in network order, and scope id.
#[derive(Clone, Copy, Debug)]
pub struct SockaddrIn6 {
    pub sin6_family: u16,
    pub sin6_port: [u8; 2],
    pub sin6_flowinfo: u32,
    pub sin6_addr: Ipv6Addr,
    pub sin6_scope_id: u32,
}

impl core::hash::Hash for SockaddrIn {
    /// Hashes the port and the address, what `==` on `InetAddr` compares;
    /// the family code and the padding are left out.
    #[verifier::external_body]
    fn hash<H: core::hash::Hasher>(&self, state: &mut H) {
        (self.sin_port, self.sin_addr.s_addr).hash(state)
    }
}

impl core::hash::Hash for SockaddrIn6 {
    /// Hashes the port, the address, the flow information and the scope id,
    /// what `==` on `InetAddr` compares; the family code is left out.
    #[verifier::external_body]
    fn hash<H: core::hash::Hasher>(&self, state: &mut H) {
        (self.sin6_port, self.sin6_addr.s6_addr, self.sin6_flowinfo, self.sin6_scope_id).hash(
            state,
        )
    }
}

/// An internet socket address (IP address and port), in the OS structure of
/// its protocol version.
#[derive(Clone, Copy, Debug, Hash)]
pub enum InetAddr {
    V4(SockaddrIn),
    V6(SockaddrIn6),
}

impl InetAddr {
    /// The family code inside the structure is the one of its variant, and
    /// the padding is zero.
    pub open spec fn wf(self) -> bool {
        match self {
            InetAddr::V4(sa) => sa.sin_family == AF_INET as u16 && sa.sin_zero@ == seq![0u8; 8],
            InetAddr::V6(sa) => sa.sin6_family == AF_INET6 as u16,
        }
    }

    /// The socket address of `ip` and `port`, with all other fields zero.
    pub open spec fn spec_new(ip: IpAddr, port: u16) -> InetAddr {
        match ip {
            IpAddr::V4(ip) => InetAddr::V4(
                SockaddrIn {
                    sin_family: AF_INET as u16,
                    sin_port: port_bytes(port),
                    sin_addr: ip,
                    sin_zero: [0u8, 0u8, 0u8, 0u8, 0u8, 0u8, 0u8, 0u8],
                },
            ),
            IpAddr::V6(ip) => InetAddr::V6(
                SockaddrIn6 {
                    sin6_family: AF_INET6 as u16,
                    sin6_port: port_bytes(port),
                    sin6_flowinfo: 0,
                    sin6_addr: ip,
                    sin6_scope_id: 0,
                },
            ),
        }
    }

    pub open spec fn spec_ip(self) -> IpAddr {
        match self {
            InetAddr::V4(sa) => IpAddr::V4(sa.sin_addr),
            InetAddr::V6(sa) => IpAddr::V6(sa.sin6_addr),
        }
    }

    pub open spec fn spec_port(self) -> u16 {
        match self {
            InetAddr::V4(sa) => be16(sa.sin_port@[0], sa.sin_port@[1]),
            InetAddr::V6(sa) => be16(sa.sin6_port@[0], sa.sin6_port@[1]),
        }
    }

    /// "ip:port" for IPv4; "[ip]:port" for IPv6, where the brackets keep the
    /// colons of the address apart from the one before the port.
    pub open spec fn spec_text(self) -> Seq<char> {
        match self {
            InetAddr::V4(sa) => sa.sin_addr.spec_text() + seq![':'] + decimal(
                self.spec_port() as nat,
            ),
            InetAddr::V6(sa) => seq!['['] + ipv6_text(sa.sin6_addr.s6_addr@) + seq![']', ':']
                + decimal(self.spec_port() as nat),
        }
    }

    /// The socket address of `ip` and `port`.
    pub fn new(ip: IpAddr, port: u16) -> (r: InetAddr)
        ensures
            r == Self::spec_new(ip, port),
            r.wf(),
    {
        let port_be = [(port / 256) as u8, (port % 256) as u8];
        let r = match ip {
            IpAddr::V4(ip) => InetAddr::V4(
                SockaddrIn {
                    sin_family: AF_INET as u16,
                    sin_port: port_be,
                    sin_addr: ip,
                    sin_zero: [0u8, 0u8, 0u8, 0u8, 0u8, 0u8, 0u8, 0u8],
                },
            ),
            IpAddr::V6(ip) => InetAddr::V6(
                SockaddrIn6 {
                    sin6_family: AF_INET6 as u16,
                    sin6_port: port_be,
                    sin6_flowinfo: 0,
                    sin6_addr: ip,
                    sin6_scope_id: 0,
                },
            ),
        };
        proof {
            if let InetAddr::V4(sa) = r {
                assert(sa.sin_zero@ =~= seq![0u8; 8]);
            }
        }
        r
    }

    /// Same variant, port and address, and for IPv6 the same flow information
    /// and scope id; the family code and the padding do not count.
    pub open spec fn spec_eq(self, other: InetAddr) -> bool {
        match (self, other) {
            (InetAddr::V4(a), InetAddr::V4(b)) => a.sin_port@ == b.sin_port@ && a.sin_addr.s_addr@
                == b.sin_addr.s_addr@,
            (InetAddr::V6(a), InetAddr::V6(b)) => a.sin6_port@ == b.sin6_port@
                && a.sin6_addr.s6_addr@ == b.sin6_addr.s6_addr@ && a.sin6_flowinfo
                == b.sin6_flowinfo && a.sin6_scope_id == b.sin6_scope_id,
            _ => false,
        }
    }

    /// The IP address.
    pub fn ip(&self) -> (r: IpAddr)
        ensures
            r == self.spec_ip(),
    {
        match self {
            InetAddr::V4(sa) => IpAddr::V4(sa.sin_addr),
            InetAddr::V6(sa) => IpAddr::V6(sa.sin6_addr),
        }
    }

    /// The port number, in host order.
    pub fn port(&self) -> (r: u16)
        ensures
            r == self.spec_port(),
    {
        match self {
            InetAddr::V4(sa) => sa.sin_port[0] as u16 * 256 + sa.sin_port[1] as u16,
            InetAddr::V6(sa) => sa.sin6_port[0] as u16 * 256 + sa.sin6_port[1] as u16,
        }
    }

    /// "ip:port" for IPv4, "[ip]:port" for IPv6.
    pub fn to_str(&self) -> (r: String)
        ensures
            r@ == self.spec_text(),
    {
        proof {
            reveal_strlit(":");
            reveal_strlit("[");
            reveal_strlit("]:");
        }
        match self {
            InetAddr::V4(sa) => {
                let mut r = sa.sin_addr.to_str();
                r.append(":");
                r.append(u16_text(self.port()).as_str());
                r
            },
            InetAddr::V6(sa) => {
                let mut r = String::new();
                r.append("[");
                r.append(sa.sin6_addr.to_str().as_str());
                r.append("]:");
                r.append(u16_text(self.port()).as_str());
                r
            },
        }
    }
}

impl PartialEq for InetAddr {
    /// Port and address, and for IPv6 flow information and scope id; the
    /// family code and the padding do not count.
    fn eq(&self, other: &InetAddr) -> (r: bool) {
        match (self, other) {
            (InetAddr::V4(a), InetAddr::V4(b)) => {
                let r = a.sin_port[0] == b.sin_port[0] && a.sin_port[1] == b.sin_port[1]
                    && a.sin_addr == b.sin_addr;
                proof {
                    if r {
                        assert(a.sin_port@ =~= b.sin_port@);
                    }
                }
                r
            },
            (InetAddr::V6(a), InetAddr::V6(b)) => {
                let r = a.sin6_port[0] == b.sin6_port[0] && a.sin6_port[1] == b.sin6_port[1]
                    && a.sin6_addr == b.sin6_addr && a.sin6_flowinfo == b.sin6_flowinfo
                    && a.sin6_scope_id == b.sin6_scope_id;
                proof {
                    if r {
                        assert(a.sin6_port@ =~= b.sin6_port@);
                    }
                }
                r
            },
            _ => false,
        }
    }
}

impl vstd::std_specs::cmp::PartialEqSpecImpl for InetAddr {
    open spec fn obeys_eq_spec() -> bool {
        true
    }

    open spec fn eq_spec(&self, other: &InetAddr) -> bool {
        self.spec_eq(*other)
    }
}

impl Eq for InetAddr {
}

// ===== UnixAddr =====

/// The C string at the start of `buf`: its bytes up to the first zero byte,
/// or all of them if it holds none.
pub open spec fn c_str(buf: Seq<u8>) -> Seq<u8>
    decreases buf.len(),
{
    if buf.len() == 0 || buf[0] == 0 {
        Seq::empty()
    } else {
        seq![buf[0]] + c_str(buf.drop_first())
    }
}

/// The first `n` bytes of `buf` are its C string when none of them is zero
/// and a zero byte or the end of `buf` follows them.
pub proof fn lemma_c_str_prefix(buf: Seq<u8>, n: int)
    requires
        0 <= n <= buf.len(),
        !has_nul(buf.take(n)),
        n == buf.len() || buf[n] == 0,
    ensures
        c_str(buf) == buf.take(n),
    decreases n,
{
    if n == 0 {
        assert(buf.take(0) =~= Seq::<u8>::empty());
    } else {
        assert(buf.take(n)[0] == buf[0]);
        let rest = buf.drop_first();
        assert forall|i: int| 0 <= i < n - 1 implies #[trigger] rest.take(n - 1)[i] != 0 by {
            assert(rest.take(n - 1)[i] == buf.take(n)[i + 1]);
        }
        lemma_c_str_prefix(rest, n - 1);
        assert(buf.take(n) =~= seq![buf[0]] + rest.take(n - 1));
    }
}

/// The C string of `buf` is a zero-free prefix of it, followed by a zero
/// byte or by the end of `buf`.
pub proof fn lemma_c_str_is_prefix(buf: Seq<u8>)
    ensures
        c_str(buf).len() <= buf.len(),
        c_str(buf) == buf.take(c_str(buf).len() as int),
        !has_nul(c_str(buf)),
        c_str(buf).len() == buf.len() || buf[c_str(buf).len() as int] == 0,
    decreases buf.len(),
{
    if buf.len() == 0 || buf[0] == 0 {
        assert(buf.take(0) =~= Seq::<u8>::empty());
    } else {
        let rest = buf.drop_first();
        lemma_c_str_is_prefix(rest);
        assert(c_str(buf) =~= buf.take(c_str(buf).len() as int));
        assert forall|i: int| 0 <= i < c_str(buf).len() implies #[trigger] c_str(buf)[i] != 0 by {
            if i > 0 {
                assert(c_str(buf)[i] == c_str(rest)[i - 1]);
            }
        }
    }
}

/// Where the C string of `buf` ends: the index of its first zero byte, or
/// its length.
fn c_str_len(buf: &[u8]) -> (n: usize)
    ensures
        n <= buf@.len(),
        c_str(buf@) == buf@.take(n as int),
{
    let mut n: usize = 0;
    while n < buf.len() && buf[n] != 0
        invariant
            n <= buf@.len(),
            !has_nul(buf@.take(n as int)),
        decreases buf@.len() - n,
    {
        assert(buf@.take(n + 1) =~= buf@.take(n as int).push(buf@[n as int]));
        n = n + 1;
    }
    proof {
        lemma_c_str_prefix(buf@, n as int);
    }
    n
}

/// The OS structure of a Unix-domain socket address: family code and a path
/// buffer that holds the path followed by zero bytes. The fields are private,
/// so that every value is well formed; `==` and the hash agree on that.
#[derive(Clone, Copy, Debug, Hash)]
pub struct UnixAddr {
    sun_family: u16,
    sun_path: [u8; SUN_PATH_LEN],
}

impl UnixAddr {
    /// The family code is the Unix one, and the path buffer holds a path
    /// shorter than the buffer, then zero bytes to its end.
    #[verifier::type_invariant]
    pub closed spec fn wf(self) -> bool {
        &&& self.sun_family == AF_UNIX as u16
        &&& c_str(self.sun_path@).len() < SUN_PATH_LEN
        &&& forall|j: int|
            c_str(self.sun_path@).len() <= j < SUN_PATH_LEN ==> self.sun_path@[j] == 0
    }

    /// The family code stored in the structure.
    pub closed spec fn stored_family(self) -> u16 {
        self.sun_family
    }

    /// The path that this address names.
    pub closed spec fn spec_path(self) -> Seq<u8> {
        c_str(self.sun_path@)
    }

    /// Both addresses name the same path.
    pub open spec fn spec_eq(self, other: UnixAddr) -> bool {
        self.spec_path() == other.spec_path()
    }

    /// `r` is what building an address from the zero-free path `bytes` gives:
    /// the address of that path if it fits in the buffer with a zero byte
    /// after it, else `InvalidPath`.
    pub open spec fn is_made_from(r: NixResult<UnixAddr>, bytes: Seq<u8>) -> bool {
        &&& r is Ok <==> bytes.len() < SUN_PATH_LEN
        &&& r matches Err(e) ==> e == Error::InvalidPath
        &&& r matches Ok(u) ==> u.spec_path() == bytes
    }

    /// The address of the path in the C string `cstr` (zero-free bytes, then
    /// one zero byte); it fails with `InvalidPath` when the path does not fit
    /// in the buffer with a zero byte after it.
    fn from_c_string(cstr: &[u8]) -> (r: NixResult<UnixAddr>)
        requires
            cstr@.len() >= 1,
            cstr@.last() == 0,
            !has_nul(cstr@.drop_last()),
        ensures
            Self::is_made_from(r, cstr@.drop_last()),
    {
        let n = cstr.len() - 1;
        if n >= SUN_PATH_LEN {
            return Err(Error::InvalidPath);
        }
        let ghost path = cstr@.drop_last();
        let mut buf = [0u8; SUN_PATH_LEN];
        let mut i: usize = 0;
        while i < n
            invariant
                cstr@.len() == n + 1,
                n == path.len() < SUN_PATH_LEN,
                path == cstr@.drop_last(),
                i <= n,
                buf@.len() == SUN_PATH_LEN,
                forall|j: int| 0 <= j < i ==> buf@[j] == path[j],
                forall|j: int| i <= j < SUN_PATH_LEN ==> buf@[j] == 0,
            decreases n - i,
        {
            buf[i] = cstr[i];
            i = i + 1;
        }
        proof {
            assert(buf@.take(n as int) =~= path);
            lemma_c_str_prefix(buf@, n as int);
        }
        Ok(UnixAddr { sun_family: AF_UNIX as u16, sun_path: buf })
    }

    /// The address of `path`. It fails with `InvalidPath` when the path holds
    /// a zero byte or is too long for the address's path buffer (which keeps
    /// one byte for the terminating zero).
    pub fn new<P: ?Sized + NixPath>(path: &P) -> (r: NixResult<UnixAddr>)
        ensures
            r is Ok <==> (path.path_bytes().len() < SUN_PATH_LEN && !has_nul(path.path_bytes())),
            r matches Err(e) ==> e == Error::InvalidPath,
            r matches Ok(u) ==> u.spec_path() == path.path_bytes(),
    {
        let build = |cstr: &[u8]| -> (r: NixResult<UnixAddr>)
            requires
                cstr@.len() >= 1,
                cstr@.last() == 0,
                !has_nul(cstr@.drop_last()),
            ensures
                UnixAddr::is_made_from(r, cstr@.drop_last()),
            { UnixAddr::from_c_string(cstr) };
        let res = path.with_nix_path(build);
        proof {
            if let Ok(t) = res {
                let s = choose|s: &[u8]| s@ == path.path_bytes().push(0) && build.ensures((s,), t);
                assert(s@.drop_last() =~= path.path_bytes());
            }
        }
        match res {
            Ok(r) => r,
            Err(e) => Err(e),
        }
    }

    /// The family code stored in the structure: always the Unix one.
    pub fn sun_family(&self) -> (r: u16)
        ensures
            r == self.stored_family(),
            r == AF_UNIX as u16,
    {
        proof {
            use_type_invariant(*self);
        }
        self.sun_family
    }

    /// The path buffer: the path, then zero bytes to its end.
    pub fn sun_path(&self) -> (r: [u8; SUN_PATH_LEN])
        ensures
            self.spec_path().len() < SUN_PATH_LEN,
            r@.take(self.spec_path().len() as int) == self.spec_path(),
            forall|j: int| self.spec_path().len() <= j < SUN_PATH_LEN ==> r@[j] == 0,
    {
        proof {
            use_type_invariant(*self);
            lemma_c_str_is_prefix(self.sun_path@);
        }
        self.sun_path
    }

    /// The path, as the bytes before the first zero byte of the buffer.
    pub fn path(&self) -> (r: &[u8])
        ensures
            r@ == self.spec_path(),
    {
        let n = c_str_len(self.sun_path.as_slice());
        slice_subrange(self.sun_path.as_slice(), 0, n)
    }

    /// The path as text, with byte sequences that are not UTF-8 replaced.
    pub fn to_str(&self) -> (r: String)
        ensures
            r@ == utf8_lossy_text(self.spec_path()),
    {
        utf8_lossy(self.path())
    }
}

/// The text of `bytes` read as UTF-8, each invalid sequence replaced by
/// U+FFFD.
pub uninterp spec fn utf8_lossy_text(bytes: Seq<u8>) -> Seq<char>;

/// Relies on `String::from_utf8_lossy`: the text depends on the bytes alone.
#[verifier::external_body]
fn utf8_lossy(bytes: &[u8]) -> (r: String)
    ensures
        r@ == utf8_lossy_text(bytes@),
{
    String::from_utf8_lossy(bytes).into_owned()
}

/// Two Unix-domain addresses that name the same path are identical, down
/// to every byte of their path buffers; so the derived hash, which reads
/// those bytes, agrees with `==`.
pub proof fn lemma_unix_eq_is_identity(a: UnixAddr, b: UnixAddr)
    requires
        a.wf(),
        b.wf(),
        a.spec_eq(b),
    ensures
        a == b,
{
    let p = c_str(a.sun_path@);
    lemma_c_str_is_prefix(a.sun_path@);
    lemma_c_str_is_prefix(b.sun_path@);
    assert forall|i: int| 0 <= i < SUN_PATH_LEN implies a.sun_path@[i] == b.sun_path@[i] by {
        if i < p.len() {
            assert(a.sun_path@[i] == a.sun_path@.take(p.len() as int)[i]);
            assert(b.sun_path@[i] == b.sun_path@.take(p.len() as int)[i]);
        }
    }
    assert(a.sun_path =~= b.sun_path);
}

impl PartialEq for UnixAddr {
    /// Two addresses are equal when they name the same path.
    fn eq(&self, other: &UnixAddr) -> (r: bool) {
        let a = self.path();
        let b = other.path();
        if a.len() != b.len() {
            return false;
        }
        let mut i: usize = 0;
        while i < a.len()
            invariant
                i <= a@.len() == b@.len(),
                a@ == self.spec_path(),
                b@ == other.spec_path(),
                forall|j: int| 0 <= j < i ==> a@[j] == b@[j],
            decreases a@.len() - i,
        {
            if a[i] != b[i] {
                assert(a@[i as int] != b@[i as int]);
                return false;
            }
            i = i + 1;
        }
        assert(a@ =~= b@);
        true
    }
}

impl vstd::std_specs::cmp::PartialEqSpecImpl for UnixAddr {
    open spec fn obeys_eq_spec() -> bool {
        true
    }

    open spec fn eq_spec(&self, other: &UnixAddr) -> bool {
        self.spec_eq(*other)
    }
}

impl Eq for UnixAddr {
}

// ===== SockAddr =====

/// Relies on the layout of `libc::sockaddr_in` on Linux: a 2-byte family, a
/// 2-byte port, a 4-byte address and 8 bytes of padding.
#[verifier::external_body]
fn sockaddr_in_size() -> (r: u32)
    ensures
        r == SOCKADDR_IN_SIZE,
{
    core::mem::size_of::<libc::sockaddr_in>() as u32
}

/// Relies on the layout of `libc::sockaddr_in6` on Linux: a 2-byte family, a
/// 2-byte port, a 4-byte flow label, a 16-byte address and a 4-byte scope id.
#[verifier::external_body]
fn sockaddr_in6_size() -> (r: u32)
    ensures
        r == SOCKADDR_IN6_SIZE,
{
    core::mem::size_of::<libc::sockaddr_in6>() as u32
}

/// Relies on the layout of `libc::sockaddr_un` on Linux: a 2-byte family and
/// a 108-byte path buffer.
#[verifier::external_body]
fn sockaddr_un_size() -> (r: u32)
    ensures
        r == SOCKADDR_UN_SIZE,
{
    core::mem::size_of::<libc::sockaddr_un>() as u32
}

/// A socket address of any of the supported families.
#[derive(Clone, Copy, Debug, Hash)]
pub enum SockAddr {
    Inet(InetAddr),
    Unix(UnixAddr),
}

impl SockAddr {
    pub open spec fn wf(self) -> bool {
        match self {
            SockAddr::Inet(a) => a.wf(),
            SockAddr::Unix(a) => a.wf(),
        }
    }

    /// The family code stored inside the OS structure.
    pub open spec fn stored_family(self) -> u16 {
        match self {
            SockAddr::Inet(InetAddr::V4(sa)) => sa.sin_family,
            SockAddr::Inet(InetAddr::V6(sa)) => sa.sin6_family,
            SockAddr::Unix(sa) => sa.stored_family(),
        }
    }

    pub open spec fn spec_family(self) -> AddressFamily {
        match self {
            SockAddr::Inet(InetAddr::V4(_)) => AddressFamily::Inet,
            SockAddr::Inet(InetAddr::V6(_)) => AddressFamily::Inet6,
            SockAddr::Unix(_) => AddressFamily::Unix,
        }
    }

    /// The exact size of the OS structure of the active variant.
    pub open spec fn spec_socklen(self) -> u32 {
        match self {
            SockAddr::Inet(InetAddr::V4(_)) => SOCKADDR_IN_SIZE,
            SockAddr::Inet(InetAddr::V6(_)) => SOCKADDR_IN6_SIZE,
            SockAddr::Unix(_) => SOCKADDR_UN_SIZE,
        }
    }

    /// Same variant, and equal as addresses of that variant.
    pub open spec fn spec_eq(self, other: SockAddr) -> bool {
        match (self, other) {
            (SockAddr::Inet(a), SockAddr::Inet(b)) => a.spec_eq(b),
            (SockAddr::Unix(a), SockAddr::Unix(b)) => a.spec_eq(b),
            _ => false,
        }
    }

    pub open spec fn spec_text(self) -> Seq<char> {
        match self {
            SockAddr::Inet(a) => a.spec_text(),
            SockAddr::Unix(a) => utf8_lossy_text(a.spec_path()),
        }
    }

    pub fn new_inet(addr: InetAddr) -> (r: SockAddr)
        ensures
            r == SockAddr::Inet(addr),
    {
        SockAddr::Inet(addr)
    }

    /// The Unix-domain address of `path`; it fails as `UnixAddr::new` does.
    pub fn new_unix<P: ?Sized + NixPath>(path: &P) -> (r: NixResult<SockAddr>)
        ensures
            r is Ok <==> (path.path_bytes().len() < SUN_PATH_LEN && !has_nul(path.path_bytes())),
            r matches Err(e) ==> e == Error::InvalidPath,
            r matches Ok(a) ==> a is Unix && a->Unix_0.spec_path() == path.path_bytes(),
    {
        match UnixAddr::new(path) {
            Ok(u) => Ok(SockAddr::Unix(u)),
            Err(e) => Err(e),
        }
    }

    /// The family of the active variant; on a well-formed address its code is
    /// the one stored in the OS structure.
    pub fn family(&self) -> (r: AddressFamily)
        ensures
            r == self.spec_family(),
            self.wf() ==> r.spec_code() as u16 == self.stored_family(),
    {
        match self {
            SockAddr::Inet(InetAddr::V4(_)) => AddressFamily::Inet,
            SockAddr::Inet(InetAddr::V6(_)) => AddressFamily::Inet6,
            SockAddr::Unix(_) => AddressFamily::Unix,
        }
    }

    /// The length to pass to OS calls with a pointer to this address: the
    /// exact size of the OS structure of the active variant.
    pub fn socklen(&self) -> (r: u32)
        ensures
            r == self.spec_socklen(),
    {
        match self {
            SockAddr::Inet(InetAddr::V4(_)) => sockaddr_in_size(),
            SockAddr::Inet(InetAddr::V6(_)) => sockaddr_in6_size(),
            SockAddr::Unix(_) => sockaddr_un_size(),
        }
    }

    /// The text of the active variant.
    pub fn to_str(&self) -> (r: String)
        ensures
            r@ == self.spec_text(),
    {
        match self {
            SockAddr::Inet(a) => a.to_str(),
            SockAddr::Unix(a) => a.to_str(),
        }
    }
}

impl PartialEq for SockAddr {
    fn eq(&self, other: &SockAddr) -> (r: bool) {
        match (self, other) {
            (SockAddr::Inet(a), SockAddr::Inet(b)) => a == b,
            (SockAddr::Unix(a), SockAddr::Unix(b)) => a == b,
            _ => false,
        }
    }
}

impl vstd::std_specs::cmp::PartialEqSpecImpl for SockAddr {
    open spec fn obeys_eq_spec() -> bool {
        true
    }

    open spec fn eq_spec(&self, other: &SockAddr) -> bool {
        self.spec_eq(*other)
    }
}

impl Eq for SockAddr {
}

} // verus!
