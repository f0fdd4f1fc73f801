use nix::addr::{AF_INET, AF_INET6, AF_UNIX};
use nix::{AddressFamily, Error, InetAddr, IpAddr, Ipv4Addr, Ipv6Addr, SockAddr, SockaddrIn, UnixAddr};
use std::collections::hash_map::DefaultHasher;
use std::hash::{Hash, Hasher};

fn hash_of<T: Hash>(t: &T) -> u64 {
    let mut h = DefaultHasher::new();
    t.hash(&mut h);
    h.finish()
}

#[test]
fn ipv4_octets_round_trip() {
    for &(a, b, c, d) in &[(0u8, 0u8, 0u8, 0u8), (127, 0, 0, 1), (192, 168, 1, 254), (255, 255, 255, 255)] {
        assert_eq!(Ipv4Addr::new(a, b, c, d).octets(), [a, b, c, d]);
    }
}

#[test]
fn ipv4_is_stored_in_network_order() {
    let ip = Ipv4Addr::new(10, 20, 30, 40);
    assert_eq!(ip.s_addr, [10, 20, 30, 40]);
}

#[test]
fn ipv4_any_is_all_zero() {
    assert_eq!(Ipv4Addr::any().octets(), [0, 0, 0, 0]);
    assert_eq!(Ipv4Addr::any().to_str(), "0.0.0.0");
}

#[test]
fn ipv4_text_is_dotted_quad() {
    assert_eq!(Ipv4Addr::new(192, 168, 1, 10).to_str(), "192.168.1.10");
    assert_eq!(Ipv4Addr::new(255, 0, 9, 100).to_str(), "255.0.9.100");
}

#[test]
fn ipv6_segments_round_trip() {
    let segs = [0x2001u16, 0x0db8, 0, 0, 0xff00, 0x42, 0x8329, 0xffff];
    let ip = Ipv6Addr::new(segs[0], segs[1], segs[2], segs[3], segs[4], segs[5], segs[6], segs[7]);
    assert_eq!(ip.segments(), segs);
    let max = Ipv6Addr::new(0xffff, 0xffff, 0xffff, 0xffff, 0xffff, 0xffff, 0xffff, 0xffff);
    assert_eq!(max.segments(), [0xffff; 8]);
}

#[test]
fn ipv6_is_stored_in_network_order() {
    let ip = Ipv6Addr::new(0x1234, 0, 0, 0, 0, 0, 0, 0xabcd);
    assert_eq!(ip.s6_addr[0], 0x12);
    assert_eq!(ip.s6_addr[1], 0x34);
    assert_eq!(ip.s6_addr[14], 0xab);
    assert_eq!(ip.s6_addr[15], 0xcd);
}

#[test]
fn ipv6_text_is_compressed() {
    assert_eq!(Ipv6Addr::new(0, 0, 0, 0, 0, 0, 0, 1).to_str(), "::1");
    assert_eq!(Ipv6Addr::new(0x2001, 0xdb8, 0, 0, 0, 0xff00, 0x42, 0x8329).to_str(), "2001:db8::ff00:42:8329");
}

#[test]
fn ip_addr_constructors() {
    assert!(IpAddr::new_v4(1, 2, 3, 4) == IpAddr::V4(Ipv4Addr::new(1, 2, 3, 4)));
    assert!(IpAddr::new_v6(1, 2, 3, 4, 5, 6, 7, 8) == IpAddr::V6(Ipv6Addr::new(1, 2, 3, 4, 5, 6, 7, 8)));
    assert!(IpAddr::new_v4(1, 2, 3, 4) != IpAddr::new_v4(1, 2, 3, 5));
    assert_eq!(IpAddr::new_v4(8, 8, 4, 4).to_str(), "8.8.4.4");
}

#[test]
fn inet_round_trip() {
    let ips = [IpAddr::new_v4(127, 0, 0, 1), IpAddr::new_v6(0xfe80, 0, 0, 0, 1, 2, 3, 4)];
    for ip in ips.iter() {
        for &port in &[0u16, 1, 80, 8080, 65535] {
            let a = InetAddr::new(*ip, port);
            assert!(a.ip() == *ip);
            assert_eq!(a.port(), port);
        }
    }
}

#[test]
fn inet_port_is_stored_in_network_order() {
    match InetAddr::new(IpAddr::new_v4(127, 0, 0, 1), 8080) {
        InetAddr::V4(sa) => {
            assert_eq!(sa.sin_port, [0x1f, 0x90]);
            assert_eq!(sa.sin_family, AF_INET as u16);
            assert_eq!(sa.sin_zero, [0; 8]);
        }
        InetAddr::V6(_) => panic!("expected an IPv4 address"),
    }
    match InetAddr::new(IpAddr::new_v6(0, 0, 0, 0, 0, 0, 0, 1), 443) {
        InetAddr::V6(sa) => {
            assert_eq!(sa.sin6_port, [0x01, 0xbb]);
            assert_eq!(sa.sin6_family, AF_INET6 as u16);
            assert_eq!(sa.sin6_flowinfo, 0);
            assert_eq!(sa.sin6_scope_id, 0);
        }
        InetAddr::V4(_) => panic!("expected an IPv6 address"),
    }
}

#[test]
fn inet_text() {
    assert_eq!(InetAddr::new(IpAddr::new_v4(127, 0, 0, 1), 8080).to_str(), "127.0.0.1:8080");
    assert_eq!(InetAddr::new(IpAddr::new_v6(0, 0, 0, 0, 0, 0, 0, 1), 443).to_str(), "[::1]:443");
    assert_eq!(InetAddr::new(IpAddr::new_v4(10, 0, 0, 2), 0).to_str(), "10.0.0.2:0");
}

#[test]
fn inet_eq_ignores_padding() {
    let a = InetAddr::new(IpAddr::new_v4(127, 0, 0, 1), 8080);
    let sa = match a {
        InetAddr::V4(sa) => sa,
        InetAddr::V6(_) => panic!("expected an IPv4 address"),
    };
    let other = SockaddrIn { sin_zero: [1, 2, 3, 4, 5, 6, 7, 8], ..sa };
    assert!(a == InetAddr::V4(other));
    assert!(a != InetAddr::new(IpAddr::new_v4(127, 0, 0, 1), 8081));
    assert!(a != InetAddr::new(IpAddr::new_v6(0, 0, 0, 0, 0, 0xffff, 0x7f00, 1), 8080));
}

#[test]
fn equal_addresses_hash_alike() {
    let a = InetAddr::new(IpAddr::new_v4(192, 168, 0, 1), 53);
    let b = InetAddr::new(IpAddr::new_v4(192, 168, 0, 1), 53);
    assert!(a == b);
    assert_eq!(hash_of(&a), hash_of(&b));
    let u = UnixAddr::new(&b"/tmp/sock"[..]).unwrap();
    let v = UnixAddr::new(&b"/tmp/sock"[..]).unwrap();
    assert!(u == v);
    assert_eq!(hash_of(&u), hash_of(&v));
    let s = SockAddr::new_inet(a);
    let t = SockAddr::new_inet(b);
    assert!(s == t);
    assert_eq!(hash_of(&s), hash_of(&t));
}

#[test]
fn unix_path_one_short_of_capacity_fits() {
    let path = vec![b'a'; 107];
    let u = UnixAddr::new(&path[..]).unwrap();
    assert_eq!(u.path(), &path[..]);
    assert_eq!(u.sun_family(), AF_UNIX as u16);
    assert_eq!(u.sun_path()[107], 0);
}

#[test]
fn unix_path_at_capacity_is_rejected() {
    let path = vec![b'a'; 108];
    assert_eq!(UnixAddr::new(&path[..]), Err(Error::InvalidPath));
    let longer = vec![b'a'; 200];
    assert_eq!(UnixAddr::new(&longer[..]), Err(Error::InvalidPath));
    let huge = vec![b'a'; 4096];
    assert_eq!(UnixAddr::new(&huge[..]), Err(Error::InvalidPath));
}

#[test]
fn unix_path_with_zero_byte_is_rejected() {
    assert_eq!(UnixAddr::new(&b"\0abc"[..]), Err(Error::InvalidPath));
    assert_eq!(UnixAddr::new(&b"/tmp/a\0b"[..]), Err(Error::InvalidPath));
    assert_eq!(UnixAddr::new(&b"/tmp/ab\0"[..]), Err(Error::InvalidPath));
}

#[test]
fn unix_path_round_trip() {
    let u = UnixAddr::new(&b"/run/x.sock"[..]).unwrap();
    assert_eq!(u.path(), b"/run/x.sock");
    let empty = UnixAddr::new(&b""[..]).unwrap();
    assert_eq!(empty.path(), b"");
    assert!(u != empty);
}

#[test]
fn unix_text() {
    assert_eq!(UnixAddr::new(&b"/tmp/sock"[..]).unwrap().to_str(), "/tmp/sock");
    assert_eq!(UnixAddr::new(&b"/tmp/\xff"[..]).unwrap().to_str(), "/tmp/\u{fffd}");
}

#[test]
fn sock_family() {
    let v4 = SockAddr::new_inet(InetAddr::new(IpAddr::new_v4(1, 1, 1, 1), 1));
    let v6 = SockAddr::new_inet(InetAddr::new(IpAddr::new_v6(1, 0, 0, 0, 0, 0, 0, 1), 1));
    let un = SockAddr::new_unix(&b"/tmp/s"[..]).unwrap();
    assert_eq!(v4.family(), AddressFamily::Inet);
    assert_eq!(v6.family(), AddressFamily::Inet6);
    assert_eq!(un.family(), AddressFamily::Unix);
    assert_eq!(AddressFamily::Inet.code(), AF_INET);
    assert_eq!(AddressFamily::Inet6.code(), AF_INET6);
    assert_eq!(AddressFamily::Unix.code(), AF_UNIX);
}

#[test]
fn sock_ffi_lengths_are_exact() {
    let v4 = SockAddr::new_inet(InetAddr::new(IpAddr::new_v4(1, 1, 1, 1), 1));
    let v6 = SockAddr::new_inet(InetAddr::new(IpAddr::new_v6(1, 0, 0, 0, 0, 0, 0, 1), 1));
    let un = SockAddr::new_unix(&b"/tmp/s"[..]).unwrap();
    assert_eq!(v4.socklen() as usize, std::mem::size_of::<libc::sockaddr_in>());
    assert_eq!(v6.socklen() as usize, std::mem::size_of::<libc::sockaddr_in6>());
    assert_eq!(un.socklen() as usize, std::mem::size_of::<libc::sockaddr_un>());
    assert_eq!(v4.socklen(), 16);
    assert_eq!(v6.socklen(), 28);
    assert_eq!(un.socklen(), 110);
    assert!(v6.socklen() > v4.socklen());
    let storage = std::mem::size_of::<libc::sockaddr_storage>() as u32;
    assert!(v4.socklen() != storage && v6.socklen() != storage && un.socklen() != storage);
}

#[test]
fn sock_new_unix_rejects_bad_paths() {
    assert_eq!(SockAddr::new_unix(&b"a\0"[..]), Err(Error::InvalidPath));
    assert_eq!(SockAddr::new_unix(&vec![b'x'; 108][..]), Err(Error::InvalidPath));
}

#[test]
fn sock_eq_and_text() {
    let a = SockAddr::new_inet(InetAddr::new(IpAddr::new_v4(127, 0, 0, 1), 8080));
    let u = SockAddr::new_unix(&b"/tmp/s"[..]).unwrap();
    assert!(a != u);
    assert!(u == SockAddr::new_unix(&b"/tmp/s"[..]).unwrap());
    assert_eq!(a.to_str(), "127.0.0.1:8080");
    assert_eq!(u.to_str(), "/tmp/s");
}

#[test]
fn inet_hash_ignores_padding() {
    let a = InetAddr::new(IpAddr::new_v4(127, 0, 0, 1), 8080);
    let sa = match a {
        InetAddr::V4(sa) => sa,
        InetAddr::V6(_) => panic!("expected an IPv4 address"),
    };
    let padded = InetAddr::V4(SockaddrIn { sin_zero: [1, 2, 3, 4, 5, 6, 7, 8], ..sa });
    assert!(a == padded);
    assert_eq!(hash_of(&a), hash_of(&padded));
    assert_eq!(hash_of(&SockAddr::new_inet(a)), hash_of(&SockAddr::new_inet(padded)));
}

#[test]
fn unix_buffer_is_path_then_zeros() {
    let u = UnixAddr::new(&b"/tmp/a"[..]).unwrap();
    let buf = u.sun_path();
    assert_eq!(&buf[..6], b"/tmp/a");
    assert!(buf[6..].iter().all(|&b| b == 0));
    let v = UnixAddr::new(&b"/tmp/a"[..]).unwrap();
    assert!(u == v);
    assert_eq!(hash_of(&u), hash_of(&v));
    let w = UnixAddr::new(&b"/tmp/b"[..]).unwrap();
    assert!(u != w);
}

#[test]
fn port_text_covers_every_width() {
    for &(port, text) in &[(0u16, "0"), (9, "9"), (10, "10"), (443, "443"), (65535, "65535")] {
        let a = InetAddr::new(IpAddr::new_v4(1, 2, 3, 4), port);
        assert_eq!(a.to_str(), format!("1.2.3.4:{}", text));
    }
}
