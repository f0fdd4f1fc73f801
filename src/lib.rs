//! Socket addresses and path arguments for *nix system calls, with their
//! byte layouts and validation rules stated and proved.
pub mod addr;
pub mod errno;
pub mod laws;
pub mod path;
pub mod stat;

pub use addr::{
    AddressFamily, InetAddr, IpAddr, Ipv4Addr, Ipv6Addr, SockAddr, SockaddrIn, SockaddrIn6,
    UnixAddr,
};
pub use errno::{from_ffi, Errno, Error, NixResult};
pub use path::{NixPath, ValidPath};
