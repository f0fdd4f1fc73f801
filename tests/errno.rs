use nix::errno::{EINVAL, ENAMETOOLONG};
use nix::path::PATH_MAX;
use nix::stat::mkdev;
use nix::{Errno, Error, NixPath};

#[test]
fn invalid_argument_is_einval() {
    assert_eq!(Error::invalid_argument(), Error::Sys(Errno(EINVAL)));
    assert_eq!(Error::invalid_argument().errno(), Errno(22));
}

#[test]
fn invalid_path_counts_as_einval() {
    assert_eq!(Error::InvalidPath.errno(), Errno(EINVAL));
    assert_eq!(Error::Sys(Errno(ENAMETOOLONG)).errno().code(), 36);
}

#[test]
fn last_error_is_an_os_error() {
    match Error::last() {
        Error::Sys(_) => {}
        Error::InvalidPath => panic!("expected an OS error"),
    }
}

#[test]
fn with_nix_path_hands_over_the_bytes() {
    let r = b"/tmp/file"[..].with_nix_path(|s| s.to_vec());
    assert_eq!(r, Ok(b"/tmp/file\0".to_vec()));
    let r = b""[..].with_nix_path(|s| s.to_vec());
    assert_eq!(r, Ok(vec![0u8]));
}

#[test]
fn with_nix_path_rejects_zero_bytes() {
    let mut called = false;
    let r = b"ab\0cd"[..].with_nix_path(|_| called = true);
    assert_eq!(r, Err(Error::InvalidPath));
    assert!(!called);
}

#[test]
fn with_nix_path_bounds_the_length() {
    let longest = vec![b'p'; PATH_MAX - 1];
    assert_eq!(longest[..].with_nix_path(|s| s.len()), Ok(PATH_MAX));
    let too_long = vec![b'p'; PATH_MAX];
    assert_eq!(too_long[..].with_nix_path(|s| s.len()), Err(Error::InvalidPath));
}

#[test]
fn mkdev_packs_major_and_minor() {
    assert_eq!(mkdev(8, 1), (8 << 20) | 1);
    assert_eq!(mkdev(0, 0), 0);
    assert_eq!(mkdev(1, 0), 1 << 20);
}

#[test]
fn from_ffi_maps_zero_to_ok() {
    assert_eq!(nix::from_ffi(0), Ok(()));
    match nix::from_ffi(-1) {
        Err(Error::Sys(_)) => {}
        other => panic!("expected an OS error, got {:?}", other),
    }
}

#[test]
fn os_error_keeps_its_code() {
    assert_eq!(Error::from_os_error(2), Error::Sys(Errno(2)));
    assert_eq!(Error::from_os_error(2).errno(), Errno(2));
}

#[test]
fn ffi_result_carries_the_code() {
    assert_eq!(nix::errno::ffi_result(0, 13), Ok(()));
    assert_eq!(nix::errno::ffi_result(-1, 13), Err(Error::Sys(Errno(13))));
    assert_eq!(nix::errno::ffi_result(5, ENAMETOOLONG), Err(Error::Sys(Errno(ENAMETOOLONG))));
}

#[test]
fn valid_path_is_checked_once() {
    let p = nix::ValidPath::new(b"/tmp/sock").unwrap();
    assert_eq!(p.as_bytes(), b"/tmp/sock");
    assert_eq!(p.with_nix_path(|s| s.to_vec()), Ok(b"/tmp/sock\0".to_vec()));
    let u = nix::UnixAddr::new(&p).unwrap();
    assert_eq!(u.path(), b"/tmp/sock");
    assert_eq!(nix::ValidPath::new(b"a\0b").unwrap_err(), Error::InvalidPath);
    assert_eq!(nix::ValidPath::new(&vec![b'q'; PATH_MAX]).unwrap_err(), Error::InvalidPath);
    assert_eq!(nix::ValidPath::new(&vec![b'q'; PATH_MAX - 1]).unwrap().as_bytes().len(), PATH_MAX - 1);
}

#[test]
fn valid_path_too_long_for_unix_address() {
    let p = nix::ValidPath::new(&vec![b'q'; 108]).unwrap();
    assert_eq!(nix::UnixAddr::new(&p), Err(Error::InvalidPath));
}
