//! Turning path arguments into the bounded, zero-free byte strings that OS
//! calls take.
use crate::errno::{Error, NixResult};
use vstd::prelude::*;
use vstd::slice::slice_subrange;

verus! {

/// Paths handed to the OS are shorter than this many bytes.
pub const PATH_MAX: usize = 4096;

/// `s` holds a zero byte somewhere.
pub open spec fn has_nul(s: Seq<u8>) -> bool {
    exists|i: int| 0 <= i < s.len() && s[i] == 0
}

/// `s` can be handed to the OS as a path: it is short enough and, since it
/// travels as a C string, holds no zero byte.
pub open spec fn is_valid_path(s: Seq<u8>) -> bool {
    s.len() < PATH_MAX && !has_nul(s)
}

/// A value that can be passed to the OS as a path.
pub trait NixPath {
    /// The bytes of the path.
    spec fn path_bytes(&self) -> Seq<u8>;

    /// Checks the path and, if the OS can take it, calls `f` once with a view
    /// of its bytes followed by a terminating zero byte (a C string), valid
    /// for that call only, and returns what `f` returned.
    fn with_nix_path<T, F: FnOnce(&[u8]) -> T>(&self, f: F) -> (r: NixResult<T>)
        requires
            forall|s: &[u8]|
                s@ == self.path_bytes().push(0) && is_valid_path(self.path_bytes())
                    ==> f.requires((s,)),
        ensures
            r is Ok <==> is_valid_path(self.path_bytes()),
            r matches Err(e) ==> e == Error::InvalidPath,
            r matches Ok(t) ==> exists|s: &[u8]|
                s@ == self.path_bytes().push(0) && f.ensures((s,), t),
    ;
}

impl NixPath for [u8] {
    open spec fn path_bytes(&self) -> Seq<u8> {
        self@
    }

    /// The bytes are copied into a zeroed scratch buffer on the stack, whose
    /// next byte supplies the terminating zero.
    fn with_nix_path<T, F: FnOnce(&[u8]) -> T>(&self, f: F) -> (r: NixResult<T>) {
        let mut buf = [0u8; PATH_MAX];
        if self.len() >= PATH_MAX {
            return Err(Error::InvalidPath);
        }
        let mut i: usize = 0;
        while i < self.len()
            invariant
                i <= self@.len() < PATH_MAX,
                buf@.len() == PATH_MAX,
                forall|j: int| 0 <= j < i ==> buf@[j] == self@[j] && self@[j] != 0,
                forall|j: int| i <= j < PATH_MAX ==> buf@[j] == 0,
            decreases self@.len() - i,
        {
            if self[i] == 0 {
                return Err(Error::InvalidPath);
            }
            buf[i] = self[i];
            i = i + 1;
        }
        let view = slice_subrange(buf.as_slice(), 0, self.len() + 1);
        assert(view@ =~= self@.push(0));
        Ok(f(view))
    }
}

/// A path checked once to be one the OS can take. Its bytes are kept with a
/// zero byte after them, so that it can be handed to the OS again and again
/// without a copy or a second check.
#[derive(Debug)]
pub struct ValidPath {
    bytes: Vec<u8>,
}

impl ValidPath {
    /// The kept bytes end with the terminating zero byte.
    pub closed spec fn is_terminated(&self) -> bool {
        self.bytes@.len() >= 1 && self.bytes@.last() == 0
    }

    /// Every `ValidPath` holds a path that the OS can take.
    #[verifier::type_invariant]
    pub open spec fn inv(&self) -> bool {
        self.is_terminated() && is_valid_path(self.path_bytes())
    }

    /// Checks `path` and keeps it. It fails with `InvalidPath` when the path
    /// is too long or holds a zero byte.
    pub fn new(path: &[u8]) -> (r: NixResult<ValidPath>)
        ensures
            r is Ok <==> is_valid_path(path@),
            r matches Err(e) ==> e == Error::InvalidPath,
            r matches Ok(p) ==> p.path_bytes() == path@,
    {
        if path.len() >= PATH_MAX {
            return Err(Error::InvalidPath);
        }
        let mut bytes: Vec<u8> = Vec::new();
        let mut i: usize = 0;
        while i < path.len()
            invariant
                i <= path@.len() < PATH_MAX,
                bytes@ == path@.take(i as int),
                !has_nul(path@.take(i as int)),
            decreases path@.len() - i,
        {
            if path[i] == 0 {
                return Err(Error::InvalidPath);
            }
            bytes.push(path[i]);
            assert(path@.take(i + 1) =~= path@.take(i as int).push(path@[i as int]));
            i = i + 1;
        }
        assert(path@.take(i as int) =~= path@);
        bytes.push(0);
        assert(bytes@.drop_last() =~= path@);
        Ok(ValidPath { bytes })
    }

    /// The bytes of the path, without the zero byte that follows them.
    pub fn as_bytes(&self) -> (r: &[u8])
        ensures
            r@ == self.path_bytes(),
            is_valid_path(r@),
    {
        proof {
            use_type_invariant(self);
        }
        slice_subrange(self.bytes.as_slice(), 0, self.bytes.len() - 1)
    }
}

impl NixPath for ValidPath {
    closed spec fn path_bytes(&self) -> Seq<u8> {
        self.bytes@.drop_last()
    }

    /// The path was checked when it was made: its bytes and their zero byte
    /// are handed over as they are kept, with no copy and no check.
    fn with_nix_path<T, F: FnOnce(&[u8]) -> T>(&self, f: F) -> (r: NixResult<T>) {
        proof {
            use_type_invariant(self);
            assert(self.bytes@ =~= self.path_bytes().push(0));
        }
        Ok(f(self.bytes.as_slice()))
    }
}

} // verus!
