//! POSIX error numbers of the host platform.

use vstd::prelude::*;

verus! {

/// The error numbers that replies carry, as the host platform defines them.
#[derive(Clone, Copy, Debug, PartialEq, Eq, Structural)]
pub struct ErrnoCodes {
    pub enoent: i32,
    pub eexist: i32,
    pub eacces: i32,
    pub einval: i32,
    pub enotdir: i32,
    pub eisdir: i32,
    pub ebusy: i32,
    pub emfile: i32,
    pub enospc: i32,
    pub enotsup: i32,
    pub enotempty: i32,
    pub eio: i32,
    pub ebadf: i32,
}

/// The host's error numbers, read from the `libc` constants of the same
/// names. Their values differ between platforms, so nothing is stated of them.
#[verifier::external_body]
pub fn host_errno_codes() -> (c: ErrnoCodes) {
    ErrnoCodes {
        enoent: libc::ENOENT, eexist: libc::EEXIST, eacces: libc::EACCES, einval: libc::EINVAL,
        enotdir: libc::ENOTDIR, eisdir: libc::EISDIR, ebusy: libc::EBUSY, emfile: libc::EMFILE,
        enospc: libc::ENOSPC, enotsup: libc::ENOTSUP, enotempty: libc::ENOTEMPTY, eio: libc::EIO,
        ebadf: libc::EBADF,
    }
}

} // verus!
