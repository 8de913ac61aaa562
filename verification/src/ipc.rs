//! Kernel IPC message descriptors.
use vstd::prelude::*;

verus! {

/// One buffer of a kernel IPC message: its address and length.
#[allow(non_camel_case_types)]
#[derive(Clone, Copy, Debug, PartialEq, Eq, Structural)]
pub struct iovec_kern {
    pub iov_base: usize,
    pub iov_len: usize,
}

impl iovec_kern {
    /// The buffer of `len` bytes at `base` (the conversion from a byte slice).
    pub fn from_buffer(base: usize, len: usize) -> (r: iovec_kern)
        ensures
            r == (iovec_kern { iov_base: base, iov_len: len }),
    {
        iovec_kern { iov_base: base, iov_len: len }
    }
}

/// A kernel IPC message: its buffers and handles, by address and count; zero
/// addresses stand for null pointers.
#[allow(non_camel_case_types)]
#[derive(Clone, Copy, Debug, PartialEq, Eq, Structural)]
pub struct ipc_msg_kern {
    pub iov: usize,
    pub num_iov: u32,
    pub handles: usize,
    pub num_handles: u32,
}

impl Default for ipc_msg_kern {
    fn default() -> (r: ipc_msg_kern)
        ensures
            r == (ipc_msg_kern { iov: 0, num_iov: 0, handles: 0, num_handles: 0 }),
    {
        ipc_msg_kern { iov: 0, num_iov: 0, handles: 0, num_handles: 0 }
    }
}

impl ipc_msg_kern {
    /// A message of the single buffer described by the `iovec_kern` at address
    /// `iov`, with no handles.
    pub fn new(iov: usize) -> (r: ipc_msg_kern)
        ensures
            r == (ipc_msg_kern { iov, num_iov: 1, handles: 0, num_handles: 0 }),
    {
        ipc_msg_kern { iov, num_iov: 1, ..ipc_msg_kern::default() }
    }
}

} // verus!
