//! Arrays allocated by the kernel's virtual memory manager.
use vstd::prelude::*;

use crate::lk_error::{error_of_code, LkError};

verus! {

/// An array allocated by the kernel's virtual memory manager: its address and
/// size in bytes. The kernel frees it when the owner drops it.
pub struct VmmPageArray {
    ptr: usize,
    size: usize,
}

impl VmmPageArray {
    pub closed spec fn spec_ptr(&self) -> usize {
        self.ptr
    }

    pub closed spec fn spec_size(&self) -> usize {
        self.size
    }

    /// The array that `vmm_alloc` allocated at `ptr` for `size` bytes, given
    /// its status: a negative status is the kernel error it stands for.
    pub fn new(status: i32, ptr: usize, size: usize) -> (r: Result<VmmPageArray, LkError>)
        ensures
            status < 0 ==> r == Err::<VmmPageArray, LkError>(error_of_code(status)),
            status >= 0 ==> (r matches Ok(a) && a.spec_ptr() == ptr && a.spec_size() == size),
    {
        if status < 0 {
            return Err(LkError::from_code(status));
        }
        Ok(VmmPageArray { ptr, size })
    }

    /// The mapping that `vmm_alloc_physical` made at `ptr` for `size` bytes of
    /// physical memory, given its status: a negative status is the kernel
    /// error it stands for.
    pub fn new_physical(status: i32, ptr: usize, size: usize) -> (r: Result<VmmPageArray, LkError>)
        ensures
            status < 0 ==> r == Err::<VmmPageArray, LkError>(error_of_code(status)),
            status >= 0 ==> (r matches Ok(a) && a.spec_ptr() == ptr && a.spec_size() == size),
    {
        VmmPageArray::new(status, ptr, size)
    }

    pub fn ptr(&self) -> (r: usize)
        ensures
            r == self.spec_ptr(),
    {
        self.ptr
    }

    pub fn size(&self) -> (r: usize)
        ensures
            r == self.spec_size(),
    {
        self.size
    }
}

} // verus!
