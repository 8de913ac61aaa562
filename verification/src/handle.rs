//! Kernel handle references.
//!
//! A `HandleRef` holds what the driver reads of a kernel `handle_ref`: the
//! address at which the kernel's record lies, the handle it refers to, its id,
//! event mask and cookie, and whether it is attached to a handle set. The
//! kernel calls themselves (closing, detaching, dropping a reference) are made
//! by the caller with the values these methods hand back.
use vstd::prelude::*;

verus! {

/// The poll event bits of a handle.
pub const IPC_HANDLE_POLL_NONE: u32 = 0x0;
pub const IPC_HANDLE_POLL_READY: u32 = 0x1;
pub const IPC_HANDLE_POLL_ERROR: u32 = 0x2;
pub const IPC_HANDLE_POLL_HUP: u32 = 0x4;
pub const IPC_HANDLE_POLL_MSG: u32 = 0x8;
pub const IPC_HANDLE_POLL_SEND_UNBLOCKED: u32 = 0x10;

/// The abstract state of a handle reference. Addresses are plain numbers,
/// zero standing for the null pointer.
pub struct HandleRefView {
    /// Where the kernel's `handle_ref` record lies.
    pub address: usize,
    /// The handle it refers to.
    pub handle: usize,
    pub id: u32,
    pub emask: u32,
    pub cookie: usize,
    /// Whether it is attached to a handle set.
    pub attached: bool,
}

/// A reference to a kernel handle, kept in a kernel `handle_ref` record that
/// does not move.
pub struct HandleRef {
    address: usize,
    handle: usize,
    id: u32,
    emask: u32,
    cookie: usize,
    attached: bool,
}

impl View for HandleRef {
    type V = HandleRefView;

    closed spec fn view(&self) -> HandleRefView {
        HandleRefView {
            address: self.address,
            handle: self.handle,
            id: self.id,
            emask: self.emask,
            cookie: self.cookie,
            attached: self.attached,
        }
    }
}

impl HandleRef {
    /// The kernel record lies somewhere: its address is never null.
    #[verifier::type_invariant]
    spec fn has_record(self) -> bool {
        self.address != 0
    }

    /// A fresh, zeroed reference whose kernel record lies at `address`: no
    /// handle, id, event mask or cookie, and not attached.
    pub fn new(address: usize) -> (r: HandleRef)
        requires
            address != 0,
        ensures
            r@ == (HandleRefView {
                address,
                handle: 0,
                id: 0,
                emask: 0,
                cookie: 0,
                attached: false,
            }),
    {
        HandleRef { address, handle: 0, id: 0, emask: 0, cookie: 0, attached: false }
    }

    pub fn is_attached(&self) -> (r: bool)
        ensures
            r == self@.attached,
    {
        self.attached
    }

    /// Detaches the reference from its handle set. Returns whether it was
    /// attached, that is, whether the kernel must detach the record.
    pub fn detach(&mut self) -> (was_attached: bool)
        ensures
            was_attached == old(self)@.attached,
            final(self)@ == (HandleRefView { attached: false, ..old(self)@ }),
    {
        proof {
            use_type_invariant(&*self);
        }
        let was_attached = self.attached;
        self.attached = false;
        was_attached
    }

    /// Records that the reference was attached to a handle set.
    pub fn mark_attached(&mut self)
        ensures
            final(self)@ == (HandleRefView { attached: true, ..old(self)@ }),
    {
        proof {
            use_type_invariant(&*self);
        }
        self.attached = true;
    }

    /// Closes the handle, if there is one: returns it, for the kernel to close,
    /// and clears it.
    pub fn handle_close(&mut self) -> (closed: Option<usize>)
        ensures
            old(self)@.handle != 0 ==> closed == Some(old(self)@.handle),
            old(self)@.handle == 0 ==> closed is None,
            final(self)@ == (HandleRefView { handle: 0, ..old(self)@ }),
    {
        proof {
            use_type_invariant(&*self);
        }
        if self.handle != 0 {
            let h = self.handle;
            self.handle = 0;
            Some(h)
        } else {
            None
        }
    }

    /// The handle whose reference count the kernel is to decrease.
    pub fn handle_decref(&self) -> (h: usize)
        requires
            self@.handle != 0,
        ensures
            h == self@.handle,
    {
        self.handle
    }

    /// The address of the kernel's `handle_ref` record: the same for the
    /// reference's whole life, whatever else changes, and never null.
    pub fn as_mut_ptr(&self) -> (r: usize)
        ensures
            r == self@.address,
            r != 0,
    {
        proof {
            use_type_invariant(self);
        }
        self.address
    }

    pub fn cookie(&self) -> (r: usize)
        ensures
            r == self@.cookie,
    {
        self.cookie
    }

    pub fn set_cookie(&mut self, cookie: usize)
        ensures
            final(self)@ == (HandleRefView { cookie, ..old(self)@ }),
    {
        proof {
            use_type_invariant(&*self);
        }
        self.cookie = cookie;
    }

    pub fn emask(&self) -> (r: u32)
        ensures
            r == self@.emask,
    {
        self.emask
    }

    pub fn set_emask(&mut self, emask: u32)
        ensures
            final(self)@ == (HandleRefView { emask, ..old(self)@ }),
    {
        proof {
            use_type_invariant(&*self);
        }
        self.emask = emask;
    }

    pub fn handle(&mut self) -> (r: usize)
        ensures
            r == old(self)@.handle,
            final(self)@ == old(self)@,
    {
        self.handle
    }

    /// Records the handle the kernel stored in the record.
    pub fn set_handle(&mut self, handle: usize)
        ensures
            final(self)@ == (HandleRefView { handle, ..old(self)@ }),
    {
        proof {
            use_type_invariant(&*self);
        }
        self.handle = handle;
    }

    /// The id, read through a shared reference.
    pub(crate) fn id_of(&self) -> (r: u32)
        ensures
            r == self@.id,
    {
        self.id
    }

    pub fn id(&mut self) -> (r: u32)
        ensures
            r == old(self)@.id,
            final(self)@ == old(self)@,
    {
        self.id
    }

    pub fn set_id(&mut self, id: u32)
        ensures
            final(self)@ == (HandleRefView { id, ..old(self)@ }),
    {
        proof {
            use_type_invariant(&*self);
        }
        self.id = id;
    }
}

} // verus!
