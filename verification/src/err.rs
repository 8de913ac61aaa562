//! The error type of the virtio vsock driver.
use vstd::prelude::*;

use crate::kvm::KvmError;
use virtio_drivers::transport::pci::VirtioPciError;
use virtio_drivers::Error as VirtioError;
use crate::lk_error::{named_code, LkError};

verus! {

/// `virtio_drivers::transport::pci::VirtioPciError`, carried unread.
#[verifier::external_type_specification]
#[verifier::external_body]
pub struct ExVirtioPciError(VirtioPciError);

/// `virtio_drivers::Error`, carried unread.
#[verifier::external_type_specification]
#[verifier::external_body]
pub struct ExVirtioError(VirtioError);

/// An error of the vsock driver.
pub enum Error {
    /// Setting up the PCI transport failed.
    Pci(VirtioPciError),
    /// The virtio device failed.
    Virtio(VirtioError),
    /// A kernel call failed.
    Lk(LkError),
    /// A KVM hypercall failed.
    KvmError(KvmError),
}

impl From<VirtioPciError> for Error {
    fn from(e: VirtioPciError) -> (r: Error) {
        Error::Pci(e)
    }
}

impl vstd::std_specs::convert::FromSpecImpl<VirtioPciError> for Error {
    open spec fn obeys_from_spec() -> bool {
        true
    }

    open spec fn from_spec(v: VirtioPciError) -> Error {
        Error::Pci(v)
    }
}

impl From<VirtioError> for Error {
    fn from(e: VirtioError) -> (r: Error) {
        Error::Virtio(e)
    }
}

impl vstd::std_specs::convert::FromSpecImpl<VirtioError> for Error {
    open spec fn obeys_from_spec() -> bool {
        true
    }

    open spec fn from_spec(v: VirtioError) -> Error {
        Error::Virtio(v)
    }
}

impl From<LkError> for Error {
    fn from(e: LkError) -> (r: Error) {
        Error::Lk(e)
    }
}

impl vstd::std_specs::convert::FromSpecImpl<LkError> for Error {
    open spec fn obeys_from_spec() -> bool {
        true
    }

    open spec fn from_spec(v: LkError) -> Error {
        Error::Lk(v)
    }
}

impl From<KvmError> for Error {
    fn from(e: KvmError) -> (r: Error) {
        Error::KvmError(e)
    }
}

impl vstd::std_specs::convert::FromSpecImpl<KvmError> for Error {
    open spec fn obeys_from_spec() -> bool {
        true
    }

    open spec fn from_spec(v: KvmError) -> Error {
        Error::KvmError(v)
    }
}

/// The kernel status code that stands for a driver error.
pub open spec fn c_status(e: Error) -> i32 {
    match e {
        Error::Lk(lk) => named_code(lk),
        _ => named_code(LkError::ERR_GENERIC),
    }
}

impl Error {
    /// The kernel status code for this error: a kernel error keeps its own
    /// code, every other error is `ERR_GENERIC`.
    pub fn into_c(self) -> (r: i32)
        ensures
            r == c_status(self),
    {
        match self {
            Error::Pci(_) => LkError::ERR_GENERIC,
            Error::Virtio(_) => LkError::ERR_GENERIC,
            Error::KvmError(_) => LkError::ERR_GENERIC,
            Error::Lk(e) => e,
        }.code()
    }
}

/// The kernel status code reported for the outcome of a driver operation:
/// `NO_ERROR` for success, the error's code otherwise.
pub fn status_of(r: Result<(), Error>) -> (status: i32)
    ensures
        r is Ok ==> status == crate::lk_error::NO_ERROR,
        r matches Err(e) ==> status == c_status(e),
{
    match r {
        Ok(()) => crate::lk_error::NO_ERROR,
        Err(e) => e.into_c(),
    }
}

} // verus!
