//! MMIO guard mapping through the hypervisor.
//!
//! The hypercalls are made by the caller; this module decides whether a region
//! can be mapped, which pages are mapped in which order, and how the
//! hypervisor's errors are reported as kernel statuses.
use vstd::prelude::*;

use crate::arith::{is_multiple, is_pow2, is_power_of_two};
use crate::kvm::{HypervisorError, KvmError, PageWalk};
use crate::lk_error::{named_code, LkError, NO_ERROR};

verus! {

/// The MMIO guard granule reported by the hypervisor, checked.
///
/// `reported` is `None` when there is no MMIO guard hypervisor or when it could
/// not report its granule.
pub fn get_mmio_granule(reported: Option<usize>) -> (r: Result<usize, LkError>)
    ensures
        reported is None ==> r == Err::<usize, LkError>(LkError::ERR_NOT_SUPPORTED),
        reported matches Some(g) ==> r == (if is_pow2(g as nat) {
            Ok::<usize, LkError>(g)
        } else {
            Err::<usize, LkError>(LkError::ERR_INVALID_ARGS)
        }),
{
    match reported {
        None => Err(LkError::ERR_NOT_SUPPORTED),
        Some(g) => {
            if !is_power_of_two(g) {
                Err(LkError::ERR_INVALID_ARGS)
            } else {
                Ok(g)
            }
        },
    }
}

/// The checks `mmio_map_region` makes before it maps any page.
///
/// Without an MMIO guard there is nothing to map: `Ok(None)`. Otherwise the
/// granule must be valid and the region aligned to it; on success, the walk
/// over the pages to map, in order. When a map hypercall then fails, the pages
/// of `PageWalk::handled` are to be unmapped and the error of
/// `mmio_map_failure` returned.
pub fn mmio_map_region(have_mmio_guard: bool, granule: Result<usize, LkError>, paddr: usize, size: usize) -> (r: Result<Option<PageWalk>, LkError>)
    requires
        paddr + size <= usize::MAX,
        granule matches Ok(g) ==> is_pow2(g as nat),
    ensures
        !have_mmio_guard ==> r == Ok::<Option<PageWalk>, LkError>(None),
        have_mmio_guard && granule is Err ==> r == Err::<Option<PageWalk>, LkError>(granule->Err_0),
        have_mmio_guard ==> (granule matches Ok(g) ==> {
            &&& r is Ok <==> (is_multiple(paddr as int, g as int) && is_multiple(size as int, g as int))
            &&& r is Err ==> r == Err::<Option<PageWalk>, LkError>(LkError::ERR_INVALID_ARGS)
            &&& r matches Ok(w) ==> w matches Some(w) && w.wf() && w@.start == paddr && w@.granule
                == g && w@.done == 0 && w@.end() == paddr + size
        }),
{
    if !have_mmio_guard {
        return Ok(None);
    }
    let g = match granule {
        Ok(g) => g,
        Err(e) => return Err(e),
    };
    match PageWalk::new(paddr, size, g) {
        Ok(w) => Ok(Some(w)),
        Err(_) => Err(LkError::ERR_INVALID_ARGS),
    }
}

/// The kernel error for a KVM error of an MMIO guard map call.
pub open spec fn mmio_kvm_error(e: KvmError) -> LkError {
    match e {
        KvmError::NotSupported => LkError::ERR_NOT_SUPPORTED,
        KvmError::InvalidParameter => LkError::ERR_INVALID_ARGS,
        KvmError::Unknown(_) => LkError::ERR_GENERIC,
    }
}

/// A KVM error of an MMIO guard map call is reported to the kernel with the
/// status of the same meaning: "not supported" as -24, an invalid parameter
/// as -8 (invalid arguments), and anything else as -1 (generic error).
pub proof fn lemma_mmio_kvm_error_status(e: KvmError)
    ensures
        e is NotSupported ==> named_code(mmio_kvm_error(e)) == -24i32,
        e is InvalidParameter ==> named_code(mmio_kvm_error(e)) == -8i32,
        e is Unknown ==> named_code(mmio_kvm_error(e)) == -1i32,
{
}

/// How a failed MMIO guard map call is reported: the kernel error for its KVM
/// error, or `None` for an error of another backend, which the caller treats as
/// fatal.
pub fn mmio_map_failure(err: HypervisorError) -> (r: Option<LkError>)
    ensures
        err matches HypervisorError::KvmError(e, _) ==> r == Some(mmio_kvm_error(e)),
        err is Other ==> r is None,
{
    match err {
        HypervisorError::KvmError(KvmError::NotSupported, _) => Some(LkError::ERR_NOT_SUPPORTED),
        HypervisorError::KvmError(KvmError::InvalidParameter, _) => Some(LkError::ERR_INVALID_ARGS),
        HypervisorError::KvmError(_, _) => Some(LkError::ERR_GENERIC),
        HypervisorError::Other => None,
    }
}

/// `mmio_map_region` on a platform without an MMIO guard: always
/// `ERR_NOT_SUPPORTED`.
pub fn mmio_map_region_unsupported(paddr: usize, size: usize) -> (r: Result<(), LkError>)
    ensures
        r == Err::<(), LkError>(LkError::ERR_NOT_SUPPORTED),
{
    Err(LkError::ERR_NOT_SUPPORTED)
}

/// The kernel status reported for the result of a region mapping:
/// `NO_ERROR` on success, the error's code otherwise.
pub fn mmio_map_status(r: Result<(), LkError>) -> (status: i32)
    ensures
        r is Ok ==> status == NO_ERROR,
        r matches Err(e) ==> status == named_code(e),
{
    match r {
        Ok(()) => NO_ERROR,
        Err(e) => e.code(),
    }
}

} // verus!
