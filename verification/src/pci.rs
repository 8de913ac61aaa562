//! Checking the PCI configuration window handed to the driver.
use vstd::prelude::*;

use crate::arith::{is_pow2, is_power_of_two};
use crate::err::Error;
use crate::lk_error::LkError;

verus! {

/// The PCI configuration access mechanism of a window.
#[derive(Clone, Copy, Debug, PartialEq, Eq, Structural)]
pub enum PciCam {
    /// The PCI memory-mapped mechanism: 256 bytes per device function.
    MmioCam,
    /// The PCIe enhanced mechanism: 4 KiB per device function.
    Ecam,
}

/// The size of the whole configuration region of a mechanism.
pub open spec fn cam_region_size(cam: PciCam) -> u32 {
    match cam {
        PciCam::MmioCam => 0x1000000,
        PciCam::Ecam => 0x10000000,
    }
}

/// `virtio_drivers::transport::pci::bus::Cam::size`.
///
/// The crate returns `0x1000000` for `MmioCam` and `0x10000000` for `Ecam`;
/// the contract states exactly that.
#[verifier::external_body]
pub(crate) fn cam_size(cam: PciCam) -> (r: u32)
    ensures
        r == cam_region_size(cam),
{
    let cam = match cam {
        PciCam::MmioCam => virtio_drivers::transport::pci::bus::Cam::MmioCam,
        PciCam::Ecam => virtio_drivers::transport::pci::bus::Cam::Ecam,
    };
    cam.size()
}

/// The mechanism whose configuration space per device function is a eighth
/// of `cfg_size` (there are 8 functions per device): 256 bytes for `MmioCam`,
/// 4096 bytes for `Ecam`.
pub open spec fn cam_of_config_size(cfg_size: usize) -> Option<PciCam> {
    if cfg_size / 8 == 256 {
        Some(PciCam::MmioCam)
    } else if cfg_size / 8 == 4096 {
        Some(PciCam::Ecam)
    } else {
        None
    }
}

/// Checks the PCI window `[pci_paddr, pci_paddr + pci_size)` whose devices have
/// `cfg_size` bytes of configuration space each, and returns its access
/// mechanism.
///
/// An unknown configuration size, a window size that is not a power of two or
/// larger than the mechanism's region is `ERR_BAD_LEN`; an ECAM window not
/// aligned to its size is `ERR_INVALID_ARGS`.
pub fn check_pci_window(pci_paddr: usize, pci_size: usize, cfg_size: usize) -> (r: Result<PciCam, Error>)
    ensures
        cam_of_config_size(cfg_size) is None ==> r == Err::<PciCam, Error>(Error::Lk(LkError::ERR_BAD_LEN)),
        cam_of_config_size(cfg_size) matches Some(cam) ==> {
            &&& (!is_pow2(pci_size as nat) || pci_size > cam_region_size(cam)) ==> r == Err::<PciCam, Error>(
                Error::Lk(LkError::ERR_BAD_LEN),
            )
            &&& (is_pow2(pci_size as nat) && pci_size <= cam_region_size(cam) && cam == PciCam::Ecam
                && pci_paddr % pci_size != 0) ==> r == Err::<PciCam, Error>(Error::Lk(LkError::ERR_INVALID_ARGS))
            &&& (is_pow2(pci_size as nat) && pci_size <= cam_region_size(cam) && (cam == PciCam::MmioCam
                || pci_paddr % pci_size == 0)) ==> r == Ok::<PciCam, Error>(cam)
        },
{
    let cam = if cfg_size / 8 == 256 {
        PciCam::MmioCam
    } else if cfg_size / 8 == 4096 {
        PciCam::Ecam
    } else {
        return Err(Error::Lk(LkError::ERR_BAD_LEN));
    };
    if !is_power_of_two(pci_size) || pci_size > cam_size(cam) as usize {
        return Err(Error::Lk(LkError::ERR_BAD_LEN));
    }
    // The ECAM base must be aligned to the window's size.
    if cam == PciCam::Ecam && pci_paddr % pci_size != 0 {
        return Err(Error::Lk(LkError::ERR_INVALID_ARGS));
    }
    Ok(cam)
}

/// Whether PCI bus `bus` lies in a window of `pci_size` bytes: each bus takes
/// one megabyte of address space.
pub fn bus_in_window(bus: u8, pci_size: usize) -> (r: bool)
    ensures
        r == (bus as int * 0x100000 < pci_size),
{
    (bus as u64) * 0x100000 < pci_size as u64
}

/// The outcome of guarding the PCI window for MMIO: a hypervisor without MMIO
/// guard support needs no guard.
pub fn pci_mmio_guard_outcome(r: Result<(), LkError>) -> (out: Result<(), Error>)
    ensures
        r is Ok || r == Err::<(), LkError>(LkError::ERR_NOT_SUPPORTED) ==> out is Ok,
        r matches Err(e) ==> (e != LkError::ERR_NOT_SUPPORTED ==> out == Err::<(), Error>(Error::Lk(e))),
{
    match r {
        Ok(()) => Ok(()),
        Err(LkError::ERR_NOT_SUPPORTED) => Ok(()),
        Err(e) => Err(Error::Lk(e)),
    }
}

} // verus!
