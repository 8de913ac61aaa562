use trusty_vsock::err::{status_of, Error};
use trusty_vsock::hal::{
    align_to_page, bar_mmio_guard_outcome, check_dma_allocation, copies_from_device,
    copies_to_device, pages_to_bytes, to_pages, BarInfo, BarTable, BufferDirection,
    DmaAllocFailure, DmaShareTable, TrustyHal, PAGE_SIZE, share_copy, unshare_copy,
};
use trusty_vsock::kvm::KvmError;
use trusty_vsock::lk_error::LkError;
use trusty_vsock::pci::{bus_in_window, check_pci_window, pci_mmio_guard_outcome, PciCam};

#[test]
fn page_arithmetic() {
    assert_eq!(pages_to_bytes(3), 3 * 4096);
    assert_eq!(to_pages(0), 0);
    assert_eq!(to_pages(1), 1);
    assert_eq!(to_pages(4096), 1);
    assert_eq!(to_pages(4097), 2);
    assert_eq!(align_to_page(0), 0);
    assert_eq!(align_to_page(1), 4096);
    assert_eq!(align_to_page(4096), 4096);
    assert_eq!(align_to_page(0x1_0001), 0x1_1000);
    assert_eq!(TrustyHal::dma_alloc_size(2), 2 * PAGE_SIZE);
}

#[test]
fn dma_allocation_checks() {
    assert_eq!(check_dma_allocation(0, 0x10_0000), Ok(()));
    assert_eq!(check_dma_allocation(-5, 0x10_0000), Err(DmaAllocFailure::AllocFailed(-5)));
    assert_eq!(check_dma_allocation(0, 0x10_0010), Err(DmaAllocFailure::Unaligned(0x10_0010)));
}

#[test]
fn buffer_copies_by_direction() {
    assert!(copies_to_device(BufferDirection::DriverToDevice));
    assert!(!copies_to_device(BufferDirection::DeviceToDriver));
    assert!(copies_to_device(BufferDirection::Both));
    assert!(!copies_from_device(BufferDirection::DriverToDevice));
    assert!(copies_from_device(BufferDirection::DeviceToDriver));
    assert!(copies_from_device(BufferDirection::Both));
}

#[test]
fn windows_bounded_by_cam_size() {
    // The MMIO CAM region holds 16 MiB, the ECAM region 256 MiB.
    assert_eq!(check_pci_window(0, 0x100_0000, 2048).ok(), Some(PciCam::MmioCam));
    assert!(matches!(check_pci_window(0, 0x200_0000, 2048), Err(Error::Lk(LkError::ERR_BAD_LEN))));
    assert_eq!(check_pci_window(0, 0x1000_0000, 32768).ok(), Some(PciCam::Ecam));
    assert!(matches!(check_pci_window(0, 0x2000_0000, 32768), Err(Error::Lk(LkError::ERR_BAD_LEN))));
}

#[test]
fn pci_windows() {
    assert_eq!(check_pci_window(0x3000_0000, 0x100_0000, 2048).ok(), Some(PciCam::MmioCam));
    assert_eq!(check_pci_window(0x4000_0000, 0x1000_0000, 32768).ok(), Some(PciCam::Ecam));
    assert!(matches!(check_pci_window(0, 0x100_0000, 1000), Err(Error::Lk(LkError::ERR_BAD_LEN))));
    assert!(matches!(
        check_pci_window(0, 0x300_0000, 2048),
        Err(Error::Lk(LkError::ERR_BAD_LEN))
    ));
    assert!(matches!(
        check_pci_window(0, 0x200_0000, 2048),
        Err(Error::Lk(LkError::ERR_BAD_LEN))
    ));
    assert!(matches!(
        check_pci_window(0x100_0000, 0x200_0000, 32768),
        Err(Error::Lk(LkError::ERR_INVALID_ARGS))
    ));
    // A misaligned MMIO CAM window is accepted.
    assert_eq!(check_pci_window(0x1000, 0x100_0000, 2048).ok(), Some(PciCam::MmioCam));
}

#[test]
fn buses_in_window() {
    assert!(bus_in_window(0, 0x100_0000));
    assert!(bus_in_window(15, 0x100_0000));
    assert!(!bus_in_window(16, 0x100_0000));
    assert!(!bus_in_window(0, 0));
}

#[test]
fn mmio_guard_outcomes() {
    assert!(pci_mmio_guard_outcome(Ok(())).is_ok());
    assert!(pci_mmio_guard_outcome(Err(LkError::ERR_NOT_SUPPORTED)).is_ok());
    assert!(matches!(
        pci_mmio_guard_outcome(Err(LkError::ERR_INVALID_ARGS)),
        Err(Error::Lk(LkError::ERR_INVALID_ARGS))
    ));
    assert!(bar_mmio_guard_outcome(Err(LkError::ERR_INVALID_ARGS)).is_ok());
    assert!(bar_mmio_guard_outcome(Err(LkError::ERR_NOT_SUPPORTED)).is_ok());
    assert!(matches!(
        bar_mmio_guard_outcome(Err(LkError::ERR_NO_MEMORY)),
        Err(Error::Lk(LkError::ERR_NO_MEMORY))
    ));
}

#[test]
fn bar_lookups() {
    let mut bars = BarTable::new();
    assert_eq!(bars.mmio_phys_to_virt(0x1000, 4), None);
    bars.record(1, BarInfo { paddr: 0x1000, size: 0x2000, vaddr: 0x9000_0000 });
    bars.record(3, BarInfo { paddr: 0x8000, size: 0x1000, vaddr: 0xa000_0000 });
    assert_eq!(bars.mmio_phys_to_virt(0x1000, 4), Some(0x9000_0000));
    assert_eq!(bars.mmio_phys_to_virt(0x2ffc, 4), Some(0x9000_1ffc));
    assert_eq!(bars.mmio_phys_to_virt(0x2ffc, 8), None);
    assert_eq!(bars.mmio_phys_to_virt(0x8010, 0x10), Some(0xa000_0010));
    assert_eq!(bars.mmio_phys_to_virt(0x3000, 4), None);
}

#[test]
fn hal_maps_bars() {
    let mut hal = TrustyHal::new();
    assert!(hal.mmio_alloc(0, 0x1000, 0x1000, 0x5000, Err(LkError::ERR_NOT_SUPPORTED)).is_ok());
    assert!(matches!(
        hal.mmio_alloc(2, 0x4000, 0x1000, 0x7000, Err(LkError::ERR_GENERIC)),
        Err(Error::Lk(LkError::ERR_GENERIC))
    ));
    assert_eq!(hal.mmio_phys_to_virt(0x1800, 8), Some(0x5800));
    assert_eq!(hal.mmio_phys_to_virt(0x4000, 8), None);
}

#[test]
fn dma_share_then_unshare() {
    let mut table = DmaShareTable::new();
    assert_eq!(table.insert(0x1000, 0xf000), Ok(()));
    assert_eq!(table.insert(0x1000, 0xe000), Err(0xf000));
    assert_eq!(table.remove(0x1000), Some(0xf000));
    assert_eq!(table.remove(0x1000), None);
    let mut hal = TrustyHal::new();
    assert_eq!(hal.share(0x2000, 0xd000), Ok(()));
    assert_eq!(hal.unshare(0x2000), Some(0xd000));
    assert_eq!(hal.unshare(0x2000), None);
}

#[test]
fn error_statuses() {
    assert_eq!(Error::Lk(LkError::ERR_BAD_LEN).into_c(), -32);
    assert_eq!(Error::KvmError(KvmError::NotSupported).into_c(), -1);
    assert_eq!(Error::from(LkError::ERR_IO).into_c(), -20);
    assert_eq!(status_of(Ok(())), 0);
    assert_eq!(status_of(Err(Error::Lk(LkError::ERR_NOT_FOUND))), -2);
}

#[test]
fn align_to_page_at_the_top() {
    assert_eq!(align_to_page(usize::MAX - 4095), usize::MAX - 4095);
    assert_eq!(align_to_page(usize::MAX - 8191), usize::MAX - 8191);
    assert_eq!(align_to_page(usize::MAX - 8192), usize::MAX - 8191);
    assert_eq!(align_to_page(usize::MAX - 8190), usize::MAX - 4095);
}

#[test]
fn share_copy_by_direction() {
    let buffer = [1u8, 2, 3];
    let mut pages = [9u8; 5];
    share_copy(BufferDirection::DriverToDevice, &buffer, &mut pages);
    assert_eq!(pages, [1, 2, 3, 9, 9]);
    let mut pages = [9u8; 5];
    share_copy(BufferDirection::Both, &buffer, &mut pages);
    assert_eq!(pages, [1, 2, 3, 9, 9]);
    let mut pages = [9u8; 5];
    share_copy(BufferDirection::DeviceToDriver, &buffer, &mut pages);
    assert_eq!(pages, [9; 5]);
}

#[test]
fn unshare_copy_by_direction() {
    let pages = [7u8, 8, 9, 10];
    let mut buffer = [0u8; 3];
    unshare_copy(BufferDirection::DeviceToDriver, &pages, &mut buffer);
    assert_eq!(buffer, [7, 8, 9]);
    let mut buffer = [0u8; 3];
    unshare_copy(BufferDirection::Both, &pages, &mut buffer);
    assert_eq!(buffer, [7, 8, 9]);
    let mut buffer = [0u8; 3];
    unshare_copy(BufferDirection::DriverToDevice, &pages, &mut buffer);
    assert_eq!(buffer, [0; 3]);
}

#[test]
fn share_then_unshare_keeps_buffer() {
    for dir in [BufferDirection::DriverToDevice, BufferDirection::Both] {
        let mut buffer = [4u8, 5, 6];
        let mut pages = [0u8; 4096];
        share_copy(dir, &buffer, &mut pages);
        unshare_copy(dir, &pages, &mut buffer);
        assert_eq!(buffer, [4, 5, 6]);
    }
    let mut buffer = [4u8, 5, 6];
    let mut pages = [0u8; 4096];
    share_copy(BufferDirection::Both, &buffer, &mut pages);
    pages[1] = 42;
    unshare_copy(BufferDirection::Both, &pages, &mut buffer);
    assert_eq!(buffer, [4, 42, 6]);
}
