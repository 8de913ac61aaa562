use trusty_vsock::arith::{div_ceil, is_power_of_two};
use trusty_vsock::hypervisor::{
    get_mmio_granule, mmio_map_failure, mmio_map_region, mmio_map_region_unsupported,
    mmio_map_status,
};
use trusty_vsock::kvm::{
    get_granule, hypercall_result, is_pkvm_signature, kvm_error_from, share_failure, share_pages,
    unshare_pages, HypervisorError, KvmError, PageAction, PageRun, PageWalk,
};
use trusty_vsock::lk_error::LkError;

fn pages_of(walk: &mut PageWalk) -> Vec<usize> {
    let mut pages = Vec::new();
    while let Some(p) = walk.next_page() {
        pages.push(p);
        walk.advance();
    }
    pages
}

#[test]
fn multiples_and_powers() {
    assert!(is_power_of_two(1));
    assert!(is_power_of_two(4096));
    assert!(!is_power_of_two(0));
    assert!(!is_power_of_two(12));
    assert_eq!(div_ceil(10, 4), 3);
    assert_eq!(div_ceil(8, 4), 2);
    assert_eq!(div_ceil(0, 4), 0);
}

#[test]
fn kvm_errors_from_values() {
    assert_eq!(kvm_error_from(-1000), KvmError::NotSupported);
    assert_eq!(kvm_error_from(-22), KvmError::InvalidParameter);
    assert_eq!(kvm_error_from(-5), KvmError::Unknown(-5));
    assert_eq!(KvmError::from(-22i64), KvmError::InvalidParameter);
}

#[test]
fn hypercall_results() {
    assert_eq!(hypercall_result(0), Ok(()));
    assert_eq!(hypercall_result((-1000i32) as u32), Err(KvmError::NotSupported));
    assert_eq!(hypercall_result((-22i32) as u32), Err(KvmError::InvalidParameter));
    assert_eq!(hypercall_result(7), Err(KvmError::Unknown(7)));
}

#[test]
fn pkvm_signature() {
    assert!(is_pkvm_signature(u32::from_le_bytes(*b"PKVM")));
    assert!(is_pkvm_signature(0x4d56_4b50));
    assert!(!is_pkvm_signature(u32::from_le_bytes(*b"KVMK")));
    assert!(!is_pkvm_signature(0));
}

#[test]
fn granules() {
    assert_eq!(get_granule(None), Err(KvmError::NotSupported));
    assert_eq!(get_granule(Some(4096)), Ok(4096));
    assert_eq!(get_granule(Some(3000)), Err(KvmError::InvalidParameter));
    assert_eq!(get_mmio_granule(None), Err(LkError::ERR_NOT_SUPPORTED));
    assert_eq!(get_mmio_granule(Some(16384)), Ok(16384));
    assert_eq!(get_mmio_granule(Some(0)), Err(LkError::ERR_INVALID_ARGS));
}

#[test]
fn share_walks_every_page_in_order() {
    let mut walk = share_pages(true, Ok(4096), 0x10000, 3 * 4096).ok().unwrap();
    assert_eq!(pages_of(&mut walk), vec![0x10000, 0x11000, 0x12000]);
    assert!(walk.is_finished());
}

#[test]
fn share_of_empty_range_has_no_page() {
    let mut walk = share_pages(true, Ok(4096), 0x10000, 0).ok().unwrap();
    assert_eq!(pages_of(&mut walk), Vec::<usize>::new());
}

#[test]
fn alignment_by_multiples() {
    assert!(PageWalk::new(8192, 4096, 4096).is_ok());
    assert!(matches!(PageWalk::new(8193, 4096, 4096), Err(KvmError::InvalidParameter)));
    assert!(matches!(PageWalk::new(8192, 4095, 4096), Err(KvmError::InvalidParameter)));
    assert!(PageWalk::new(0, 0, 1).is_ok());
}

#[test]
fn share_refusals() {
    assert!(matches!(share_pages(false, Ok(4096), 0, 4096), Err(KvmError::NotSupported)));
    assert!(matches!(
        share_pages(true, Err(KvmError::InvalidParameter), 0, 4096),
        Err(KvmError::InvalidParameter)
    ));
    assert!(matches!(share_pages(true, Ok(4096), 0x10, 4096), Err(KvmError::InvalidParameter)));
    assert!(matches!(share_pages(true, Ok(4096), 0x1000, 100), Err(KvmError::InvalidParameter)));
    assert!(matches!(unshare_pages(true, Ok(3000), 0, 3000), Err(KvmError::InvalidParameter)));
    assert!(matches!(unshare_pages(false, Ok(4096), 0, 4096), Err(KvmError::NotSupported)));
}

#[test]
fn failed_share_rolls_back_handled_pages() {
    let mut walk = share_pages(true, Ok(4096), 0x4000, 4 * 4096).ok().unwrap();
    // The first two pages are shared, the third fails.
    walk.advance();
    walk.advance();
    assert_eq!(walk.next_page(), Some(0x6000));
    let mut rollback = walk.handled();
    assert_eq!(pages_of(&mut rollback), vec![0x4000, 0x5000]);
    let err = share_failure(HypervisorError::KvmError(KvmError::Unknown(-3), 21));
    assert_eq!(err, Some(KvmError::Unknown(-3)));
    assert_eq!(share_failure(HypervisorError::Other), None);
}

#[test]
fn failed_first_share_rolls_back_nothing() {
    let walk = share_pages(true, Ok(4096), 0x4000, 4096).ok().unwrap();
    let mut rollback = walk.handled();
    assert_eq!(pages_of(&mut rollback), Vec::<usize>::new());
}

#[test]
fn unshare_walk() {
    let mut walk = unshare_pages(true, Ok(8192), 0x8000, 16384).ok().unwrap();
    assert_eq!(pages_of(&mut walk), vec![0x8000, 0xa000]);
}

#[test]
fn mmio_map_plans() {
    assert!(matches!(mmio_map_region(false, Err(LkError::ERR_NOT_SUPPORTED), 1, 1), Ok(None)));
    assert!(matches!(
        mmio_map_region(true, Err(LkError::ERR_NOT_SUPPORTED), 0, 4096),
        Err(LkError::ERR_NOT_SUPPORTED)
    ));
    assert!(matches!(mmio_map_region(true, Ok(4096), 0x100, 4096), Err(LkError::ERR_INVALID_ARGS)));
    let mut walk = mmio_map_region(true, Ok(4096), 0x2000, 8192).ok().unwrap().unwrap();
    assert_eq!(pages_of(&mut walk), vec![0x2000, 0x3000]);
    assert_eq!(mmio_map_region_unsupported(0, 4096), Err(LkError::ERR_NOT_SUPPORTED));
}

#[test]
fn mmio_map_failures() {
    assert_eq!(
        mmio_map_failure(HypervisorError::KvmError(KvmError::NotSupported, 1)),
        Some(LkError::ERR_NOT_SUPPORTED)
    );
    assert_eq!(
        mmio_map_failure(HypervisorError::KvmError(KvmError::InvalidParameter, 1)),
        Some(LkError::ERR_INVALID_ARGS)
    );
    assert_eq!(
        mmio_map_failure(HypervisorError::KvmError(KvmError::Unknown(9), 1)),
        Some(LkError::ERR_GENERIC)
    );
    assert_eq!(mmio_map_failure(HypervisorError::Other), None);
}

#[test]
fn mmio_map_statuses() {
    assert_eq!(mmio_map_status(Ok(())), 0);
    assert_eq!(mmio_map_status(Err(LkError::ERR_INVALID_ARGS)), -8);
}

/// Drives a run, failing the page at `fail_at` if any; returns the actions taken.
fn drive(walk: PageWalk, undo: bool, fail_at: Option<usize>) -> Vec<PageAction> {
    let mut run = PageRun::new(walk, undo);
    let mut actions = Vec::new();
    loop {
        let a = run.next_action();
        actions.push(a);
        match a {
            PageAction::Apply(page) => {
                if Some(page) == fail_at {
                    run.failed(HypervisorError::KvmError(KvmError::InvalidParameter, 3));
                } else {
                    run.applied();
                }
            }
            PageAction::Undo(_) => run.undone(),
            PageAction::Finished | PageAction::Failed(_) => return actions,
        }
    }
}

#[test]
fn page_run_applies_every_page() {
    let walk = PageWalk::new(0x4000, 0x3000, 0x1000).ok().unwrap();
    assert_eq!(
        drive(walk, true, None),
        vec![
            PageAction::Apply(0x4000),
            PageAction::Apply(0x5000),
            PageAction::Apply(0x6000),
            PageAction::Finished
        ]
    );
}

#[test]
fn page_run_undoes_pages_before_failure() {
    let err = HypervisorError::KvmError(KvmError::InvalidParameter, 3);
    let walk = PageWalk::new(0x4000, 0x4000, 0x1000).ok().unwrap();
    assert_eq!(
        drive(walk, true, Some(0x6000)),
        vec![
            PageAction::Apply(0x4000),
            PageAction::Apply(0x5000),
            PageAction::Apply(0x6000),
            PageAction::Undo(0x4000),
            PageAction::Undo(0x5000),
            PageAction::Failed(err)
        ]
    );
    let walk = PageWalk::new(0x4000, 0x4000, 0x1000).ok().unwrap();
    assert_eq!(
        drive(walk, true, Some(0x4000)),
        vec![PageAction::Apply(0x4000), PageAction::Failed(err)]
    );
}

#[test]
fn page_run_without_undo_stops_at_failure() {
    let err = HypervisorError::KvmError(KvmError::InvalidParameter, 3);
    let walk = PageWalk::new(0x4000, 0x4000, 0x1000).ok().unwrap();
    assert_eq!(
        drive(walk, false, Some(0x5000)),
        vec![PageAction::Apply(0x4000), PageAction::Apply(0x5000), PageAction::Failed(err)]
    );
}
