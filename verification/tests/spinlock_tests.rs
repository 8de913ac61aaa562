use trusty_vsock::interrupt::flags::IRQ;
use trusty_vsock::interrupt::{GetInterruptFlags, InterruptFlags, SPIN_LOCK_FLAG_IRQ, SPIN_LOCK_FLAG_IRQ_FIQ};
use trusty_vsock::spinlock::{IRQSpinLock, LoneSpinLock, SpinLock};

#[test]
fn new_lock_is_free_and_keeps_value() {
    let lock = SpinLock::new(5u32, InterruptFlags::irq_fiq());
    assert!(!lock.is_held());
    assert_eq!(lock.interrupt_flags(), InterruptFlags::irq_fiq());
    assert_eq!(lock.into_inner(), 5);
    let _ = LoneSpinLock::new();
    let _ = LoneSpinLock::default();
}

#[test]
fn get_mut_changes_value() {
    let mut lock = SpinLock::new(1u32, IRQ);
    *lock.get_mut() = 9;
    assert_eq!(lock.into_inner(), 9);
}

#[test]
fn lock_then_unlock() {
    let mut lock = SpinLock::new(1u32, InterruptFlags::irq());
    let guard = lock.lock_unsaved(true, Some(false)).unwrap();
    assert!(lock.is_held());
    guard.unlock(&mut lock);
    assert!(!lock.is_held());
    assert_eq!(lock.into_inner(), 1);
}

#[test]
fn lock_refused_on_flag_conflict() {
    let mut lock = SpinLock::new(1u32, InterruptFlags::irq());
    let r = lock.lock_unsaved(false, Some(true));
    assert!(r.is_err());
    assert!(!lock.is_held());
}

#[test]
fn try_lock_by_status() {
    let mut lock = SpinLock::new(1u32, InterruptFlags::irq());
    assert!(lock.try_lock_unsaved(true, Some(false), 1).unwrap().is_none());
    assert!(!lock.is_held());
    let g = lock.try_lock_unsaved(true, Some(false), 0).unwrap().unwrap();
    assert!(lock.is_held());
    g.unlock(&mut lock);
}

#[test]
fn lock_save_then_unlock_restore() {
    let mut lock = SpinLock::new(3u8, InterruptFlags::irq_fiq());
    let g = lock.lock_save(0xabcd, true, Some(true)).ok().unwrap();
    assert!(lock.is_held());
    let restored = g.unlock_restore(&mut lock);
    assert!(!lock.is_held());
    assert_eq!(restored, (0xabcd, SPIN_LOCK_FLAG_IRQ_FIQ));
}

#[test]
fn try_lock_save_busy_gives_state_back() {
    let mut lock = SpinLock::new(3u8, InterruptFlags::irq());
    let busy = lock.try_lock_save(42, true, Some(false), -1).ok().unwrap().err().unwrap();
    assert!(!lock.is_held());
    assert_eq!(busy.restore(), (42, SPIN_LOCK_FLAG_IRQ));
    let g = lock.try_lock_save(43, true, Some(false), 0).ok().unwrap().ok().unwrap();
    assert!(lock.is_held());
    assert_eq!(g.unlock_restore(&mut lock), (43, SPIN_LOCK_FLAG_IRQ));
}

#[test]
fn irq_spin_lock() {
    let mut lock: IRQSpinLock<u32> = IRQSpinLock::new_irq(11);
    assert_eq!(lock.interrupt_flags().get().bits(), SPIN_LOCK_FLAG_IRQ);
    let g = lock.lock_save(1, true, Some(false)).ok().unwrap();
    assert_eq!(g.unlock_restore(&mut lock), (1, SPIN_LOCK_FLAG_IRQ));
}

#[test]
fn platform_without_fiqs_never_refuses() {
    for irqs in [false, true] {
        assert_eq!(InterruptFlags::irq().check(irqs, None), Ok(()));
        assert_eq!(InterruptFlags::fiq().check(irqs, None), Ok(()));
        assert_eq!(InterruptFlags::irq_fiq().check(irqs, None), Ok(()));
    }
    let mut lock = SpinLock::new(3u32, InterruptFlags::fiq());
    let g = lock.lock_unsaved(true, None).unwrap();
    assert!(lock.is_held());
    g.unlock(&mut lock);
    assert!(!lock.is_held());
}

#[test]
fn try_lock_unsaved_on_held_lock_gives_no_guard() {
    let mut lock = SpinLock::new(4u32, InterruptFlags::irq());
    let g = lock.lock_unsaved(true, Some(false)).unwrap();
    assert!(lock.try_lock_unsaved(true, Some(false), 1).unwrap().is_none());
    assert!(lock.is_held());
    g.unlock(&mut lock);
    assert!(!lock.is_held());
}

#[test]
fn try_lock_save_on_held_lock_hands_back_state() {
    let mut lock = SpinLock::new(4u32, InterruptFlags::irq());
    let g = lock.lock_save(7, false, Some(false)).ok().unwrap();
    let busy = lock.try_lock_save(8, false, Some(false), 1).ok().unwrap().err().unwrap();
    assert!(lock.is_held());
    assert_eq!(busy.restore(), (8, SPIN_LOCK_FLAG_IRQ));
    assert_eq!(g.unlock_restore(&mut lock), (7, SPIN_LOCK_FLAG_IRQ));
    assert!(!lock.is_held());
}
