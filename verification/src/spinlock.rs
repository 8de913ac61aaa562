//! Spin locks that disable interrupts while they are held.
//!
//! The kernel's spin lock, interrupt save/restore and interrupt queries are
//! made by the caller, in the order these functions hand back; this module
//! keeps the protected value, the lock's flags, whether the lock is held, and
//! the interrupt state saved with each hold.
use vstd::prelude::*;

use crate::interrupt::{
    deadlock_risk, flags, ConstInterruptFlags, GetInterruptFlags, InterruptFlags, InterruptState,
};

verus! {

/// The value of a kernel spin lock that nobody holds.
pub const SPIN_LOCK_INITIAL_VALUE: u64 = 0;

/// The kernel's lock word, without the data it protects.
pub struct LoneSpinLock {
    raw: u64,
}

impl LoneSpinLock {
    /// Whether the lock is held.
    pub closed spec fn is_held(&self) -> bool {
        self.raw != SPIN_LOCK_INITIAL_VALUE
    }

    /// A lock that nobody holds.
    pub fn new() -> (r: LoneSpinLock)
        ensures
            !r.is_held(),
    {
        LoneSpinLock { raw: SPIN_LOCK_INITIAL_VALUE }
    }

    fn acquire(&mut self)
        ensures
            final(self).is_held(),
    {
        self.raw = 1;
    }

    fn release(&mut self)
        ensures
            !final(self).is_held(),
    {
        self.raw = SPIN_LOCK_INITIAL_VALUE;
    }

    fn held(&self) -> (r: bool)
        ensures
            r == self.is_held(),
    {
        self.raw != SPIN_LOCK_INITIAL_VALUE
    }
}

impl Default for LoneSpinLock {
    fn default() -> (r: LoneSpinLock)
        ensures
            !r.is_held(),
    {
        LoneSpinLock::new()
    }
}

/// Proof that a spin lock is held, handed out by the lock and given back to
/// release it.
pub struct SpinLockGuard {
    _held: (),
}

/// A held spin lock together with the interrupt state saved before it was
/// taken: the lock is released first, and the interrupts restored after.
pub struct SpinLockGuardState<F: GetInterruptFlags> {
    guard: SpinLockGuard,
    state: InterruptState<F>,
}

impl<F: GetInterruptFlags> SpinLockGuardState<F> {
    /// The interrupt state saved before the lock was taken.
    pub closed spec fn interrupt_state(&self) -> InterruptState<F> {
        self.state
    }
}

/// Why a lock refused to be taken: disabling its interrupt flags while the
/// given ones are disabled risks a deadlock. Holds the requested and the
/// disabled flags.
pub type FlagConflict = (InterruptFlags, InterruptFlags);

/// A value protected by a kernel spin lock, with the interrupt flags to
/// disable while the lock is held.
pub struct SpinLock<T, F: GetInterruptFlags> {
    lock: LoneSpinLock,
    interrupt_flags: F,
    value: T,
}

impl<T, F: GetInterruptFlags> SpinLock<T, F> {
    /// The protected value.
    pub closed spec fn value(&self) -> T {
        self.value
    }

    /// The lock's interrupt flags.
    pub closed spec fn flags(&self) -> F {
        self.interrupt_flags
    }

    /// Whether the lock is held.
    pub closed spec fn is_locked(&self) -> bool {
        self.lock.is_held()
    }

    /// A lock nobody holds, protecting `value`, that disables the interrupts
    /// of `interrupt_flags` while held.
    pub fn new(value: T, interrupt_flags: F) -> (r: SpinLock<T, F>)
        ensures
            r.value() == value,
            r.flags() == interrupt_flags,
            !r.is_locked(),
    {
        SpinLock { lock: LoneSpinLock::new(), interrupt_flags, value }
    }

    /// The protected value, taking the lock apart.
    pub fn into_inner(self) -> (r: T)
        ensures
            r == self.value(),
    {
        self.value
    }

    /// The protected value, through exclusive access to the lock.
    pub fn get_mut(&mut self) -> (r: &mut T)
        ensures
            *r == old(self).value(),
            final(self).value() == *final(r),
            final(self).flags() == old(self).flags(),
            final(self).is_locked() == old(self).is_locked(),
    {
        &mut self.value
    }

    /// The lock's interrupt flags.
    pub fn interrupt_flags(&self) -> (r: F)
        ensures
            r == self.flags(),
    {
        self.interrupt_flags
    }

    /// Whether the lock is held.
    pub fn is_held(&self) -> (r: bool)
        ensures
            r == self.is_locked(),
    {
        self.lock.held()
    }

    /// Takes the lock, with interrupts already disabled elsewhere, given
    /// whether IRQs and FIQs are disabled now. The lock's flags are checked
    /// first: a combination that risks a deadlock is refused and the lock left
    /// alone. Otherwise the kernel spins until it gets the lock.
    pub fn lock_unsaved(&mut self, irqs_disabled: bool, fiqs_disabled: Option<bool>) -> (r: Result<SpinLockGuard, FlagConflict>)
        requires
            !old(self).is_locked(),
        ensures
            r is Err <==> deadlock_risk(old(self).flags().flags().spec_bits(), irqs_disabled, fiqs_disabled),
            r is Ok ==> final(self).is_locked(),
            r is Err ==> !final(self).is_locked(),
            final(self).value() == old(self).value(),
            final(self).flags() == old(self).flags(),
    {
        let flags = self.interrupt_flags.get();
        match flags.check(irqs_disabled, fiqs_disabled) {
            Err(conflict) => Err(conflict),
            Ok(()) => {
                self.lock.acquire();
                Ok(SpinLockGuard { _held: () })
            },
        }
    }

    /// Tries to take the lock, with interrupts already disabled elsewhere,
    /// given whether IRQs and FIQs are disabled now and, once the flags pass
    /// the check, the status of the kernel's `spin_trylock`: zero means the
    /// lock was taken; any other value means it was busy, and the lock is left
    /// as it was, held or not.
    pub fn try_lock_unsaved(&mut self, irqs_disabled: bool, fiqs_disabled: Option<bool>, status: i32) -> (r: Result<Option<SpinLockGuard>, FlagConflict>)
        ensures
            r is Err <==> deadlock_risk(old(self).flags().flags().spec_bits(), irqs_disabled, fiqs_disabled),
            r matches Ok(g) ==> (g is Some <==> status == 0),
            final(self).is_locked() <==> (old(self).is_locked() || (r matches Ok(g) && g is Some)),
            final(self).value() == old(self).value(),
            final(self).flags() == old(self).flags(),
    {
        let flags = self.interrupt_flags.get();
        match flags.check(irqs_disabled, fiqs_disabled) {
            Err(conflict) => Err(conflict),
            Ok(()) => {
                // `spin_trylock` returns 0 on success; other values are not specified.
                if status != 0 {
                    return Ok(None);
                }
                self.lock.acquire();
                Ok(Some(SpinLockGuard { _held: () }))
            },
        }
    }

    /// Takes the lock after the kernel disabled the lock's interrupts and saved
    /// `saved_state`, given whether IRQs and FIQs were disabled already, as
    /// sampled before that save. A refused flag combination leaves the lock
    /// alone.
    pub fn lock_save(&mut self, saved_state: u64, irqs_disabled: bool, fiqs_disabled: Option<bool>) -> (r: Result<SpinLockGuardState<F>, FlagConflict>)
        requires
            !old(self).is_locked(),
        ensures
            r is Err <==> deadlock_risk(old(self).flags().flags().spec_bits(), irqs_disabled, fiqs_disabled),
            r matches Ok(g) ==> {
                &&& final(self).is_locked()
                &&& g.interrupt_state().saved() == saved_state
                &&& g.interrupt_state().saved_flags() == old(self).flags()
            },
            r is Err ==> !final(self).is_locked(),
            final(self).value() == old(self).value(),
            final(self).flags() == old(self).flags(),
    {
        let state = InterruptState::save(self.interrupt_flags, saved_state);
        match self.lock_unsaved(irqs_disabled, fiqs_disabled) {
            Ok(guard) => Ok(SpinLockGuardState { guard, state }),
            Err(conflict) => Err(conflict),
        }
    }

    /// Tries to take the lock after the kernel disabled the lock's interrupts
    /// and saved `saved_state`, given whether IRQs and FIQs were disabled
    /// already, as sampled before that save, and the status of the kernel's
    /// `spin_trylock`. When the lock was busy, it is left as it was and the
    /// interrupt state is handed back (`Err`) for the kernel to restore.
    pub fn try_lock_save(&mut self, saved_state: u64, irqs_disabled: bool, fiqs_disabled: Option<bool>, status: i32) -> (r: Result<Result<SpinLockGuardState<F>, InterruptState<F>>, FlagConflict>)
        ensures
            r is Err <==> deadlock_risk(old(self).flags().flags().spec_bits(), irqs_disabled, fiqs_disabled),
            r matches Ok(g) ==> (g is Ok <==> status == 0),
            r matches Ok(Ok(g)) ==> g.interrupt_state().saved() == saved_state
                && g.interrupt_state().saved_flags() == old(self).flags(),
            r matches Ok(Err(s)) ==> s.saved() == saved_state && s.saved_flags() == old(self).flags(),
            final(self).is_locked() <==> (old(self).is_locked() || (r matches Ok(g) && g is Ok)),
            final(self).value() == old(self).value(),
            final(self).flags() == old(self).flags(),
    {
        let state = InterruptState::save(self.interrupt_flags, saved_state);
        match self.try_lock_unsaved(irqs_disabled, fiqs_disabled, status) {
            Ok(Some(guard)) => Ok(Ok(SpinLockGuardState { guard, state })),
            Ok(None) => Ok(Err(state)),
            Err(conflict) => Err(conflict),
        }
    }
}

impl SpinLockGuard {
    /// Releases the lock.
    pub fn unlock<T, F: GetInterruptFlags>(self, lock: &mut SpinLock<T, F>)
        requires
            old(lock).is_locked(),
        ensures
            !final(lock).is_locked(),
            final(lock).value() == old(lock).value(),
            final(lock).flags() == old(lock).flags(),
    {
        lock.lock.release();
    }
}

impl<F: GetInterruptFlags> SpinLockGuardState<F> {
    /// Releases the lock, then hands back what the kernel must restore: the
    /// interrupt state saved before the lock was taken, and the bits of the
    /// flags it was saved with.
    pub fn unlock_restore<T>(self, lock: &mut SpinLock<T, F>) -> (r: (u64, u32))
        requires
            old(lock).is_locked(),
        ensures
            !final(lock).is_locked(),
            final(lock).value() == old(lock).value(),
            final(lock).flags() == old(lock).flags(),
            r.0 == self.interrupt_state().saved(),
            r.1 == self.interrupt_state().saved_flags().flags().spec_bits(),
    {
        let SpinLockGuardState { guard, state } = self;
        guard.unlock(lock);
        state.restore()
    }
}

/// A spin lock that disables interrupts in general (IRQs) while held: the
/// analogue of the kernel's `spin_lock_irqsave`.
pub type IRQSpinLock<T> = SpinLock<T, flags::Interrupts>;

impl<T> IRQSpinLock<T> {
    /// An IRQ spin lock nobody holds, protecting `value`.
    pub fn new_irq(value: T) -> (r: IRQSpinLock<T>)
        ensures
            r.value() == value,
            !r.is_locked(),
    {
        SpinLock::new(value, ConstInterruptFlags)
    }
}

/// Taking a lock and then releasing it, with no conflict, leaves the lock free
/// with its value and flags, and gives the kernel back the interrupt state it
/// saved before taking it.
pub proof fn lemma_lock_save_then_unlock_restore<F: GetInterruptFlags>(saved_state: u64, flags: F, g: SpinLockGuardState<F>, restored: (u64, u32))
    requires
        g.interrupt_state().saved() == saved_state,
        g.interrupt_state().saved_flags() == flags,
        restored.0 == g.interrupt_state().saved(),
        restored.1 == g.interrupt_state().saved_flags().flags().spec_bits(),
    ensures
        restored == (saved_state, flags.flags().spec_bits()),
{
}

} // verus!
