//! Interrupt flags and saved interrupt state.
//!
//! The kernel calls that save, restore and query the interrupt state are made
//! by the caller; this module holds the flags, decides which combinations of
//! flags may be disabled, and keeps each saved state together with the flags
//! it was saved with.
use vstd::prelude::*;

pub mod flags;

verus! {

/// The kernel's flag bit for IRQs. The flag values are those of the arm64
/// kernel, which has both IRQs and FIQs.
pub const SPIN_LOCK_FLAG_IRQ: u32 = 0x4000_0000;

/// The kernel's flag bit for FIQs.
pub const SPIN_LOCK_FLAG_FIQ: u32 = 0x8000_0000;

/// The kernel's flags for IRQs and FIQs together.
pub const SPIN_LOCK_FLAG_IRQ_FIQ: u32 = 0xc000_0000;

/// The kernel's flags for "interrupts" in general: IRQs only.
pub const SPIN_LOCK_FLAG_INTERRUPTS: u32 = 0x4000_0000;

/// Every flag bit the kernel knows.
pub const SPIN_LOCK_FLAGS_ALL: u32 = 0xc000_0000;

/// A set of interrupt kinds to disable. See `InterruptFlags::check` for the
/// combinations that may be disabled given what is already disabled.
#[derive(Clone, Copy, Debug, PartialEq, Eq, Structural)]
pub struct InterruptFlags(u32);

impl InterruptFlags {
    /// The flag bits of the set.
    pub closed spec fn spec_bits(self) -> u32 {
        self.0
    }

    /// The bits of the set.
    pub fn bits(self) -> (r: u32)
        ensures
            r == self.spec_bits(),
    {
        self.0
    }

    /// The bits passed to the kernel's interrupt calls.
    pub fn as_raw(&self) -> (r: u32)
        ensures
            r == self.spec_bits(),
    {
        self.0
    }

    /// The set with the known flags among `bits`; other bits are dropped.
    pub fn from_bits_truncate(bits: u32) -> (r: InterruptFlags)
        ensures
            r.spec_bits() == bits & SPIN_LOCK_FLAGS_ALL,
    {
        InterruptFlags(bits & SPIN_LOCK_FLAGS_ALL)
    }

    /// The empty set.
    pub fn empty() -> (r: InterruptFlags)
        ensures
            r.spec_bits() == 0,
    {
        InterruptFlags(0)
    }

    /// Every known flag.
    pub fn all() -> (r: InterruptFlags)
        ensures
            r.spec_bits() == SPIN_LOCK_FLAGS_ALL,
    {
        InterruptFlags(SPIN_LOCK_FLAGS_ALL)
    }

    /// IRQs (interrupt requests). Disabling only IRQs while only FIQs are
    /// disabled risks deadlocks.
    pub fn irq() -> (r: InterruptFlags)
        ensures
            r.spec_bits() == SPIN_LOCK_FLAG_IRQ,
    {
        InterruptFlags(SPIN_LOCK_FLAG_IRQ)
    }

    /// FIQs (fast interrupt requests). Disabling only FIQs while only IRQs are
    /// disabled risks deadlocks.
    pub fn fiq() -> (r: InterruptFlags)
        ensures
            r.spec_bits() == SPIN_LOCK_FLAG_FIQ,
    {
        InterruptFlags(SPIN_LOCK_FLAG_FIQ)
    }

    /// IRQs and FIQs.
    pub fn irq_fiq() -> (r: InterruptFlags)
        ensures
            r.spec_bits() == SPIN_LOCK_FLAG_IRQ_FIQ,
    {
        InterruptFlags(SPIN_LOCK_FLAG_IRQ_FIQ)
    }

    /// Interrupts in general, in a platform-agnostic way: IRQs only.
    pub fn interrupts() -> (r: InterruptFlags)
        ensures
            r.spec_bits() == SPIN_LOCK_FLAG_INTERRUPTS,
    {
        InterruptFlags(SPIN_LOCK_FLAG_INTERRUPTS)
    }

    /// The flags in either set.
    pub fn union(self, other: InterruptFlags) -> (r: InterruptFlags)
        ensures
            r.spec_bits() == self.spec_bits() | other.spec_bits(),
    {
        InterruptFlags(self.0 | other.0)
    }

    /// The flags in both sets.
    pub fn intersection(self, other: InterruptFlags) -> (r: InterruptFlags)
        ensures
            r.spec_bits() == self.spec_bits() & other.spec_bits(),
    {
        InterruptFlags(self.0 & other.0)
    }

    /// `self` if `select` holds, the empty set otherwise.
    pub fn select(self, select: bool) -> (r: InterruptFlags)
        ensures
            select ==> r == self,
            !select ==> r.spec_bits() == 0,
    {
        if select {
            self
        } else {
            InterruptFlags::empty()
        }
    }

    /// Checks whether these flags can be disabled without risking deadlocks,
    /// given whether IRQs are disabled already and, on a platform with FIQs,
    /// whether FIQs are (`fiqs_disabled` is `None` on a platform without FIQs,
    /// where nothing is ever refused).
    ///
    /// Considering only IRQs and FIQs: disabling only IRQs while only FIQs are
    /// disabled is refused, and so is disabling only FIQs while only IRQs are
    /// disabled. A refusal returns the requested and the disabled flags.
    pub fn check(&self, irqs_disabled: bool, fiqs_disabled: Option<bool>) -> (r: Result<(), (InterruptFlags, InterruptFlags)>)
        ensures
            r is Err <==> deadlock_risk(self.spec_bits(), irqs_disabled, fiqs_disabled),
            r matches Err((this, disabled)) ==> {
                &&& this.spec_bits() == self.spec_bits() & SPIN_LOCK_FLAG_IRQ_FIQ
                &&& disabled.spec_bits() == (if irqs_disabled { SPIN_LOCK_FLAG_IRQ } else { 0 }) | (
                if fiqs_disabled == Some(true) {
                    SPIN_LOCK_FLAG_FIQ
                } else {
                    0
                })
            },
    {
        let fiqs_disabled = match fiqs_disabled {
            // FIQs don't exist.
            None => return Ok(()),
            Some(f) => f,
        };
        let irq = InterruptFlags::irq();
        let fiq = InterruptFlags::fiq();
        let this = self.intersection(irq.union(fiq));
        let disabled = irq.select(irqs_disabled).union(fiq.select(fiqs_disabled));
        proof {
            let b = self.spec_bits();
            assert(0x4000_0000u32 | 0x8000_0000u32 == 0xc000_0000u32) by (bit_vector);
            assert(0x4000_0000u32 | 0 == 0x4000_0000u32 && 0 | 0x8000_0000u32 == 0x8000_0000u32
                && 0u32 | 0u32 == 0u32 && 0x4000_0000u32 | 0x8000_0000u32 != 0x4000_0000u32
                && 0x4000_0000u32 | 0x8000_0000u32 != 0x8000_0000u32) by (bit_vector);
        }
        if (this == irq && disabled == fiq) || (this == fiq && disabled == irq) {
            return Err((this, disabled));
        }
        Ok(())
    }
}

/// Whether disabling the flags `bits` risks a deadlock when IRQs and FIQs are
/// already disabled as given: on a platform with FIQs, exactly one of IRQs
/// and FIQs is requested, and exactly the other one is disabled. On a platform
/// without FIQs (`fiqs_disabled` is `None`) there is no such risk.
pub open spec fn deadlock_risk(bits: u32, irqs_disabled: bool, fiqs_disabled: Option<bool>) -> bool {
    let this = bits & SPIN_LOCK_FLAG_IRQ_FIQ;
    match fiqs_disabled {
        None => false,
        Some(fiqs_disabled) => {
            ||| this == SPIN_LOCK_FLAG_IRQ && !irqs_disabled && fiqs_disabled
            ||| this == SPIN_LOCK_FLAG_FIQ && irqs_disabled && !fiqs_disabled
        },
    }
}

/// A lock is refused only when it asks to disable exactly one of IRQs and
/// FIQs while exactly the other one alone is disabled: nothing is refused
/// while nothing, or everything, is disabled, and a lock that asks for both
/// kinds or neither is never refused.
pub proof fn lemma_refused_only_against_other_kind(bits: u32, irqs_disabled: bool, fiqs_disabled: bool)
    ensures
        deadlock_risk(bits, irqs_disabled, Some(fiqs_disabled)) ==> irqs_disabled != fiqs_disabled,
        deadlock_risk(bits, irqs_disabled, Some(fiqs_disabled)) <==> (
            (bits & 0xc000_0000u32 == 0x4000_0000u32 && !irqs_disabled && fiqs_disabled)
            || (bits & 0xc000_0000u32 == 0x8000_0000u32 && irqs_disabled && !fiqs_disabled)),
        !deadlock_risk(bits, false, Some(false)),
        !deadlock_risk(bits, true, Some(true)),
        bits & 0xc000_0000u32 == 0xc000_0000u32 || bits & 0xc000_0000u32 == 0 ==> !deadlock_risk(
            bits,
            irqs_disabled,
            Some(fiqs_disabled),
        ),
{
}

/// The name of a single interrupt kind of a refused combination, for the
/// message that reports it.
pub fn conflict_name(flags: InterruptFlags) -> (r: &'static str)
    ensures
        flags.spec_bits() == SPIN_LOCK_FLAG_IRQ ==> r@ == "IRQ"@,
        flags.spec_bits() != SPIN_LOCK_FLAG_IRQ ==> r@ == "FIQ"@,
{
    if flags.bits() == SPIN_LOCK_FLAG_IRQ {
        "IRQ"
    } else {
        "FIQ"
    }
}

impl Default for InterruptFlags {
    fn default() -> (r: InterruptFlags)
        ensures
            r.spec_bits() == SPIN_LOCK_FLAG_INTERRUPTS,
    {
        InterruptFlags::interrupts()
    }
}

/// Where a lock's interrupt flags come from: stored at run time, or fixed at
/// compile time.
pub trait GetInterruptFlags: Clone + Copy {
    /// The flags of `self`.
    spec fn flags(&self) -> InterruptFlags;

    /// The flags of `self`, the same each time for the same `self`.
    fn get(&self) -> (r: InterruptFlags)
        ensures
            r == self.flags(),
    ;
}

impl GetInterruptFlags for InterruptFlags {
    open spec fn flags(&self) -> InterruptFlags {
        *self
    }

    fn get(&self) -> (r: InterruptFlags) {
        *self
    }
}

/// Interrupt flags fixed at compile time, as their bits; unknown bits are
/// dropped.
#[derive(Clone, Copy, Debug)]
pub struct ConstInterruptFlags<const FLAGS: u32>;

impl<const FLAGS: u32> GetInterruptFlags for ConstInterruptFlags<FLAGS> {
    closed spec fn flags(&self) -> InterruptFlags {
        InterruptFlags(FLAGS & SPIN_LOCK_FLAGS_ALL)
    }

    fn get(&self) -> (r: InterruptFlags) {
        InterruptFlags::from_bits_truncate(FLAGS)
    }
}

impl<const FLAGS: u32> ConstInterruptFlags<FLAGS> {
    /// The flags these compile-time flags stand for: the known bits of `FLAGS`.
    pub proof fn lemma_flags(self)
        ensures
            self.flags().spec_bits() == FLAGS & SPIN_LOCK_FLAGS_ALL,
    {
    }
}

/// An interrupt state saved by the kernel when it disabled the interrupts of
/// `flags`; restoring it must pass the same flags.
pub struct InterruptState<F: GetInterruptFlags> {
    state: u64,
    flags: F,
}

impl<F: GetInterruptFlags> InterruptState<F> {
    /// The saved state.
    pub closed spec fn saved(&self) -> u64 {
        self.state
    }

    /// The flags the state was saved with.
    pub closed spec fn saved_flags(&self) -> F {
        self.flags
    }

    /// Keeps the `state` the kernel saved when it disabled the interrupts of
    /// `flags` (with the bits `flags.get().as_raw()`).
    pub fn save(flags: F, state: u64) -> (r: InterruptState<F>)
        ensures
            r.saved() == state,
            r.saved_flags() == flags,
    {
        InterruptState { state, flags }
    }

    /// What the kernel must restore: the saved state, and the bits of the
    /// flags it was saved with.
    pub fn restore(self) -> (r: (u64, u32))
        ensures
            r.0 == self.saved(),
            r.1 == self.saved_flags().flags().spec_bits(),
    {
        let raw = self.flags.get().as_raw();
        (self.state, raw)
    }
}

/// Restoring a saved interrupt state hands the kernel back exactly the state
/// it saved, with the bits of the flags it was saved with.
pub proof fn lemma_restore_matches_save<F: GetInterruptFlags>(flags: F, state: u64, s: InterruptState<F>, restored: (u64, u32))
    requires
        s.saved() == state && s.saved_flags() == flags,
        restored.0 == s.saved(),
        restored.1 == s.saved_flags().flags().spec_bits(),
    ensures
        restored == (state, flags.flags().spec_bits()),
{
}

/// On a platform without FIQs no combination is ever refused; on one with
/// FIQs, none is refused while FIQs are enabled and no FIQ flag is requested.
pub proof fn lemma_no_fiq_no_risk(bits: u32, irqs_disabled: bool)
    ensures
        !deadlock_risk(bits, irqs_disabled, None),
        bits & SPIN_LOCK_FLAG_FIQ == 0 ==> !deadlock_risk(bits, irqs_disabled, Some(false)),
{
    assert(bits & 0x8000_0000u32 == 0 ==> bits & 0xc000_0000u32 != 0x8000_0000u32) by (bit_vector);
}

/// Requesting both IRQs and FIQs, or neither, is never refused.
pub proof fn lemma_both_or_neither_no_risk(bits: u32, irqs_disabled: bool, fiqs_disabled: Option<bool>)
    requires
        bits & SPIN_LOCK_FLAG_IRQ_FIQ == SPIN_LOCK_FLAG_IRQ_FIQ || bits & SPIN_LOCK_FLAG_IRQ_FIQ == 0,
    ensures
        !deadlock_risk(bits, irqs_disabled, fiqs_disabled),
{
}

} // verus!
