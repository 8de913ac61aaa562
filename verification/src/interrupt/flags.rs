//! Compile-time interrupt flags, one per kind of `InterruptFlags`.
use vstd::prelude::*;

use super::{
    ConstInterruptFlags, SPIN_LOCK_FLAGS_ALL, SPIN_LOCK_FLAG_FIQ, SPIN_LOCK_FLAG_INTERRUPTS,
    SPIN_LOCK_FLAG_IRQ, SPIN_LOCK_FLAG_IRQ_FIQ,
};

verus! {

/// No interrupts.
pub type NoInterrupts = ConstInterruptFlags<0>;

pub type Irq = ConstInterruptFlags<SPIN_LOCK_FLAG_IRQ>;

pub type Fiq = ConstInterruptFlags<SPIN_LOCK_FLAG_FIQ>;

pub type IrqFiq = ConstInterruptFlags<SPIN_LOCK_FLAG_IRQ_FIQ>;

pub type Interrupts = ConstInterruptFlags<SPIN_LOCK_FLAG_INTERRUPTS>;

pub type All = ConstInterruptFlags<SPIN_LOCK_FLAGS_ALL>;

pub const NONE: NoInterrupts = ConstInterruptFlags;

pub const IRQ: Irq = ConstInterruptFlags;

pub const FIQ: Fiq = ConstInterruptFlags;

pub const IRQ_FIQ: IrqFiq = ConstInterruptFlags;

pub const INTERRUPTS: Interrupts = ConstInterruptFlags;

pub const ALL: All = ConstInterruptFlags;

} // verus!
