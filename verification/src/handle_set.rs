//! Kernel handle sets and wait timeouts.
use vstd::prelude::*;

use crate::handle::{HandleRef, HandleRefView};
use crate::lk_error::{error_of_code, LkError, NO_ERROR};

verus! {

/// The kernel's "wait forever" timeout, in milliseconds.
pub const INFINITE_TIME: u32 = 0xffff_ffff;

/// A span of time, as whole seconds and the nanoseconds beyond them
/// (the parts of a `core::time::Duration`).
#[derive(Clone, Copy, Debug, PartialEq, Eq, Structural)]
pub struct WaitTime {
    pub secs: u64,
    pub nanos: u32,
}

impl WaitTime {
    /// The longest span, which stands for "no timeout" (`Duration::MAX`).
    pub fn max() -> (r: WaitTime)
        ensures
            r == (WaitTime { secs: u64::MAX, nanos: 999_999_999 }),
    {
        WaitTime { secs: u64::MAX, nanos: 999_999_999 }
    }

    /// `secs` seconds.
    pub open spec fn from_secs_spec(secs: u64) -> WaitTime {
        WaitTime { secs, nanos: 0 }
    }

    /// `secs` seconds.
    pub fn from_secs(secs: u64) -> (r: WaitTime)
        ensures
            r == WaitTime::from_secs_spec(secs),
    {
        WaitTime { secs, nanos: 0 }
    }

    /// `ms` milliseconds.
    pub fn from_millis(ms: u64) -> (r: WaitTime)
        ensures
            r.secs == ms / 1000,
            r.nanos == (ms % 1000) * 1_000_000,
    {
        WaitTime { secs: ms / 1000, nanos: ((ms % 1000) * 1_000_000) as u32 }
    }

    /// Whether this is the longest span.
    pub open spec fn is_max(self) -> bool {
        self.secs == u64::MAX && self.nanos == 999_999_999
    }

    /// The whole milliseconds in the span (`Duration::as_millis`).
    pub open spec fn millis(self) -> int {
        self.secs * 1000 + self.nanos / 1_000_000
    }
}

/// The kernel timeout in milliseconds for a wait of `dur`: the longest span
/// means "wait forever"; any other span is its whole milliseconds, which must
/// fit in a `u32`.
pub fn duration_as_ms(dur: WaitTime) -> (r: Result<u32, LkError>)
    ensures
        dur.is_max() ==> r == Ok::<u32, LkError>(INFINITE_TIME),
        !dur.is_max() && dur.millis() <= u32::MAX ==> r == Ok::<u32, LkError>(
            dur.millis() as u32,
        ),
        !dur.is_max() && dur.millis() > u32::MAX ==> r == Err::<u32, LkError>(
            LkError::ERR_OUT_OF_RANGE,
        ),
{
    if dur.secs == u64::MAX && dur.nanos == 999_999_999 {
        return Ok(INFINITE_TIME);
    }
    let ms: u128 = dur.secs as u128 * 1000 + (dur.nanos / 1_000_000) as u128;
    if ms <= u32::MAX as u128 {
        Ok(ms as u32)
    } else {
        Err(LkError::ERR_OUT_OF_RANGE)
    }
}

/// A kernel handle set, by the address of its handle.
pub struct HandleSet {
    handle: usize,
}

impl HandleSet {
    /// The set whose handle `handle_set_create` returned; `None` when the
    /// kernel could not create one (a null handle).
    pub fn new(handle: usize) -> (r: Option<HandleSet>)
        ensures
            handle == 0 ==> r is None,
            handle != 0 ==> (r matches Some(s) && s.raw() == handle),
    {
        if handle == 0 {
            None
        } else {
            Some(HandleSet { handle })
        }
    }

    pub closed spec fn raw(&self) -> usize {
        self.handle
    }

    /// The set's kernel handle.
    pub fn as_raw(&self) -> (r: usize)
        ensures
            r == self.raw(),
    {
        self.handle
    }

    /// Completes attaching `href` to the set, given the status of the kernel's
    /// `handle_set_attach`: on success the reference is attached, otherwise it
    /// is unchanged and the status is returned as an error.
    pub fn attach(&self, href: &mut HandleRef, status: i32) -> (r: Result<(), LkError>)
        requires
            !old(href)@.attached,
        ensures
            status == NO_ERROR ==> r is Ok && final(href)@ == (HandleRefView {
                attached: true,
                ..old(href)@
            }),
            status != NO_ERROR ==> r == Err::<(), LkError>(error_of_code(status)) && final(href)@
                == old(href)@,
    {
        match LkError::from_lk(status) {
            Ok(()) => {
                href.mark_attached();
                Ok(())
            },
            Err(e) => Err(e),
        }
    }
}

/// A span made from whole milliseconds holds those milliseconds again.
pub proof fn lemma_from_millis_round_trip(ms: u64)
    ensures
        (WaitTime { secs: ms / 1000, nanos: ((ms % 1000) * 1_000_000) as u32 }).millis() == ms,
{
    let n = (ms % 1000) * 1_000_000;
    assert(n < 1_000_000_000);
    assert((n as u32) == n);
    assert(n / 1_000_000 == ms % 1000) by (nonlinear_arith)
        requires
            n == (ms % 1000) * 1_000_000,
    ;
    vstd::arithmetic::div_mod::lemma_fundamental_div_mod(ms as int, 1000);
}

} // verus!
