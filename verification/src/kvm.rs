//! Page sharing with a KVM or pKVM hypervisor.
//!
//! The hypercalls themselves are made by the caller; this module decides which
//! pages are shared or unshared, in which order, which pages are handed back on
//! a failure, and what each hypervisor reply means.
use vstd::prelude::*;

use crate::arith::{is_multiple, is_multiple_of, is_pow2, is_power_of_two};

verus! {

/// The pKVM hypercall function number base.
pub const KVM_HC_PKVM_OP: u32 = 20;

/// The hypercall that shares guest memory with the host.
pub const PKVM_GHC_SHARE_MEM: u32 = 21;

/// The hypercall that takes memory back from the host.
pub const PKVM_GHC_UNSHARE_MEM: u32 = 22;

/// KVM's return value for an unsupported call.
pub const KVM_ENOSYS: i64 = -1000;

/// KVM's return value for an invalid parameter.
pub const KVM_EINVAL: i64 = -22;

/// The CPUID leaf that returns the hypervisor signature.
pub const KVM_CPUID_SIGNATURE: u32 = 0x40000000;

/// Error from a KVM hypercall.
#[derive(Clone, Copy, Debug, PartialEq, Eq, Structural)]
pub enum KvmError {
    /// The call is not supported by the implementation.
    NotSupported,
    /// One of the call parameters has a non-supported value.
    InvalidParameter,
    /// There was an unexpected return value.
    Unknown(i64),
}

/// The error a raw KVM return value stands for.
pub open spec fn kvm_error_of(value: i64) -> KvmError {
    if value == KVM_ENOSYS {
        KvmError::NotSupported
    } else if value == KVM_EINVAL {
        KvmError::InvalidParameter
    } else {
        KvmError::Unknown(value)
    }
}

impl From<i64> for KvmError {
    fn from(value: i64) -> (r: KvmError) {
        if value == KVM_ENOSYS {
            KvmError::NotSupported
        } else if value == KVM_EINVAL {
            KvmError::InvalidParameter
        } else {
            KvmError::Unknown(value)
        }
    }
}

impl vstd::std_specs::convert::FromSpecImpl<i64> for KvmError {
    open spec fn obeys_from_spec() -> bool {
        true
    }

    open spec fn from_spec(v: i64) -> KvmError {
        kvm_error_of(v)
    }
}

/// The error a raw KVM return value stands for (`KvmError::from`).
pub fn kvm_error_from(value: i64) -> (r: KvmError)
    ensures
        r == kvm_error_of(value),
{
    KvmError::from(value)
}

/// The outcome of a pKVM memory hypercall from the value it left in `rax`:
/// zero is success; anything else is read as a signed 32-bit KVM error.
pub fn hypercall_result(ret: u32) -> (r: Result<(), KvmError>)
    ensures
        ret == 0 ==> r == Ok::<(), KvmError>(()),
        ret != 0 ==> r == Err::<(), KvmError>(kvm_error_of((ret as i32) as i64)),
{
    if ret != 0 {
        return Err(kvm_error_from((ret as i32) as i64));
    }
    Ok(())
}

/// Whether the little-endian bytes of the CPUID signature register spell `"PKVM"`.
pub open spec fn spells_pkvm(signature: u32) -> bool {
    &&& signature & 0xff == 0x50
    &&& (signature >> 8u32) & 0xff == 0x4b
    &&& (signature >> 16u32) & 0xff == 0x56
    &&& (signature >> 24u32) & 0xff == 0x4d
}

/// Whether the signature returned by `cpuid(KVM_CPUID_SIGNATURE)` names pKVM.
pub fn is_pkvm_signature(signature: u32) -> (r: bool)
    ensures
        r == spells_pkvm(signature),
{
    signature & 0xff == 0x50 && (signature >> 8u32) & 0xff == 0x4b && (signature >> 16u32)
        & 0xff == 0x56 && (signature >> 24u32) & 0xff == 0x4d
}

/// The one signature value that names pKVM is `0x4d564b50`.
pub proof fn lemma_pkvm_signature_value(signature: u32)
    ensures
        spells_pkvm(signature) <==> signature == 0x4d564b50u32,
{
    assert(spells_pkvm(signature) <==> signature == 0x4d564b50u32) by (bit_vector);
}

/// An error returned by the hypervisor backend for a memory-sharing or MMIO
/// guard call.
#[derive(Clone, Copy, Debug, PartialEq, Eq, Structural)]
pub enum HypervisorError {
    /// A KVM hypercall failed; the second field is the hypercall's function id.
    KvmError(KvmError, u32),
    /// Any error of another hypervisor backend.
    Other,
}

/// The memory protection granule reported by the hypervisor, checked.
///
/// `reported` is `None` when there is no memory-sharing hypervisor or when it
/// could not report its granule.
pub fn get_granule(reported: Option<usize>) -> (r: Result<usize, KvmError>)
    ensures
        reported is None ==> r == Err::<usize, KvmError>(KvmError::NotSupported),
        reported matches Some(g) ==> r == (if is_pow2(g as nat) {
            Ok::<usize, KvmError>(g)
        } else {
            Err::<usize, KvmError>(KvmError::InvalidParameter)
        }),
{
    match reported {
        None => Err(KvmError::NotSupported),
        Some(g) => {
            if !is_power_of_two(g) {
                Err(KvmError::InvalidParameter)
            } else {
                Ok(g)
            }
        },
    }
}

/// The abstract state of a walk over the pages of a physical range.
pub struct PageWalkView {
    /// The first page's address.
    pub start: nat,
    /// The page size.
    pub granule: nat,
    /// How many pages the range holds.
    pub count: nat,
    /// How many pages have been handled.
    pub done: nat,
}

impl PageWalkView {
    /// The address of the `k`-th page of the range.
    pub open spec fn page(self, k: nat) -> int {
        (self.start + k * self.granule) as int
    }

    /// The end of the range.
    pub open spec fn end(self) -> int {
        self.page(self.count)
    }
}

/// A walk over the pages of the physical range `[start, start + count * granule)`,
/// in increasing order, one `granule` at a time.
pub struct PageWalk {
    start: usize,
    granule: usize,
    count: usize,
    done: usize,
    next: usize,
}

impl View for PageWalk {
    type V = PageWalkView;

    closed spec fn view(&self) -> PageWalkView {
        PageWalkView {
            start: self.start as nat,
            granule: self.granule as nat,
            count: self.count as nat,
            done: self.done as nat,
        }
    }
}

impl PageWalk {
    /// The walk's fields agree with each other and the range fits in `usize`.
    pub closed spec fn wf(&self) -> bool {
        &&& self.granule > 0
        &&& self.done <= self.count
        &&& self.next == self.start + self.done * self.granule
        &&& self.start + self.count * self.granule <= usize::MAX
    }

    proof fn lemma_pages_fit(&self)
        requires
            self.wf(),
        ensures
            forall|k: nat| k <= self.count ==> self.start + #[trigger] (k * self.granule) <= usize::MAX,
    {
        assert forall|k: nat| k <= self.count implies self.start + #[trigger] (k * self.granule)
            <= usize::MAX by {
            vstd::arithmetic::mul::lemma_mul_inequality(k as int, self.count as int, self.granule as int);
        }
    }

    /// A walk over `[paddr, paddr + size)` in steps of `granule`, or
    /// `InvalidParameter` when `paddr` or `size` is not a multiple of `granule`.
    pub fn new(paddr: usize, size: usize, granule: usize) -> (r: Result<PageWalk, KvmError>)
        requires
            granule > 0,
            paddr + size <= usize::MAX,
        ensures
            (is_multiple(paddr as int, granule as int) && is_multiple(size as int, granule as int))
                <==> r is Ok,
            r is Err ==> r == Err::<PageWalk, KvmError>(KvmError::InvalidParameter),
            r matches Ok(w) ==> {
                &&& w.wf()
                &&& w@.start == paddr
                &&& w@.granule == granule
                &&& w@.done == 0
                &&& w@.end() == paddr + size
            },
    {
        if !is_multiple_of(paddr, granule) {
            return Err(KvmError::InvalidParameter);
        }
        if !is_multiple_of(size, granule) {
            return Err(KvmError::InvalidParameter);
        }
        let count = size / granule;
        proof {
            vstd::arithmetic::div_mod::lemma_fundamental_div_mod(size as int, granule as int);
            assert(count * granule == size) by (nonlinear_arith)
                requires
                    size == granule * (size / granule) + size % granule,
                    size % granule == 0,
                    count == size / granule,
            ;
        }
        Ok(PageWalk { start: paddr, granule, count, done: 0, next: paddr })
    }

    /// The next page to handle, or `None` once every page has been handled.
    pub fn next_page(&self) -> (r: Option<usize>)
        requires
            self.wf(),
        ensures
            self@.done < self@.count ==> r == Some(self@.page(self@.done) as usize),
            self@.done >= self@.count ==> r is None,
    {
        if self.done < self.count {
            Some(self.next)
        } else {
            None
        }
    }

    /// Marks the next page as handled.
    pub fn advance(&mut self)
        requires
            old(self).wf(),
            old(self)@.done < old(self)@.count,
        ensures
            final(self).wf(),
            final(self)@ == (PageWalkView { done: old(self)@.done + 1, ..old(self)@ }),
    {
        proof {
            self.lemma_pages_fit();
            let k = (self.done + 1) as nat;
            assert(self.start + k * self.granule <= usize::MAX);
            assert(k * self.granule == self.done * self.granule + self.granule) by (nonlinear_arith)
                requires
                    k == self.done + 1,
            ;
        }
        self.next = self.next + self.granule;
        self.done = self.done + 1;
    }

    /// The walk over the pages this walk has already handled: the pages to give
    /// back when the walk is abandoned part way.
    pub fn handled(&self) -> (r: PageWalk)
        requires
            self.wf(),
        ensures
            r.wf(),
            r@ == (PageWalkView { count: self@.done, done: 0, ..self@ }),
    {
        proof {
            vstd::arithmetic::mul::lemma_mul_inequality(self.done as int, self.count as int, self.granule as int);
        }
        PageWalk { start: self.start, granule: self.granule, count: self.done, done: 0, next: self.start }
    }

    /// Drops the pages of the walk: no page is left to handle.
    fn forget_all(&mut self)
        requires
            old(self).wf(),
            old(self)@.done == 0,
        ensures
            final(self).wf(),
            final(self)@ == (PageWalkView { count: 0, ..old(self)@ }),
    {
        self.count = 0;
    }

    /// Whether every page has been handled.
    pub fn is_finished(&self) -> (r: bool)
        requires
            self.wf(),
        ensures
            r == (self@.done >= self@.count),
    {
        self.done >= self.count
    }
}

/// The abstract state of a page-by-page operation.
pub struct PageRunView {
    /// The walk over the pages to apply the operation to.
    pub walk: PageWalkView,
    /// Whether the pages already handled are to be undone when a page fails.
    pub undo_on_failure: bool,
    /// After a failure: the walk over the pages to undo, and the error.
    pub failure: Option<(PageWalkView, HypervisorError)>,
}

/// What the caller of a page-by-page operation does next.
#[derive(Clone, Copy, Debug, PartialEq, Eq, Structural)]
pub enum PageAction {
    /// Apply the operation (share, map, unshare) to this page, then report the
    /// reply with `PageRun::applied` or `PageRun::failed`.
    Apply(usize),
    /// Undo the operation on this page, whatever the reply, then call
    /// `PageRun::undone`.
    Undo(usize),
    /// Every page was handled: the operation succeeded.
    Finished,
    /// A page failed with this error, and every page handled before it has been
    /// undone where that was asked for.
    Failed(HypervisorError),
}

/// A page-by-page operation on a range: the pages are handled in increasing
/// order; the first failing page stops the walk, and then, where asked, the
/// pages handled before it are undone in the same order before the error is
/// reported.
pub struct PageRun {
    walk: PageWalk,
    undo_on_failure: bool,
    failure: Option<(PageWalk, HypervisorError)>,
}

impl View for PageRun {
    type V = PageRunView;

    closed spec fn view(&self) -> PageRunView {
        PageRunView {
            walk: self.walk@,
            undo_on_failure: self.undo_on_failure,
            failure: match self.failure {
                Some((rb, e)) => Some((rb@, e)),
                None => None,
            },
        }
    }
}

impl PageRunView {
    /// What the caller does next in this state.
    pub open spec fn next_action(self) -> PageAction {
        match self.failure {
            None => if self.walk.done < self.walk.count {
                PageAction::Apply(self.walk.page(self.walk.done) as usize)
            } else {
                PageAction::Finished
            },
            Some((rb, e)) => if rb.done < rb.count {
                PageAction::Undo(rb.page(rb.done) as usize)
            } else {
                PageAction::Failed(e)
            },
        }
    }

    /// The pages to undo are exactly those handled before the failing one, or
    /// none where no undoing was asked for.
    pub open spec fn undoes_handled(self) -> bool {
        self.failure matches Some((rb, e)) ==> {
            &&& rb.start == self.walk.start
            &&& rb.granule == self.walk.granule
            &&& rb.count == (if self.undo_on_failure { self.walk.done } else { 0 })
            &&& self.walk.done < self.walk.count
        }
    }
}

impl PageRun {
    /// The walks agree with each other, and the walk to undo is the part of the
    /// walk handled before the failure.
    pub closed spec fn wf(&self) -> bool {
        &&& self.walk.wf()
        &&& self.failure matches Some((rb, _)) ==> rb.wf()
        &&& self@.undoes_handled()
    }

    /// A run over the pages of `walk`, none handled yet.
    pub fn new(walk: PageWalk, undo_on_failure: bool) -> (r: PageRun)
        requires
            walk.wf(),
        ensures
            r.wf(),
            r@ == (PageRunView { walk: walk@, undo_on_failure, failure: None }),
    {
        PageRun { walk, undo_on_failure, failure: None }
    }

    /// What the caller does next: the next page to handle while no page has
    /// failed, then the next page to undo, and the outcome at the end.
    pub fn next_action(&self) -> (r: PageAction)
        requires
            self.wf(),
        ensures
            r == self@.next_action(),
    {
        match &self.failure {
            None => match self.walk.next_page() {
                Some(page) => PageAction::Apply(page),
                None => PageAction::Finished,
            },
            Some((rb, e)) => match rb.next_page() {
                Some(page) => PageAction::Undo(page),
                None => PageAction::Failed(*e),
            },
        }
    }

    /// The page of `Apply` was handled.
    pub fn applied(&mut self)
        requires
            old(self).wf(),
            old(self)@.next_action() is Apply,
        ensures
            final(self).wf(),
            final(self)@ == (PageRunView {
                walk: PageWalkView { done: old(self)@.walk.done + 1, ..old(self)@.walk },
                ..old(self)@
            }),
    {
        self.walk.advance();
    }

    /// The page of `Apply` failed with `err`: no page is handled after it, and
    /// the pages handled before it are to be undone where that was asked for.
    pub fn failed(&mut self, err: HypervisorError)
        requires
            old(self).wf(),
            old(self)@.next_action() is Apply,
        ensures
            final(self).wf(),
            final(self)@.walk == old(self)@.walk,
            final(self)@.undo_on_failure == old(self)@.undo_on_failure,
            final(self)@.failure == Some((
                PageWalkView {
                    count: if old(self)@.undo_on_failure { old(self)@.walk.done } else { 0 },
                    done: 0,
                    ..old(self)@.walk
                },
                err,
            )),
    {
        let handled = self.walk.handled();
        if self.undo_on_failure {
            self.failure = Some((handled, err));
        } else {
            let mut none = handled;
            none.forget_all();
            self.failure = Some((none, err));
        }
    }

    /// The page of `Undo` was undone.
    pub fn undone(&mut self)
        requires
            old(self).wf(),
            old(self)@.next_action() is Undo,
        ensures
            final(self).wf(),
            final(self)@.walk == old(self)@.walk,
            final(self)@.undo_on_failure == old(self)@.undo_on_failure,
            old(self)@.failure matches Some((rb, e)) && final(self)@.failure == Some((
                PageWalkView { done: rb.done + 1, ..rb },
                e,
            )),
    {
        let mut f = self.failure.take();
        match f {
            Some((ref mut rb, _)) => rb.advance(),
            None => {},
        }
        self.failure = f;
    }
}

/// Once a page has failed, no page is handled any more; every page undone is
/// one that was handled before the failure, taken in the order it was handled;
/// and where undoing was asked for, every such page is undone before the error
/// is reported.
pub proof fn lemma_run_undoes_exactly_handled(r: PageRunView)
    requires
        r.undoes_handled(),
        r.failure is Some,
    ensures
        !(r.next_action() is Apply),
        r.next_action() matches PageAction::Undo(page) ==> {
            let rb = r.failure->Some_0.0;
            &&& rb.done < r.walk.done
            &&& page == r.walk.page(rb.done) as usize
        },
        r.next_action() is Failed ==> r.failure->Some_0.0.done >= (if r.undo_on_failure {
            r.walk.done
        } else {
            0
        }),
{
}

/// The pages of a range, walked from the start, are the ones the range holds:
/// the `k`-th page lies at `start + k * granule`, inside the range, and
/// consecutive pages are one granule apart.
pub proof fn lemma_walk_pages_in_range(w: PageWalkView, k: nat)
    requires
        w.granule > 0,
        k < w.count,
    ensures
        w.start <= w.page(k),
        w.page(k) + w.granule <= w.end(),
        w.page(k + 1) == w.page(k) + w.granule,
{
    assert(k * w.granule + w.granule <= w.count * w.granule) by (nonlinear_arith)
        requires
            k < w.count,
            w.granule > 0,
    ;
    assert((k + 1) * w.granule == k * w.granule + w.granule) by (nonlinear_arith);
    assert(0 <= k * w.granule) by (nonlinear_arith);
}

/// How a failed share hypercall is reported: the KVM error it carries, or
/// `None` for an error of another backend, which the caller treats as fatal.
pub fn share_failure(err: HypervisorError) -> (r: Option<KvmError>)
    ensures
        err matches HypervisorError::KvmError(e, _) ==> r == Some(e),
        err is Other ==> r is None,
{
    match err {
        HypervisorError::KvmError(e, _) => Some(e),
        HypervisorError::Other => None,
    }
}

/// The checks `share_pages` makes before it shares any page: a memory-sharing
/// hypervisor must be present, its granule valid, and the range aligned to it.
/// On success, the walk over the pages to share, in order.
///
/// When a share hypercall then fails, the pages of `PageWalk::handled` are to
/// be unshared and the error of `share_failure` returned.
pub fn share_pages(have_mem_sharer: bool, granule: Result<usize, KvmError>, paddr: usize, size: usize) -> (r: Result<PageWalk, KvmError>)
    requires
        paddr + size <= usize::MAX,
        granule matches Ok(g) ==> is_pow2(g as nat),
    ensures
        !have_mem_sharer ==> r == Err::<PageWalk, KvmError>(KvmError::NotSupported),
        have_mem_sharer && granule is Err ==> r == Err::<PageWalk, KvmError>(granule->Err_0),
        have_mem_sharer ==> (granule matches Ok(g) ==> {
            &&& r is Ok <==> (is_multiple(paddr as int, g as int) && is_multiple(size as int, g as int))
            &&& r is Err ==> r == Err::<PageWalk, KvmError>(KvmError::InvalidParameter)
            &&& r matches Ok(w) ==> w.wf() && w@.start == paddr && w@.granule == g && w@.done == 0
                && w@.end() == paddr + size
        }),
{
    if !have_mem_sharer {
        return Err(KvmError::NotSupported);
    }
    let g = match granule {
        Ok(g) => g,
        Err(e) => return Err(e),
    };
    PageWalk::new(paddr, size, g)
}

/// The checks `unshare_pages` makes before it unshares any page: a
/// memory-sharing hypervisor must be present, its granule a power of two, and
/// the range aligned to it. On success, the walk over the pages to unshare.
pub fn unshare_pages(have_mem_sharer: bool, granule: Result<usize, KvmError>, paddr: usize, size: usize) -> (r: Result<PageWalk, KvmError>)
    requires
        paddr + size <= usize::MAX,
    ensures
        !have_mem_sharer ==> r == Err::<PageWalk, KvmError>(KvmError::NotSupported),
        have_mem_sharer && granule is Err ==> r == Err::<PageWalk, KvmError>(granule->Err_0),
        have_mem_sharer ==> (granule matches Ok(g) ==> {
            &&& r is Ok <==> (is_pow2(g as nat) && is_multiple(paddr as int, g as int) && is_multiple(
                size as int,
                g as int,
            ))
            &&& r is Err ==> r == Err::<PageWalk, KvmError>(KvmError::InvalidParameter)
            &&& r matches Ok(w) ==> w.wf() && w@.start == paddr && w@.granule == g && w@.done == 0
                && w@.end() == paddr + size
        }),
{
    if !have_mem_sharer {
        return Err(KvmError::NotSupported);
    }
    let g = match granule {
        Ok(g) => g,
        Err(e) => return Err(e),
    };
    if !is_power_of_two(g) {
        return Err(KvmError::InvalidParameter);
    }
    PageWalk::new(paddr, size, g)
}

} // verus!
