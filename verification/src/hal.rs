//! The decisions of the driver's hardware abstraction layer: DMA buffer sizes
//! and checks, the table of mapped PCI BARs, and the table of buffers shared
//! for DMA.
use vstd::prelude::*;

use std::collections::BTreeMap;

use crate::arith::div_ceil;
use crate::err::Error;
use crate::lk_error::LkError;

verus! {

/// The page size the virtio driver requires (`virtio_drivers::PAGE_SIZE`).
pub const PAGE_SIZE: usize = 4096;

/// `log2(PAGE_SIZE)`: the alignment of DMA allocations.
pub const PAGE_SIZE_SHIFT: u8 = 12;

/// The number of base address registers of a PCI device.
pub const NUM_BARS: usize = 6;

/// The number of bytes in `pages` pages.
pub fn pages_to_bytes(pages: usize) -> (r: usize)
    requires
        pages * PAGE_SIZE <= usize::MAX,
    ensures
        r == pages * PAGE_SIZE,
{
    pages * PAGE_SIZE
}

/// The number of pages needed to hold `size` bytes.
pub fn to_pages(size: usize) -> (r: usize)
    ensures
        r * PAGE_SIZE >= size,
        (r - 1) * PAGE_SIZE < size,
{
    div_ceil(size, PAGE_SIZE)
}

/// Why a DMA allocation is unusable.
#[derive(Clone, Copy, Debug, PartialEq, Eq, Structural)]
pub enum DmaAllocFailure {
    /// The kernel could not allocate: its status.
    AllocFailed(i32),
    /// The allocation is not page aligned: its address.
    Unaligned(usize),
}

/// Checks a DMA allocation, given the status of the kernel's
/// `vmm_alloc_contiguous` and the address it returned: the allocation must
/// have succeeded and be page aligned.
pub fn check_dma_allocation(status: i32, vaddr: usize) -> (r: Result<(), DmaAllocFailure>)
    ensures
        status != 0 ==> r == Err::<(), DmaAllocFailure>(DmaAllocFailure::AllocFailed(status)),
        status == 0 && vaddr % PAGE_SIZE != 0 ==> r == Err::<(), DmaAllocFailure>(
            DmaAllocFailure::Unaligned(vaddr),
        ),
        status == 0 && vaddr % PAGE_SIZE == 0 ==> r is Ok,
{
    if status != 0 {
        return Err(DmaAllocFailure::AllocFailed(status));
    }
    assert(vaddr & 4095usize == vaddr % 4096) by (bit_vector);
    if vaddr & (PAGE_SIZE - 1) != 0 {
        return Err(DmaAllocFailure::Unaligned(vaddr));
    }
    Ok(())
}

/// `size` rounded up to a whole number of pages.
pub fn align_to_page(size: usize) -> (r: usize)
    requires
        size + (PAGE_SIZE - 1) <= usize::MAX,
    ensures
        r % PAGE_SIZE == 0,
        size <= r < size + PAGE_SIZE,
{
    let r = (size + (PAGE_SIZE - 1)) & !(PAGE_SIZE - 1);
    let a = size + 4095;
    assert(a & !4095usize == a - a % 4096 && a % 4096 < 4096) by (bit_vector);
    assert((a - a % 4096) % 4096 == 0) by (nonlinear_arith)
        requires
            a >= 0,
    {
        vstd::arithmetic::div_mod::lemma_fundamental_div_mod(a as int, 4096);
        vstd::arithmetic::div_mod::lemma_mod_multiples_basic(a as int / 4096, 4096);
    }
    r
}

/// The outcome of guarding a BAR for MMIO: a hypervisor without MMIO guard
/// support, and a BAR the guard does not accept, need no guard.
pub fn bar_mmio_guard_outcome(r: Result<(), LkError>) -> (out: Result<(), Error>)
    ensures
        r is Ok || r == Err::<(), LkError>(LkError::ERR_NOT_SUPPORTED) || r == Err::<(), LkError>(
            LkError::ERR_INVALID_ARGS,
        ) ==> out is Ok,
        r matches Err(e) ==> (e != LkError::ERR_NOT_SUPPORTED && e != LkError::ERR_INVALID_ARGS
            ==> out == Err::<(), Error>(Error::Lk(e))),
{
    match r {
        Ok(()) => Ok(()),
        Err(LkError::ERR_NOT_SUPPORTED) => Ok(()),
        Err(LkError::ERR_INVALID_ARGS) => Ok(()),
        Err(e) => Err(Error::Lk(e)),
    }
}

/// A BAR mapped into virtual memory.
#[derive(Clone, Copy, Debug, PartialEq, Eq, Structural)]
pub struct BarInfo {
    pub paddr: usize,
    pub size: usize,
    pub vaddr: usize,
}

impl BarInfo {
    /// Both the physical and the virtual range of the BAR fit in `usize`.
    pub open spec fn wf(self) -> bool {
        self.paddr + self.size <= usize::MAX && self.vaddr + self.size <= usize::MAX
    }

    /// Whether `paddr` lies in the BAR's physical range.
    pub open spec fn contains(self, paddr: int) -> bool {
        self.paddr <= paddr < self.paddr + self.size
    }
}

/// Where `[paddr, paddr + size)` lies in virtual memory, by the first of
/// `bars` whose physical range holds `paddr`: `None` when no BAR holds
/// `paddr`, or when the range runs past the end of that BAR.
pub open spec fn bar_lookup(bars: Seq<Option<BarInfo>>, paddr: int, size: int) -> Option<int>
    decreases bars.len(),
{
    if bars.len() == 0 {
        None
    } else {
        match bars[0] {
            Some(b) => if b.contains(paddr) {
                if paddr + size > b.paddr + b.size {
                    None
                } else {
                    Some(b.vaddr + (paddr - b.paddr))
                }
            } else {
                bar_lookup(bars.drop_first(), paddr, size)
            },
            None => bar_lookup(bars.drop_first(), paddr, size),
        }
    }
}

/// The virtual address found for a physical range lies in a mapped BAR that
/// holds the whole range, at the range's offset in that BAR; nothing is found
/// when no mapped BAR holds the range's start.
pub proof fn lemma_bar_lookup_in_bar(bars: Seq<Option<BarInfo>>, paddr: int, size: int)
    requires
        size >= 0,
    ensures
        bar_lookup(bars, paddr, size) matches Some(v) ==> exists|i: int|
            0 <= i < bars.len() && (#[trigger] bars[i]) is Some && bars[i]->Some_0.paddr <= paddr
                && paddr + size <= bars[i]->Some_0.paddr + bars[i]->Some_0.size && v
                == bars[i]->Some_0.vaddr + (paddr - bars[i]->Some_0.paddr),
        (forall|i: int| 0 <= i < bars.len() && (#[trigger] bars[i]) is Some ==> !bars[i]->Some_0.contains(paddr))
            ==> bar_lookup(bars, paddr, size) is None,
    decreases bars.len(),
{
    if bars.len() > 0 {
        let rest = bars.drop_first();
        lemma_bar_lookup_in_bar(rest, paddr, size);
        if bar_lookup(bars, paddr, size) is Some && bar_lookup(bars, paddr, size) == bar_lookup(rest, paddr, size) {
            let v = bar_lookup(rest, paddr, size)->Some_0;
            let j = choose|j: int|
                0 <= j < rest.len() && (#[trigger] rest[j]) is Some && rest[j]->Some_0.paddr <= paddr
                    && paddr + size <= rest[j]->Some_0.paddr + rest[j]->Some_0.size && v
                    == rest[j]->Some_0.vaddr + (paddr - rest[j]->Some_0.paddr);
            assert(bars[j + 1] == rest[j]);
        }
        if forall|i: int| 0 <= i < bars.len() && (#[trigger] bars[i]) is Some ==> !bars[i]->Some_0.contains(paddr) {
            assert forall|i: int| 0 <= i < rest.len() && (#[trigger] rest[i]) is Some implies !rest[i]->Some_0.contains(paddr) by {
                assert(rest[i] == bars[i + 1]);
            }
        }
        if bar_lookup(bars, paddr, size) is Some && bar_lookup(bars, paddr, size) != bar_lookup(rest, paddr, size) {
            assert(bars[0] is Some);
        }
    }
}

/// The BARs mapped for MMIO, by BAR number.
pub struct BarTable {
    bars: Vec<Option<BarInfo>>,
}

impl View for BarTable {
    type V = Seq<Option<BarInfo>>;

    closed spec fn view(&self) -> Seq<Option<BarInfo>> {
        self.bars@
    }
}

impl BarTable {
    /// One entry per BAR, each BAR's ranges fitting in `usize`.
    pub open spec fn wf(&self) -> bool {
        &&& self@.len() == NUM_BARS
        &&& forall|i: int| 0 <= i < NUM_BARS ==> (#[trigger] self@[i] matches Some(b) ==> b.wf())
    }

    /// A table with no BAR mapped.
    pub fn new() -> (r: BarTable)
        ensures
            r.wf(),
            r@ == Seq::new(NUM_BARS as nat, |i: int| None::<BarInfo>),
    {
        let mut bars: Vec<Option<BarInfo>> = Vec::new();
        while bars.len() < NUM_BARS
            invariant
                bars.len() <= NUM_BARS,
                forall|i: int| 0 <= i < bars.len() ==> bars@[i] is None,
            decreases NUM_BARS - bars.len(),
        {
            bars.push(None);
        }
        assert(bars@ == Seq::new(NUM_BARS as nat, |i: int| None::<BarInfo>));
        BarTable { bars }
    }

    /// Records that BAR `bar` is mapped as `info`.
    pub fn record(&mut self, bar: usize, info: BarInfo)
        requires
            old(self).wf(),
            bar < NUM_BARS,
            info.wf(),
        ensures
            final(self).wf(),
            final(self)@ == old(self)@.update(bar as int, Some(info)),
    {
        self.bars.set(bar, Some(info));
    }

    /// The virtual address of the MMIO range `[paddr, paddr + size)`, found in
    /// the first mapped BAR that holds `paddr`; `None` when no BAR holds it or
    /// the range runs past the end of that BAR.
    pub fn mmio_phys_to_virt(&self, paddr: usize, size: usize) -> (r: Option<usize>)
        requires
            self.wf(),
        ensures
            r matches Some(v) ==> bar_lookup(self@, paddr as int, size as int) == Some(v as int),
            r is None ==> bar_lookup(self@, paddr as int, size as int) is None,
    {
        let mut i: usize = 0;
        assert(self@.subrange(0, self@.len() as int) == self@);
        while i < self.bars.len()
            invariant
                self.wf(),
                i <= self.bars.len(),
                bar_lookup(self@, paddr as int, size as int) == bar_lookup(
                    self@.subrange(i as int, self@.len() as int),
                    paddr as int,
                    size as int,
                ),
            decreases self.bars.len() - i,
        {
            let ghost rest = self@.subrange(i as int, self@.len() as int);
            assert(rest.drop_first() == self@.subrange(i + 1, self@.len() as int));
            assert(rest[0] == self@[i as int]);
            match self.bars[i] {
                Some(b) => {
                    let end = b.paddr + b.size;
                    if b.paddr <= paddr && paddr < end {
                        if size > end - paddr {
                            return None;
                        }
                        return Some(b.vaddr + (paddr - b.paddr));
                    }
                },
                None => {},
            }
            i = i + 1;
        }
        assert(self@.subrange(i as int, self@.len() as int).len() == 0);
        None
    }
}

/// The direction of a buffer shared for DMA.
#[derive(Clone, Copy, Debug, PartialEq, Eq, Structural)]
pub enum BufferDirection {
    /// Read by the device only.
    DriverToDevice,
    /// Written by the device only.
    DeviceToDriver,
    /// Read and written by the device.
    Both,
}

/// Whether sharing a buffer copies its bytes to the DMA pages: unless the
/// device only writes it.
pub fn copies_to_device(direction: BufferDirection) -> (r: bool)
    ensures
        r == (direction != BufferDirection::DeviceToDriver),
{
    direction != BufferDirection::DeviceToDriver
}

/// Whether unsharing a buffer copies the DMA pages back into it: unless the
/// device only reads it.
pub fn copies_from_device(direction: BufferDirection) -> (r: bool)
    ensures
        r == (direction != BufferDirection::DriverToDevice),
{
    direction != BufferDirection::DriverToDevice
}

/// The DMA pages after sharing `buffer` through them: the buffer's bytes at
/// their start, unless the device only writes it.
pub open spec fn pages_after_share(direction: BufferDirection, buffer: Seq<u8>, pages: Seq<u8>) -> Seq<u8> {
    if direction != BufferDirection::DeviceToDriver {
        buffer + pages.subrange(buffer.len() as int, pages.len() as int)
    } else {
        pages
    }
}

/// The buffer after unsharing it from the DMA pages: the pages' first bytes,
/// unless the device only reads it.
pub open spec fn buffer_after_unshare(direction: BufferDirection, pages: Seq<u8>, buffer: Seq<u8>) -> Seq<u8> {
    if direction != BufferDirection::DriverToDevice {
        pages.subrange(0, buffer.len() as int)
    } else {
        buffer
    }
}

/// Copies a buffer being shared into the DMA pages that stand in for it,
/// unless the device only writes it.
pub fn share_copy(direction: BufferDirection, buffer: &[u8], pages: &mut [u8])
    requires
        buffer@.len() <= old(pages)@.len(),
    ensures
        final(pages)@ == pages_after_share(direction, buffer@, old(pages)@),
{
    if !copies_to_device(direction) {
        return;
    }
    let n = buffer.len();
    let mut i: usize = 0;
    while i < n
        invariant
            n == buffer@.len(),
            i <= n,
            n <= pages@.len(),
            pages@.len() == old(pages)@.len(),
            forall|k: int| 0 <= k < i ==> pages@[k] == buffer@[k],
            forall|k: int| i <= k < pages@.len() ==> pages@[k] == old(pages)@[k],
        decreases n - i,
    {
        pages[i] = buffer[i];
        i = i + 1;
    }
    assert(pages@ =~= pages_after_share(direction, buffer@, old(pages)@));
}

/// Copies the DMA pages back into a buffer being unshared, unless the device
/// only reads it.
pub fn unshare_copy(direction: BufferDirection, pages: &[u8], buffer: &mut [u8])
    requires
        old(buffer)@.len() <= pages@.len(),
    ensures
        final(buffer)@ == buffer_after_unshare(direction, pages@, old(buffer)@),
{
    if !copies_from_device(direction) {
        return;
    }
    let n = buffer.len();
    let mut i: usize = 0;
    while i < n
        invariant
            n == buffer@.len(),
            n == old(buffer)@.len(),
            i <= n,
            n <= pages@.len(),
            forall|k: int| 0 <= k < i ==> buffer@[k] == pages@[k],
        decreases n - i,
    {
        buffer[i] = pages[i];
        i = i + 1;
    }
    assert(buffer@ =~= buffer_after_unshare(direction, pages@, old(buffer)@));
}

/// Sharing a buffer and unsharing it with no write by the device in between
/// leaves it as it was, unless the device only writes it; then, and whenever
/// the device wrote the pages, the buffer holds the pages' first bytes.
pub proof fn lemma_share_copy_round_trip(direction: BufferDirection, buffer: Seq<u8>, pages: Seq<u8>)
    requires
        buffer.len() <= pages.len(),
    ensures
        pages_after_share(direction, buffer, pages).len() == pages.len(),
        direction != BufferDirection::DeviceToDriver ==> buffer_after_unshare(
            direction,
            pages_after_share(direction, buffer, pages),
            buffer,
        ) == buffer,
{
    let shared = pages_after_share(direction, buffer, pages);
    if direction != BufferDirection::DeviceToDriver {
        assert(shared.subrange(0, buffer.len() as int) =~= buffer);
    }
}

/// The DMA pages that stand in for shared buffers: the virtual address of
/// the pages at each physical address.
pub struct DmaShareTable {
    vaddrs: BTreeMap<usize, usize>,
}

impl View for DmaShareTable {
    type V = Map<usize, usize>;

    closed spec fn view(&self) -> Map<usize, usize> {
        self.vaddrs@
    }
}

impl DmaShareTable {
    /// A table with no shared buffer.
    pub fn new() -> (r: DmaShareTable)
        ensures
            r@ == Map::<usize, usize>::empty(),
    {
        DmaShareTable { vaddrs: BTreeMap::new() }
    }

    /// Records that the DMA pages at `paddr` lie at `vaddr`. A physical address
    /// that was already recorded is a fatal error: the address it was recorded
    /// with is returned and the table is unchanged.
    pub fn insert(&mut self, paddr: usize, vaddr: usize) -> (r: Result<(), usize>)
        ensures
            !old(self)@.contains_key(paddr) ==> r is Ok && final(self)@ == old(self)@.insert(paddr, vaddr),
            old(self)@.contains_key(paddr) ==> r == Err::<(), usize>(old(self)@[paddr])
                && final(self)@ == old(self)@,
    {
        broadcast use vstd::std_specs::btree::group_btree_axioms;
        broadcast use vstd::laws_cmp::group_laws_cmp;
        assert(vstd::laws_cmp::obeys_cmp::<usize>());
        if self.vaddrs.contains_key(&paddr) {
            let old_vaddr = *self.vaddrs.get(&paddr).unwrap();
            return Err(old_vaddr);
        }
        self.vaddrs.insert(paddr, vaddr);
        Ok(())
    }

    /// Takes out the DMA pages recorded at `paddr`: their virtual address, or
    /// `None` when `paddr` was never shared (a fatal error for the caller).
    pub fn remove(&mut self, paddr: usize) -> (r: Option<usize>)
        ensures
            old(self)@.contains_key(paddr) ==> r == Some(old(self)@[paddr]),
            !old(self)@.contains_key(paddr) ==> r is None,
            final(self)@ == old(self)@.remove(paddr),
    {
        broadcast use vstd::std_specs::btree::group_btree_axioms;
        broadcast use vstd::laws_cmp::group_laws_cmp;
        assert(vstd::laws_cmp::obeys_cmp::<usize>());
        self.vaddrs.remove(&paddr)
    }
}

/// A buffer shared at a physical address is found again at that address when
/// it is unshared, and the table is as it was before the share.
pub proof fn lemma_share_then_unshare(before: Map<usize, usize>, paddr: usize, vaddr: usize)
    requires
        !before.contains_key(paddr),
    ensures
        before.insert(paddr, vaddr).contains_key(paddr),
        before.insert(paddr, vaddr)[paddr] == vaddr,
        before.insert(paddr, vaddr).remove(paddr) == before,
{
    assert(before.insert(paddr, vaddr).remove(paddr) =~= before);
}

} // verus!

verus! {

/// The state of the driver's hardware abstraction layer: the BARs mapped for
/// MMIO, and the DMA pages standing in for shared buffers.
pub struct TrustyHal {
    bars: BarTable,
    vaddrs: DmaShareTable,
}

impl TrustyHal {
    /// The mapped BARs.
    pub closed spec fn bars(&self) -> Seq<Option<BarInfo>> {
        self.bars@
    }

    /// The shared buffers' DMA pages, by physical address.
    pub closed spec fn shared(&self) -> Map<usize, usize> {
        self.vaddrs@
    }

    /// The layer's tables are well formed.
    pub closed spec fn wf(&self) -> bool {
        self.bars.wf()
    }

    /// A layer with no BAR mapped and no buffer shared.
    pub fn new() -> (r: TrustyHal)
        ensures
            r.wf(),
            r.bars() == Seq::new(NUM_BARS as nat, |i: int| None::<BarInfo>),
            r.shared() == Map::<usize, usize>::empty(),
    {
        TrustyHal { bars: BarTable::new(), vaddrs: DmaShareTable::new() }
    }

    /// Completes mapping BAR `bar`, whose `size` bytes (already rounded up to
    /// whole pages) at `paddr` the kernel mapped at `vaddr`, given the outcome
    /// of guarding it for MMIO. A guard error other than "not supported" or
    /// "invalid arguments" fails the mapping; otherwise the BAR is recorded.
    pub fn mmio_alloc(&mut self, bar: usize, paddr: usize, size: usize, vaddr: usize, guard: Result<(), LkError>) -> (r: Result<(), Error>)
        requires
            old(self).wf(),
            bar < NUM_BARS,
            paddr + size <= usize::MAX,
            vaddr + size <= usize::MAX,
        ensures
            final(self).wf(),
            final(self).shared() == old(self).shared(),
            guard is Ok || guard == Err::<(), LkError>(LkError::ERR_NOT_SUPPORTED) || guard == Err::<(), LkError>(
                LkError::ERR_INVALID_ARGS,
            ) ==> r is Ok && final(self).bars() == old(self).bars().update(
                bar as int,
                Some(BarInfo { paddr, size, vaddr }),
            ),
            guard matches Err(e) ==> (e != LkError::ERR_NOT_SUPPORTED && e != LkError::ERR_INVALID_ARGS
                ==> r == Err::<(), Error>(Error::Lk(e)) && final(self).bars() == old(self).bars()),
    {
        match bar_mmio_guard_outcome(guard) {
            Ok(()) => {
                self.bars.record(bar, BarInfo { paddr, size, vaddr });
                Ok(())
            },
            Err(e) => Err(e),
        }
    }

    /// The virtual address of the MMIO range `[paddr, paddr + size)` of a
    /// mapped BAR; `None` (a fatal error for the caller) when no BAR holds
    /// `paddr` or the range runs past the end of the BAR that does.
    pub fn mmio_phys_to_virt(&self, paddr: usize, size: usize) -> (r: Option<usize>)
        requires
            self.wf(),
        ensures
            r matches Some(v) ==> bar_lookup(self.bars(), paddr as int, size as int) == Some(v as int),
            r is None ==> bar_lookup(self.bars(), paddr as int, size as int) is None,
    {
        self.bars.mmio_phys_to_virt(paddr, size)
    }

    /// Records the DMA pages at `paddr`, mapped at `vaddr`, that stand in for a
    /// buffer being shared; a physical address shared twice is refused with
    /// the address it was first recorded with.
    pub fn share(&mut self, paddr: usize, vaddr: usize) -> (r: Result<(), usize>)
        requires
            old(self).wf(),
        ensures
            final(self).wf(),
            final(self).bars() == old(self).bars(),
            !old(self).shared().contains_key(paddr) ==> r is Ok && final(self).shared() == old(
                self,
            ).shared().insert(paddr, vaddr),
            old(self).shared().contains_key(paddr) ==> r == Err::<(), usize>(old(self).shared()[paddr])
                && final(self).shared() == old(self).shared(),
    {
        self.vaddrs.insert(paddr, vaddr)
    }

    /// Takes out the DMA pages shared at `paddr` when their buffer is
    /// unshared: their virtual address, or `None` when `paddr` was never
    /// shared (a fatal error for the caller).
    pub fn unshare(&mut self, paddr: usize) -> (r: Option<usize>)
        requires
            old(self).wf(),
        ensures
            final(self).wf(),
            final(self).bars() == old(self).bars(),
            old(self).shared().contains_key(paddr) ==> r == Some(old(self).shared()[paddr]),
            !old(self).shared().contains_key(paddr) ==> r is None,
            final(self).shared() == old(self).shared().remove(paddr),
    {
        self.vaddrs.remove(paddr)
    }

    /// The size in bytes of a DMA allocation of `pages` pages.
    pub fn dma_alloc_size(pages: usize) -> (r: usize)
        requires
            pages * PAGE_SIZE <= usize::MAX,
        ensures
            r == pages * PAGE_SIZE,
    {
        pages_to_bytes(pages)
    }
}

} // verus!
