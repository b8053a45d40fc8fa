//! Memory heaps: which of them stands for the device's own memory, and how
//! much of it is in use.

use ash::vk;
use vstd::prelude::*;

verus! {

/// One memory heap as the driver reports it: its size in bytes, its raw flag
/// bits, and the budget in bytes that the driver grants on it.
#[derive(Debug, Clone, Copy, PartialEq, Eq)]
pub struct MemoryHeap {
    pub size: u64,
    pub flags: u32,
    pub budget: u64,
}

/// Whether raw heap flags mark a heap as device-local: the lowest bit is set.
pub open spec fn is_device_local(flags: u32) -> bool {
    flags & 0x1 == 0x1
}

/// `ash::vk::MemoryHeapFlags::contains`, asked for `DEVICE_LOCAL`: true when
/// every bit of that flag, which is the lowest bit alone, is set in `flags`.
#[verifier::external_body]
fn heap_flags_device_local(flags: u32) -> (local: bool)
    ensures
        local == is_device_local(flags),
{
    vk::MemoryHeapFlags::from_raw(flags).contains(vk::MemoryHeapFlags::DEVICE_LOCAL)
}

impl MemoryHeap {
    /// Whether the heap resides in memory attached to the device.
    pub fn device_local(&self) -> (local: bool)
        ensures
            local == is_device_local(self.flags),
    {
        heap_flags_device_local(self.flags)
    }
}

/// Whether `index` is the lowest index of a device-local heap.
pub open spec fn is_first_device_local(heaps: Seq<MemoryHeap>, index: int) -> bool {
    &&& 0 <= index < heaps.len()
    &&& is_device_local(heaps[index].flags)
    &&& forall|j: int| 0 <= j < index ==> !is_device_local(#[trigger] heaps[j].flags)
}

/// The index of the heap that counts as video memory: the lowest index of a
/// device-local heap, and 0 where no heap is device-local.
pub open spec fn vram_heap_index(heaps: Seq<MemoryHeap>) -> int {
    if exists|i: int| is_first_device_local(heaps, i) {
        choose|i: int| is_first_device_local(heaps, i)
    } else {
        0
    }
}

/// The heap that counts as video memory. Where the driver reports no heap at
/// all, it is a heap of no bytes and no budget.
pub open spec fn vram_heap(heaps: Seq<MemoryHeap>) -> MemoryHeap {
    if vram_heap_index(heaps) < heaps.len() {
        heaps[vram_heap_index(heaps)]
    } else {
        MemoryHeap { size: 0, flags: 0, budget: 0 }
    }
}

/// Selects the heap that counts as video memory, by index.
pub fn select_vram_heap(heaps: &Vec<MemoryHeap>) -> (index: usize)
    ensures
        index == vram_heap_index(heaps@),
        is_first_device_local(heaps@, index as int) || (index == 0 && forall|j: int|
            0 <= j < heaps.len() ==> !is_device_local(#[trigger] heaps[j].flags)),
{
    let mut i: usize = 0;
    while i < heaps.len()
        invariant
            i <= heaps.len(),
            forall|j: int| 0 <= j < i ==> !is_device_local(#[trigger] heaps[j].flags),
        decreases heaps.len() - i,
    {
        if heaps[i].device_local() {
            assert(is_first_device_local(heaps@, i as int));
            proof {
                lemma_first_device_local_is_unique(heaps@, i as int, vram_heap_index(heaps@));
            }
            return i;
        }
        i += 1;
    }
    assert(forall|k: int| !is_first_device_local(heaps@, k));
    0
}

/// At most one index is the lowest index of a device-local heap.
pub proof fn lemma_first_device_local_is_unique(heaps: Seq<MemoryHeap>, a: int, b: int)
    requires
        is_first_device_local(heaps, a),
        is_first_device_local(heaps, b),
    ensures
        a == b,
{
    if a < b {
        assert(!is_device_local(heaps[a].flags));
    } else if b < a {
        assert(!is_device_local(heaps[b].flags));
    }
}

/// The heap that counts as video memory is the first device-local one where
/// there is one, and the heap at index 0 where there is none.
pub proof fn lemma_vram_heap_is_first_device_local_or_first(heaps: Seq<MemoryHeap>)
    ensures
        (exists|i: int| 0 <= i < heaps.len() && is_device_local(#[trigger] heaps[i].flags))
            ==> is_first_device_local(heaps, vram_heap_index(heaps)),
        (forall|i: int| 0 <= i < heaps.len() ==> !is_device_local(#[trigger] heaps[i].flags))
            ==> vram_heap_index(heaps) == 0,
{
    if exists|i: int| 0 <= i < heaps.len() && is_device_local(#[trigger] heaps[i].flags) {
        let some = choose|i: int| 0 <= i < heaps.len() && is_device_local(#[trigger] heaps[i].flags);
        lemma_first_device_local_exists(heaps, some);
    }
}

/// Below every device-local heap, or at it, lies a first one.
proof fn lemma_first_device_local_exists(heaps: Seq<MemoryHeap>, at: int)
    requires
        0 <= at < heaps.len(),
        is_device_local(heaps[at].flags),
    ensures
        exists|i: int| is_first_device_local(heaps, i),
    decreases at,
{
    if exists|j: int| 0 <= j < at && is_device_local(#[trigger] heaps[j].flags) {
        let lower = choose|j: int| 0 <= j < at && is_device_local(#[trigger] heaps[j].flags);
        lemma_first_device_local_exists(heaps, lower);
    } else {
        assert(is_first_device_local(heaps, at));
    }
}

/// Reads the selected heap out of the report, as `vram_heap` describes it.
pub fn vram_heap_of(heaps: &Vec<MemoryHeap>) -> (heap: MemoryHeap)
    ensures
        heap == vram_heap(heaps@),
{
    let index = select_vram_heap(heaps);
    if index < heaps.len() {
        heaps[index]
    } else {
        MemoryHeap { size: 0, flags: 0, budget: 0 }
    }
}

/// How much of a heap is in use. The fraction `used / total` stands for a
/// number between 0 and 1; `Unreported` stands for the case that the driver
/// gave no budget, where no such number exists.
#[derive(Debug, Clone, Copy, PartialEq, Eq)]
pub enum MemoryPressure {
    Unreported,
    Fraction { used: u64, total: u64 },
}

impl MemoryPressure {
    /// Whether the pressure, where it is a number, lies between 0 and 1 and
    /// has a denominator other than zero.
    pub open spec fn within_unit_interval(self) -> bool {
        match self {
            MemoryPressure::Unreported => true,
            MemoryPressure::Fraction { used, total } => used <= total && total > 0,
        }
    }

    /// The pressure on a heap of `heap_size` bytes of which `heap_budget` are
    /// still granted: the part of the heap that is not budget, over the heap;
    /// unreported where the budget is zero.
    pub open spec fn of(heap_size: u64, heap_budget: u64) -> MemoryPressure {
        if heap_budget == 0 {
            MemoryPressure::Unreported
        } else {
            MemoryPressure::Fraction { used: (heap_size - heap_budget) as u64, total: heap_size }
        }
    }
}

/// The pressure is unreported exactly where the budget is zero. Otherwise,
/// on a heap whose budget does not exceed its size, it is the part of the
/// heap outside the budget over the whole heap, a number between 0 and 1.
pub proof fn lemma_pressure_is_unreported_or_a_fraction(heap_size: u64, heap_budget: u64)
    ensures
        MemoryPressure::of(heap_size, heap_budget) is Unreported <==> heap_budget == 0,
        0 < heap_budget <= heap_size ==> MemoryPressure::of(heap_size, heap_budget) == (
        MemoryPressure::Fraction { used: (heap_size - heap_budget) as u64, total: heap_size })
            && MemoryPressure::of(heap_size, heap_budget).within_unit_interval(),
{
}

/// Computes the pressure on a heap from its size and its budget.
pub fn memory_pressure(heap_size: u64, heap_budget: u64) -> (pressure: MemoryPressure)
    requires
        heap_budget <= heap_size,
    ensures
        pressure == MemoryPressure::of(heap_size, heap_budget),
        pressure is Unreported <==> heap_budget == 0,
        pressure matches MemoryPressure::Fraction { used, total } ==> used + heap_budget
            == heap_size && total == heap_size,
        pressure.within_unit_interval(),
{
    if heap_budget > 0 {
        MemoryPressure::Fraction { used: heap_size - heap_budget, total: heap_size }
    } else {
        MemoryPressure::Unreported
    }
}

} // verus!
