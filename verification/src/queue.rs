//! Queue families and the detection of families that are dedicated to one
//! kind of work.

use ash::vk;
use vstd::prelude::*;

verus! {

/// A kind of work that a queue family may accept.
#[derive(Debug, Clone, Copy, PartialEq, Eq, Structural)]
pub enum QueueCapability {
    Graphics,
    Compute,
    Transfer,
}

impl QueueCapability {
    /// The flag bit by which a queue family advertises the capability.
    pub open spec fn bit(self) -> u32 {
        match self {
            QueueCapability::Graphics => 0x1,
            QueueCapability::Compute => 0x2,
            QueueCapability::Transfer => 0x4,
        }
    }

    /// The raw flag of the capability.
    pub fn flag(self) -> (raw: u32)
        ensures
            raw == self.bit(),
    {
        match self {
            QueueCapability::Graphics => 0x1,
            QueueCapability::Compute => 0x2,
            QueueCapability::Transfer => 0x4,
        }
    }
}

/// Whether raw queue flags hold every bit of `wanted`.
pub open spec fn holds_bits(flags: u32, wanted: u32) -> bool {
    flags & wanted == wanted
}

/// Whether raw queue flags advertise `capability`.
pub open spec fn advertises(flags: u32, capability: QueueCapability) -> bool {
    holds_bits(flags, capability.bit())
}

/// `ash::vk::QueueFlags::contains`, on flag sets given by their raw bits: true
/// when every bit that is set in `wanted` is set in `flags` too.
#[verifier::external_body]
fn queue_flags_contain(flags: u32, wanted: u32) -> (found: bool)
    ensures
        found == holds_bits(flags, wanted),
{
    vk::QueueFlags::from_raw(flags).contains(vk::QueueFlags::from_raw(wanted))
}

/// One queue family as the driver reports it: its raw capability flags.
#[derive(Debug, Clone, Copy, PartialEq, Eq)]
pub struct QueueFamily {
    pub flags: u32,
}

impl QueueFamily {
    /// Whether the family takes transfers and neither graphics nor compute.
    pub open spec fn is_dedicated_transfer(self) -> bool {
        advertises(self.flags, QueueCapability::Transfer) && !(advertises(
            self.flags,
            QueueCapability::Graphics,
        ) || advertises(self.flags, QueueCapability::Compute))
    }

    /// Whether the family takes compute work and no graphics.
    pub open spec fn is_async_compute(self) -> bool {
        advertises(self.flags, QueueCapability::Compute) && !advertises(
            self.flags,
            QueueCapability::Graphics,
        )
    }

    /// Whether the family advertises `capability`.
    pub fn supports(&self, capability: QueueCapability) -> (found: bool)
        ensures
            found == advertises(self.flags, capability),
    {
        queue_flags_contain(self.flags, capability.flag())
    }
}

/// Whether some family of the sequence is dedicated to transfers.
pub open spec fn has_dedicated_transfer(families: Seq<QueueFamily>) -> bool {
    exists|i: int| 0 <= i < families.len() && (#[trigger] families[i]).is_dedicated_transfer()
}

/// Whether some family of the sequence takes compute work apart from graphics.
pub open spec fn has_async_compute(families: Seq<QueueFamily>) -> bool {
    exists|i: int| 0 <= i < families.len() && (#[trigger] families[i]).is_async_compute()
}

/// What the queue families of a device offer beside its general queues.
#[derive(Debug, Clone, Copy, PartialEq, Eq)]
pub struct DedicatedQueues {
    pub transfer: bool,
    pub async_compute: bool,
}

/// Looks through the queue families for one that is dedicated to transfers
/// and for one that takes compute work apart from graphics.
pub fn detect_dedicated_queues(families: &Vec<QueueFamily>) -> (found: DedicatedQueues)
    ensures
        found.transfer == has_dedicated_transfer(families@),
        found.async_compute == has_async_compute(families@),
{
    let mut transfer = false;
    let mut async_compute = false;
    let mut i: usize = 0;
    while i < families.len()
        invariant
            i <= families.len(),
            transfer == has_dedicated_transfer(families@.take(i as int)),
            async_compute == has_async_compute(families@.take(i as int)),
        decreases families.len() - i,
    {
        let family = &families[i];
        let graphics = family.supports(QueueCapability::Graphics);
        let compute = family.supports(QueueCapability::Compute);
        if family.supports(QueueCapability::Transfer) && !(graphics || compute) {
            transfer = true;
        }
        if compute && !graphics {
            async_compute = true;
        }
        proof {
            lemma_dedicated_queues_step(families@, i as int);
        }
        i += 1;
    }
    assert(families@.take(families.len() as int) =~= families@);
    DedicatedQueues { transfer, async_compute }
}

/// What the first `n + 1` families offer is what the first `n` offer or the
/// family at `n` adds.
pub proof fn lemma_dedicated_queues_step(families: Seq<QueueFamily>, n: int)
    requires
        0 <= n < families.len(),
    ensures
        has_dedicated_transfer(families.take(n + 1)) == (has_dedicated_transfer(families.take(n))
            || families[n].is_dedicated_transfer()),
        has_async_compute(families.take(n + 1)) == (has_async_compute(families.take(n))
            || families[n].is_async_compute()),
{
    let shorter = families.take(n);
    let longer = families.take(n + 1);
    assert(longer[n] == families[n]);
    assert forall|i: int| 0 <= i < n implies shorter[i] == longer[i] by {}
    if has_dedicated_transfer(shorter) {
        let i = choose|i: int| 0 <= i < shorter.len() && (#[trigger] shorter[i]).is_dedicated_transfer();
        assert(longer[i].is_dedicated_transfer());
    }
    if has_async_compute(shorter) {
        let i = choose|i: int| 0 <= i < shorter.len() && (#[trigger] shorter[i]).is_async_compute();
        assert(longer[i].is_async_compute());
    }
    if has_dedicated_transfer(longer) {
        let i = choose|i: int| 0 <= i < longer.len() && (#[trigger] longer[i]).is_dedicated_transfer();
        if i < n {
            assert(shorter[i].is_dedicated_transfer());
        }
    }
    if has_async_compute(longer) {
        let i = choose|i: int| 0 <= i < longer.len() && (#[trigger] longer[i]).is_async_compute();
        if i < n {
            assert(shorter[i].is_async_compute());
        }
    }
}

} // verus!
