//! The order in which a device is asked about itself. The normalizer holds
//! what has been answered so far and names the next query; whoever holds the
//! device performs that query and hands the answer back, until the record is
//! made or the work has failed.

use crate::device::{
    CoreProperties, DeviceAnswers, DeviceError, DriverProperties, PhysicalDevice,
    PhysicalDeviceView, ShaderCoreProperties, SmBuiltinsProperties, VendorTopology,
};
use crate::memory::{vram_heap, vram_heap_of, MemoryHeap};
use crate::queue::QueueFamily;
use crate::vendor::Vendor;
use vstd::pervasive::unreached;
use vstd::prelude::*;

verus! {

/// A query that the normalizer asks of a device.
#[derive(Debug, Clone, Copy, PartialEq, Eq, Structural)]
pub enum DeviceQuery {
    CoreProperties,
    DriverProperties,
    MemoryProperties,
    QueueFamilies,
    Extensions,
    ShaderCore,
    SmBuiltins,
}

impl DeviceQuery {
    /// The place of the query in the order of asking. The two queries that
    /// depend on the vendor share the last place: at most one of them is
    /// asked.
    pub open spec fn rank(self) -> nat {
        match self {
            DeviceQuery::CoreProperties => 0,
            DeviceQuery::DriverProperties => 1,
            DeviceQuery::MemoryProperties => 2,
            DeviceQuery::QueueFamilies => 3,
            DeviceQuery::Extensions => 4,
            DeviceQuery::ShaderCore => 5,
            DeviceQuery::SmBuiltins => 5,
        }
    }
}

/// What came back from a query: the data asked for, or the code with which
/// the query failed.
#[derive(Debug, Clone, PartialEq, Eq)]
pub enum QueryAnswer {
    Core(CoreProperties),
    Driver(DriverProperties),
    Memory(Vec<MemoryHeap>),
    QueueFamilies(Vec<QueueFamily>),
    Extensions(Vec<String>),
    ShaderCore(ShaderCoreProperties),
    SmBuiltins(SmBuiltinsProperties),
    Failed { code: i32 },
}

impl QueryAnswer {
    /// Whether the answer is one that the query `query` can have: its data,
    /// or a failure.
    pub open spec fn answers(self, query: DeviceQuery) -> bool {
        match self {
            QueryAnswer::Core(_) => query == DeviceQuery::CoreProperties,
            QueryAnswer::Driver(_) => query == DeviceQuery::DriverProperties,
            QueryAnswer::Memory(_) => query == DeviceQuery::MemoryProperties,
            QueryAnswer::QueueFamilies(_) => query == DeviceQuery::QueueFamilies,
            QueryAnswer::Extensions(_) => query == DeviceQuery::Extensions,
            QueryAnswer::ShaderCore(_) => query == DeviceQuery::ShaderCore,
            QueryAnswer::SmBuiltins(_) => query == DeviceQuery::SmBuiltins,
            QueryAnswer::Failed { .. } => true,
        }
    }

    /// Whether the numbers of the answer fit the record: the budget of the
    /// video memory does not exceed its size, and the compute units can be
    /// counted in 32 bits.
    pub open spec fn fits(self) -> bool {
        match self {
            QueryAnswer::Memory(heaps) => vram_heap(heaps@).budget <= vram_heap(heaps@).size,
            QueryAnswer::ShaderCore(properties) => properties.countable(),
            _ => true,
        }
    }
}

/// The answers gathered so far, by the query that is asked next.
#[derive(Debug, Clone, PartialEq, Eq)]
pub enum Normalizer {
    AwaitCore,
    AwaitDriver { core: CoreProperties },
    AwaitMemory { core: CoreProperties, driver: DriverProperties },
    AwaitQueueFamilies { core: CoreProperties, driver: DriverProperties, heaps: Vec<MemoryHeap> },
    AwaitExtensions {
        core: CoreProperties,
        driver: DriverProperties,
        heaps: Vec<MemoryHeap>,
        queue_families: Vec<QueueFamily>,
    },
    AwaitTopology {
        core: CoreProperties,
        driver: DriverProperties,
        heaps: Vec<MemoryHeap>,
        queue_families: Vec<QueueFamily>,
        extensions: Vec<String>,
    },
}

/// What the normalizer does with an answer.
#[derive(Debug, Clone, PartialEq, Eq)]
pub enum Step {
    /// More is to be asked: the answers gathered, and the next query.
    Ask(Normalizer, DeviceQuery),
    /// The record is made.
    Done(PhysicalDevice),
    /// No record can be made.
    Failed(DeviceError),
}

/// A step with the record, where it is made, taken by its view.
pub enum StepView {
    Ask(Normalizer, DeviceQuery),
    Done(PhysicalDeviceView),
    Failed(DeviceError),
}

impl View for Step {
    type V = StepView;

    open spec fn view(&self) -> StepView {
        match *self {
            Step::Ask(next, query) => StepView::Ask(next, query),
            Step::Done(device) => StepView::Done(device@),
            Step::Failed(error) => StepView::Failed(error),
        }
    }
}

/// The query that follows the extension list for a device of `vendor`, if
/// there is one.
pub open spec fn topology_query(vendor: Vendor) -> Option<DeviceQuery> {
    match vendor {
        Vendor::AMD => Some(DeviceQuery::ShaderCore),
        Vendor::Nvidia => Some(DeviceQuery::SmBuiltins),
        _ => None,
    }
}

impl Normalizer {
    /// The core properties, once they have been answered.
    pub open spec fn core_properties(self) -> Option<CoreProperties> {
        match self {
            Normalizer::AwaitCore => None,
            Normalizer::AwaitDriver { core } => Some(core),
            Normalizer::AwaitMemory { core, .. } => Some(core),
            Normalizer::AwaitQueueFamilies { core, .. } => Some(core),
            Normalizer::AwaitExtensions { core, .. } => Some(core),
            Normalizer::AwaitTopology { core, .. } => Some(core),
        }
    }

    /// The vendor of the device, once it has been resolved.
    pub open spec fn vendor(self) -> Option<Vendor> {
        match self.core_properties() {
            Some(core) => Vendor::lookup(core.vendor_id),
            None => None,
        }
    }

    /// The heaps, once they have been answered.
    pub open spec fn heaps(self) -> Option<Vec<MemoryHeap>> {
        match self {
            Normalizer::AwaitQueueFamilies { heaps, .. } => Some(heaps),
            Normalizer::AwaitExtensions { heaps, .. } => Some(heaps),
            Normalizer::AwaitTopology { heaps, .. } => Some(heaps),
            _ => None,
        }
    }

    /// What holds of every normalizer that `start` and `advance` give: past
    /// the core properties the vendor is resolved, heaps that were taken fit
    /// the record, and a query that depends on the vendor is awaited only
    /// from a vendor that has one.
    pub open spec fn well_formed(self) -> bool {
        &&& self.core_properties() is Some ==> self.vendor() is Some
        &&& self.heaps() matches Some(heaps) ==> vram_heap(heaps@).budget <= vram_heap(
            heaps@,
        ).size
        &&& self is AwaitTopology ==> topology_query(self.vendor().unwrap()) is Some
    }

    /// The query whose answer the normalizer awaits.
    pub open spec fn awaited(self) -> DeviceQuery {
        match self {
            Normalizer::AwaitCore => DeviceQuery::CoreProperties,
            Normalizer::AwaitDriver { .. } => DeviceQuery::DriverProperties,
            Normalizer::AwaitMemory { .. } => DeviceQuery::MemoryProperties,
            Normalizer::AwaitQueueFamilies { .. } => DeviceQuery::QueueFamilies,
            Normalizer::AwaitExtensions { .. } => DeviceQuery::Extensions,
            Normalizer::AwaitTopology { .. } => match self.vendor() {
                Some(Vendor::Nvidia) => DeviceQuery::SmBuiltins,
                _ => DeviceQuery::ShaderCore,
            },
        }
    }

    /// Whether `answer` can be taken: it answers the awaited query, and its
    /// numbers fit the record.
    pub open spec fn admits(self, answer: QueryAnswer) -> bool {
        answer.answers(self.awaited()) && answer.fits()
    }

    /// What the normalizer does with `answer`. A failed query ends the work
    /// with its code. The core properties resolve the vendor, and an
    /// unrecognised one ends the work before anything else is asked. Each
    /// further answer is kept and the next query asked, in the order driver,
    /// memory, queue families, extensions; after the extensions the vendor
    /// decides whether one more query is asked or the record is made.
    pub open spec fn outcome(self, answer: QueryAnswer) -> StepView {
        match (self, answer) {
            (_, QueryAnswer::Failed { code }) => StepView::Failed(
                DeviceError::QueryCapability { code },
            ),
            (Normalizer::AwaitCore, QueryAnswer::Core(core)) => match Vendor::lookup(
                core.vendor_id,
            ) {
                Some(_) => StepView::Ask(
                    Normalizer::AwaitDriver { core },
                    DeviceQuery::DriverProperties,
                ),
                None => StepView::Failed(DeviceError::UnknownVendor { vendor_id: core.vendor_id }),
            },
            (Normalizer::AwaitDriver { core }, QueryAnswer::Driver(driver)) => StepView::Ask(
                Normalizer::AwaitMemory { core, driver },
                DeviceQuery::MemoryProperties,
            ),
            (Normalizer::AwaitMemory { core, driver }, QueryAnswer::Memory(heaps)) => StepView::Ask(
                Normalizer::AwaitQueueFamilies { core, driver, heaps },
                DeviceQuery::QueueFamilies,
            ),
            (
                Normalizer::AwaitQueueFamilies { core, driver, heaps },
                QueryAnswer::QueueFamilies(queue_families),
            ) => StepView::Ask(
                Normalizer::AwaitExtensions { core, driver, heaps, queue_families },
                DeviceQuery::Extensions,
            ),
            (
                Normalizer::AwaitExtensions { core, driver, heaps, queue_families },
                QueryAnswer::Extensions(extensions),
            ) => {
                let vendor = Vendor::lookup(core.vendor_id).unwrap();
                match topology_query(vendor) {
                    Some(query) => StepView::Ask(
                        Normalizer::AwaitTopology {
                            core,
                            driver,
                            heaps,
                            queue_families,
                            extensions,
                        },
                        query,
                    ),
                    None => StepView::Done(
                        (DeviceAnswers {
                            core,
                            driver,
                            heaps,
                            queue_families,
                            extensions,
                            topology: VendorTopology::Absent,
                        }).record(vendor),
                    ),
                }
            },
            (
                Normalizer::AwaitTopology { core, driver, heaps, queue_families, extensions },
                QueryAnswer::ShaderCore(properties),
            ) => StepView::Done(
                (DeviceAnswers {
                    core,
                    driver,
                    heaps,
                    queue_families,
                    extensions,
                    topology: VendorTopology::ShaderCore(properties),
                }).record(Vendor::lookup(core.vendor_id).unwrap()),
            ),
            (
                Normalizer::AwaitTopology { core, driver, heaps, queue_families, extensions },
                QueryAnswer::SmBuiltins(properties),
            ) => StepView::Done(
                (DeviceAnswers {
                    core,
                    driver,
                    heaps,
                    queue_families,
                    extensions,
                    topology: VendorTopology::SmBuiltins(properties),
                }).record(Vendor::lookup(core.vendor_id).unwrap()),
            ),
            _ => arbitrary(),
        }
    }

    /// Begins the work on a device: nothing is answered yet, and the core
    /// properties are asked first.
    pub fn start() -> (begun: (Normalizer, DeviceQuery))
        ensures
            begun.0 == Normalizer::AwaitCore,
            begun.1 == DeviceQuery::CoreProperties,
            begun.0.well_formed(),
            begun.0.awaited() == begun.1,
    {
        (Normalizer::AwaitCore, DeviceQuery::CoreProperties)
    }

    /// Names the query whose answer is awaited.
    pub fn pending(&self) -> (query: DeviceQuery)
        requires
            self.well_formed(),
        ensures
            query == self.awaited(),
    {
        match self {
            Normalizer::AwaitCore => DeviceQuery::CoreProperties,
            Normalizer::AwaitDriver { .. } => DeviceQuery::DriverProperties,
            Normalizer::AwaitMemory { .. } => DeviceQuery::MemoryProperties,
            Normalizer::AwaitQueueFamilies { .. } => DeviceQuery::QueueFamilies,
            Normalizer::AwaitExtensions { .. } => DeviceQuery::Extensions,
            Normalizer::AwaitTopology { core, .. } => match Vendor::from_vendor_id(core.vendor_id) {
                Some(Vendor::Nvidia) => DeviceQuery::SmBuiltins,
                _ => DeviceQuery::ShaderCore,
            },
        }
    }

    /// Tells whether `answer` can be taken.
    pub fn can_take(&self, answer: &QueryAnswer) -> (admitted: bool)
        requires
            self.well_formed(),
        ensures
            admitted == self.admits(*answer),
    {
        let awaited = self.pending();
        match answer {
            QueryAnswer::Core(_) => awaited == DeviceQuery::CoreProperties,
            QueryAnswer::Driver(_) => awaited == DeviceQuery::DriverProperties,
            QueryAnswer::Memory(heaps) => {
                let heap = vram_heap_of(heaps);
                awaited == DeviceQuery::MemoryProperties && heap.budget <= heap.size
            },
            QueryAnswer::QueueFamilies(_) => awaited == DeviceQuery::QueueFamilies,
            QueryAnswer::Extensions(_) => awaited == DeviceQuery::Extensions,
            QueryAnswer::ShaderCore(properties) => awaited == DeviceQuery::ShaderCore
                && properties.is_countable(),
            QueryAnswer::SmBuiltins(_) => awaited == DeviceQuery::SmBuiltins,
            QueryAnswer::Failed { .. } => true,
        }
    }

    /// Takes the answer to the awaited query and says what follows: the next
    /// query, the finished record, or the failure.
    pub fn advance(self, answer: QueryAnswer) -> (step: Step)
        requires
            self.well_formed(),
            self.admits(answer),
        ensures
            step@ == self.outcome(answer),
            step matches Step::Ask(next, query) ==> {
                &&& next.well_formed()
                &&& next.awaited() == query
                &&& query.rank() == self.awaited().rank() + 1
            },
            step matches Step::Done(device) ==> device.characteristics.well_formed(),
            step matches Step::Failed(error) ==> {
                ||| answer matches QueryAnswer::Failed { code } && error == (
                DeviceError::QueryCapability { code })
                ||| answer matches QueryAnswer::Core(core) && Vendor::lookup(core.vendor_id) is None
                    && error == (DeviceError::UnknownVendor { vendor_id: core.vendor_id })
            },
    {
        match answer {
            QueryAnswer::Failed { code } => Step::Failed(DeviceError::QueryCapability { code }),
            QueryAnswer::Core(core) => match Vendor::from_vendor_id(core.vendor_id) {
                Some(_) => Step::Ask(Normalizer::AwaitDriver { core }, DeviceQuery::DriverProperties),
                None => Step::Failed(DeviceError::UnknownVendor { vendor_id: core.vendor_id }),
            },
            QueryAnswer::Driver(driver) => match self {
                Normalizer::AwaitDriver { core } => Step::Ask(
                    Normalizer::AwaitMemory { core, driver },
                    DeviceQuery::MemoryProperties,
                ),
                _ => unreached(),
            },
            QueryAnswer::Memory(heaps) => match self {
                Normalizer::AwaitMemory { core, driver } => Step::Ask(
                    Normalizer::AwaitQueueFamilies { core, driver, heaps },
                    DeviceQuery::QueueFamilies,
                ),
                _ => unreached(),
            },
            QueryAnswer::QueueFamilies(queue_families) => match self {
                Normalizer::AwaitQueueFamilies { core, driver, heaps } => Step::Ask(
                    Normalizer::AwaitExtensions { core, driver, heaps, queue_families },
                    DeviceQuery::Extensions,
                ),
                _ => unreached(),
            },
            QueryAnswer::Extensions(extensions) => match self {
                Normalizer::AwaitExtensions { core, driver, heaps, queue_families } => {
                    match Vendor::from_vendor_id(core.vendor_id) {
                        Some(Vendor::AMD) => Step::Ask(
                            Normalizer::AwaitTopology {
                                core,
                                driver,
                                heaps,
                                queue_families,
                                extensions,
                            },
                            DeviceQuery::ShaderCore,
                        ),
                        Some(Vendor::Nvidia) => Step::Ask(
                            Normalizer::AwaitTopology {
                                core,
                                driver,
                                heaps,
                                queue_families,
                                extensions,
                            },
                            DeviceQuery::SmBuiltins,
                        ),
                        _ => finish(
                            DeviceAnswers {
                                core,
                                driver,
                                heaps,
                                queue_families,
                                extensions,
                                topology: VendorTopology::Absent,
                            },
                        ),
                    }
                },
                _ => unreached(),
            },
            QueryAnswer::ShaderCore(properties) => match self {
                Normalizer::AwaitTopology { core, driver, heaps, queue_families, extensions } => {
                    finish(
                        DeviceAnswers {
                            core,
                            driver,
                            heaps,
                            queue_families,
                            extensions,
                            topology: VendorTopology::ShaderCore(properties),
                        },
                    )
                },
                _ => unreached(),
            },
            QueryAnswer::SmBuiltins(properties) => match self {
                Normalizer::AwaitTopology { core, driver, heaps, queue_families, extensions } => {
                    finish(
                        DeviceAnswers {
                            core,
                            driver,
                            heaps,
                            queue_families,
                            extensions,
                            topology: VendorTopology::SmBuiltins(properties),
                        },
                    )
                },
                _ => unreached(),
            },
        }
    }
}

/// Makes the record once every answer is in.
fn finish(answers: DeviceAnswers) -> (step: Step)
    requires
        answers.vendor() is Some,
        answers.computable(),
    ensures
        step matches Step::Done(device) && device@ == answers.record(answers.vendor().unwrap())
            && device.characteristics.well_formed(),
{
    match PhysicalDevice::new(&answers) {
        Ok(device) => Step::Done(device),
        Err(error) => Step::Failed(error),
    }
}

} // verus!
