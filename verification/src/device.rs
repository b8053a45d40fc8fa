//! The vendor-agnostic record of a physical device and the decoding of the
//! raw values it is made from.

use crate::extension::{lists_ray_tracing, supports_ray_tracing};
use crate::memory::{memory_pressure, vram_heap, vram_heap_of, MemoryHeap, MemoryPressure};
pub use crate::native::cstring_to_string;
use crate::native::{decode_native_string, native_text};
use crate::queue::{detect_dedicated_queues, has_async_compute, has_dedicated_transfer, QueueFamily};
use crate::text::{decimal, push_decimal};
use crate::vendor::Vendor;
use vstd::prelude::*;

verus! {

/// The kind of a physical device.
#[derive(Debug, Clone, Copy, PartialEq, Eq, Structural)]
pub enum DeviceType {
    Other,
    IntegratedGPU,
    DiscreteGPU,
    VirtualGPU,
    CPU,
    Unknown,
}

impl DeviceType {
    /// The kind that the raw code `id` stands for; a code that stands for
    /// none is `Unknown`.
    pub open spec fn of_code(id: i32) -> DeviceType {
        if id == 0 {
            DeviceType::Other
        } else if id == 1 {
            DeviceType::IntegratedGPU
        } else if id == 2 {
            DeviceType::DiscreteGPU
        } else if id == 3 {
            DeviceType::VirtualGPU
        } else if id == 4 {
            DeviceType::CPU
        } else {
            DeviceType::Unknown
        }
    }

    /// The name under which the kind is shown.
    pub open spec fn label(self) -> Seq<char> {
        match self {
            DeviceType::Other => "Other"@,
            DeviceType::IntegratedGPU => "Integrated GPU"@,
            DeviceType::DiscreteGPU => "Discrete GPU"@,
            DeviceType::VirtualGPU => "Virtual GPU"@,
            DeviceType::CPU => "CPU"@,
            DeviceType::Unknown => "Unknown"@,
        }
    }

    /// Converts the raw code a driver reports into a `DeviceType`.
    pub fn from(id: i32) -> (kind: DeviceType)
        ensures
            kind == DeviceType::of_code(id),
    {
        match id {
            0 => DeviceType::Other,
            1 => DeviceType::IntegratedGPU,
            2 => DeviceType::DiscreteGPU,
            3 => DeviceType::VirtualGPU,
            4 => DeviceType::CPU,
            _ => DeviceType::Unknown,
        }
    }

    /// Returns a human-readable name.
    pub fn name(&self) -> (name: &'static str)
        ensures
            name@ == self.label(),
    {
        match self {
            DeviceType::Other => "Other",
            DeviceType::IntegratedGPU => "Integrated GPU",
            DeviceType::DiscreteGPU => "Discrete GPU",
            DeviceType::VirtualGPU => "Virtual GPU",
            DeviceType::CPU => "CPU",
            DeviceType::Unknown => "Unknown",
        }
    }
}

/// The variant field of a packed version: its three highest bits.
pub open spec fn version_variant(version: u32) -> u32 {
    (version >> 29) & 0x7
}

/// The major field of a packed version: the seven bits below the variant.
pub open spec fn version_major(version: u32) -> u32 {
    (version >> 22) & 0x7F
}

/// The minor field of a packed version: the ten bits below the major field.
pub open spec fn version_minor(version: u32) -> u32 {
    (version >> 12) & 0x3FF
}

/// The patch field of a packed version: its twelve lowest bits.
pub open spec fn version_patch(version: u32) -> u32 {
    version & 0xFFF
}

/// The text of a packed version: its four fields as decimal numerals,
/// variant first, separated by full stops.
pub open spec fn version_text(version: u32) -> Seq<char> {
    decimal(version_variant(version) as nat) + seq!['.'] + decimal(version_major(version) as nat)
        + seq!['.'] + decimal(version_minor(version) as nat) + seq!['.'] + decimal(
        version_patch(version) as nat,
    )
}

/// Decodes a packed version number into a string of the form
/// "variant.major.minor.patch".
pub fn decode_version_number(version: u32) -> (text: String)
    ensures
        text@ == version_text(version),
{
    let variant: u32 = (version >> 29) & 0x7;
    let major: u32 = (version >> 22) & 0x7F;
    let minor: u32 = (version >> 12) & 0x3FF;
    let patch: u32 = version & 0xFFF;
    let mut text = String::new();
    push_decimal(&mut text, variant);
    text.push('.');
    push_decimal(&mut text, major);
    text.push('.');
    push_decimal(&mut text, minor);
    text.push('.');
    push_decimal(&mut text, patch);
    text
}

/// The four fields of a packed version lie side by side and fill it: each
/// stays below the limit of its width, and together they give the packed
/// value back.
pub proof fn lemma_version_fields_fill_the_word(version: u32)
    ensures
        version_variant(version) < 8,
        version_major(version) < 128,
        version_minor(version) < 1024,
        version_patch(version) < 4096,
        version == version_variant(version) * 0x2000_0000 + version_major(version) * 0x40_0000
            + version_minor(version) * 0x1000 + version_patch(version),
{
    assert((version >> 29) & 0x7 < 8) by (bit_vector);
    assert((version >> 22) & 0x7F < 128) by (bit_vector);
    assert((version >> 12) & 0x3FF < 1024) by (bit_vector);
    assert(version & 0xFFF < 4096) by (bit_vector);
    assert(version == ((version >> 29) & 0x7) * 0x2000_0000 + ((version >> 22) & 0x7F) * 0x40_0000
        + ((version >> 12) & 0x3FF) * 0x1000 + (version & 0xFFF)) by (bit_vector);
}

/// The general limits of a device that the record keeps.
#[derive(Debug, Clone, Copy, PartialEq, Eq)]
pub struct DeviceLimits {
    pub max_image_dimension_2d: u32,
    pub max_compute_shared_memory_size: u32,
    pub max_compute_work_group_invocations: u32,
}

/// The core properties of a device as the driver reports them: the name as
/// the bytes of its fixed-size field, the kind as a raw code, the version
/// packed into one word.
#[derive(Debug, Clone, PartialEq, Eq)]
pub struct CoreProperties {
    pub device_name: Vec<u8>,
    pub device_type: i32,
    pub vendor_id: u32,
    pub device_id: u32,
    pub api_version: u32,
    pub limits: DeviceLimits,
}

/// The driver's name and description, each as the bytes of its fixed-size
/// field.
#[derive(Debug, Clone, PartialEq, Eq)]
pub struct DriverProperties {
    pub driver_name: Vec<u8>,
    pub driver_info: Vec<u8>,
}

/// The shader-core properties that devices of one vendor family report.
#[derive(Debug, Clone, Copy, PartialEq, Eq)]
pub struct ShaderCoreProperties {
    pub shader_engine_count: u32,
    pub shader_arrays_per_engine_count: u32,
    pub compute_units_per_shader_array: u32,
    pub simd_per_compute_unit: u32,
    pub wavefronts_per_simd: u32,
    pub wavefront_size: u32,
}

impl ShaderCoreProperties {
    /// The number of compute units: engines, times arrays per engine, times
    /// units per array.
    pub open spec fn compute_units(self) -> int {
        self.shader_engine_count * self.shader_arrays_per_engine_count
            * self.compute_units_per_shader_array
    }

    /// Whether the number of compute units fits the 32 bits that the record
    /// has for it.
    pub open spec fn countable(self) -> bool {
        self.compute_units() <= u32::MAX
    }

    /// Tells whether the number of compute units fits the record.
    pub fn is_countable(&self) -> (fits: bool)
        ensures
            fits == self.countable(),
    {
        let engines = self.shader_engine_count as u64;
        let arrays = self.shader_arrays_per_engine_count as u64;
        let units = self.compute_units_per_shader_array as u64;
        assert(engines * arrays <= 0xFFFF_FFFE_0000_0001) by (nonlinear_arith)
            requires
                engines <= 0xFFFF_FFFF,
                arrays <= 0xFFFF_FFFF,
        ;
        let per_device: u64 = engines * arrays;
        if units == 0 || per_device == 0 {
            assert(per_device * units == 0) by (nonlinear_arith)
                requires
                    units == 0 || per_device == 0,
            ;
            true
        } else if per_device > 0xFFFF_FFFF {
            assert(per_device * units > 0xFFFF_FFFF) by (nonlinear_arith)
                requires
                    per_device > 0xFFFF_FFFF,
                    units >= 1,
            ;
            false
        } else {
            assert(per_device * units <= 0xFFFF_FFFE_0000_0001) by (nonlinear_arith)
                requires
                    per_device <= 0xFFFF_FFFF,
                    units <= 0xFFFF_FFFF,
            ;
            per_device * units <= 0xFFFF_FFFF
        }
    }

    /// Counts the compute units.
    pub fn count_compute_units(&self) -> (count: u32)
        requires
            self.countable(),
        ensures
            count == self.compute_units(),
    {
        let engines = self.shader_engine_count as u64;
        let arrays = self.shader_arrays_per_engine_count as u64;
        let units = self.compute_units_per_shader_array as u64;
        assert(engines * arrays <= 0xFFFF_FFFE_0000_0001) by (nonlinear_arith)
            requires
                engines <= 0xFFFF_FFFF,
                arrays <= 0xFFFF_FFFF,
        ;
        let per_device: u64 = engines * arrays;
        if units == 0 {
            assert(per_device * units == 0) by (nonlinear_arith)
                requires
                    units == 0,
            ;
            0
        } else {
            assert(per_device <= per_device * units) by (nonlinear_arith)
                requires
                    units >= 1,
                    per_device >= 0,
            ;
            (per_device * units) as u32
        }
    }
}

/// The properties that devices of another vendor family report about their
/// streaming multiprocessors.
#[derive(Debug, Clone, Copy, PartialEq, Eq)]
pub struct SmBuiltinsProperties {
    pub shader_sm_count: u32,
    pub shader_warps_per_sm: u32,
}

/// The answer to the query that depends on the vendor.
#[derive(Debug, Clone, Copy, PartialEq, Eq)]
pub enum VendorTopology {
    ShaderCore(ShaderCoreProperties),
    SmBuiltins(SmBuiltinsProperties),
    Absent,
}

/// Everything the driver has answered about one device.
#[derive(Debug, Clone, PartialEq, Eq)]
pub struct DeviceAnswers {
    pub core: CoreProperties,
    pub driver: DriverProperties,
    pub heaps: Vec<MemoryHeap>,
    pub queue_families: Vec<QueueFamily>,
    pub extensions: Vec<String>,
    pub topology: VendorTopology,
}

/// Why no record could be made of a device.
#[derive(Debug, Clone, Copy, PartialEq, Eq)]
pub enum DeviceError {
    /// The driver reported a vendor identifier that is not a recognised one.
    UnknownVendor { vendor_id: u32 },
    /// A query failed; the code is the one that the query gave.
    QueryCapability { code: i32 },
}

/// Resolves the vendor of a device from the identifier the driver reports,
/// and fails on an identifier that is not a recognised one.
pub fn resolve_vendor(vendor_id: u32) -> (resolved: Result<Vendor, DeviceError>)
    ensures
        match resolved {
            Ok(vendor) => Vendor::lookup(vendor_id) == Some(vendor),
            Err(error) => Vendor::lookup(vendor_id) is None && error == (DeviceError::UnknownVendor {
                vendor_id,
            }),
        },
{
    match Vendor::from_vendor_id(vendor_id) {
        Some(vendor) => Ok(vendor),
        None => Err(DeviceError::UnknownVendor { vendor_id }),
    }
}

/// Characteristics of a GPU. What only one vendor family reports is optional;
/// the general limits and the capability flags are always there.
#[derive(Debug, Clone, Copy, PartialEq, Eq)]
pub struct GPUCharacteristics {
    pub memory_pressure: MemoryPressure,
    pub compute_units: Option<u32>,
    pub shader_engines: Option<u32>,
    pub shader_arrays_per_engine_count: Option<u32>,
    pub compute_units_per_shader_array: Option<u32>,
    pub simd_per_compute_unit: Option<u32>,
    pub wavefronts_per_simd: Option<u32>,
    pub wavefront_size: Option<u32>,
    pub streaming_multiprocessors: Option<u32>,
    pub warps_per_sm: Option<u32>,
    pub max_image_dimension_2d: u32,
    pub max_compute_shared_memory_size: u32,
    pub max_compute_work_group_invocations: u32,
    pub dedicated_transfer_queue: bool,
    pub dedicated_async_compute_queue: bool,
    pub supports_ray_tracing: bool,
}

impl GPUCharacteristics {
    /// Whether all the shader-core fields are set.
    pub open spec fn shader_core_set(self) -> bool {
        &&& self.compute_units is Some
        &&& self.shader_engines is Some
        &&& self.shader_arrays_per_engine_count is Some
        &&& self.compute_units_per_shader_array is Some
        &&& self.simd_per_compute_unit is Some
        &&& self.wavefronts_per_simd is Some
        &&& self.wavefront_size is Some
    }

    /// Whether none of the shader-core fields is set.
    pub open spec fn shader_core_unset(self) -> bool {
        &&& self.compute_units is None
        &&& self.shader_engines is None
        &&& self.shader_arrays_per_engine_count is None
        &&& self.compute_units_per_shader_array is None
        &&& self.simd_per_compute_unit is None
        &&& self.wavefronts_per_simd is None
        &&& self.wavefront_size is None
    }

    /// Whether both multiprocessor fields are set.
    pub open spec fn sm_builtins_set(self) -> bool {
        self.streaming_multiprocessors is Some && self.warps_per_sm is Some
    }

    /// Whether neither multiprocessor field is set.
    pub open spec fn sm_builtins_unset(self) -> bool {
        self.streaming_multiprocessors is None && self.warps_per_sm is None
    }

    /// Whether the fields of each vendor family are set together or not at
    /// all, and the memory pressure, where it is a number, lies between 0
    /// and 1.
    pub open spec fn well_formed(self) -> bool {
        &&& self.shader_core_set() || self.shader_core_unset()
        &&& self.sm_builtins_set() || self.sm_builtins_unset()
        &&& self.memory_pressure.within_unit_interval()
    }
}

/// Represents a physical GPU device.
#[derive(Debug, Clone, PartialEq, Eq)]
pub struct PhysicalDevice {
    pub vendor: Vendor,
    pub device_name: String,
    pub device_type: DeviceType,
    pub device_id: u32,
    pub vendor_id: u32,
    pub driver_name: String,
    pub driver_info: String,
    pub api_version: String,
    pub heapbudget: u64,
    pub heapsize: u64,
    pub characteristics: GPUCharacteristics,
}

/// A physical device with its strings taken as sequences of characters.
pub struct PhysicalDeviceView {
    pub vendor: Vendor,
    pub device_name: Seq<char>,
    pub device_type: DeviceType,
    pub device_id: u32,
    pub vendor_id: u32,
    pub driver_name: Seq<char>,
    pub driver_info: Seq<char>,
    pub api_version: Seq<char>,
    pub heapbudget: u64,
    pub heapsize: u64,
    pub characteristics: GPUCharacteristics,
}

impl View for PhysicalDevice {
    type V = PhysicalDeviceView;

    open spec fn view(&self) -> PhysicalDeviceView {
        PhysicalDeviceView {
            vendor: self.vendor,
            device_name: self.device_name@,
            device_type: self.device_type,
            device_id: self.device_id,
            vendor_id: self.vendor_id,
            driver_name: self.driver_name@,
            driver_info: self.driver_info@,
            api_version: self.api_version@,
            heapbudget: self.heapbudget,
            heapsize: self.heapsize,
            characteristics: self.characteristics,
        }
    }
}

impl DeviceAnswers {
    /// The vendor that the answers name, if it is a recognised one.
    pub open spec fn vendor(&self) -> Option<Vendor> {
        Vendor::lookup(self.core.vendor_id)
    }

    /// The shader-core answer, where the vendor is the one whose devices
    /// give it and the answer is there.
    pub open spec fn shader_core(&self, vendor: Vendor) -> Option<ShaderCoreProperties> {
        match self.topology {
            VendorTopology::ShaderCore(properties) if vendor == Vendor::AMD => Some(properties),
            _ => None,
        }
    }

    /// The multiprocessor answer, where the vendor is the one whose devices
    /// give it and the answer is there.
    pub open spec fn sm_builtins(&self, vendor: Vendor) -> Option<SmBuiltinsProperties> {
        match self.topology {
            VendorTopology::SmBuiltins(properties) if vendor == Vendor::Nvidia => Some(properties),
            _ => None,
        }
    }

    /// Whether a record can be computed within the width of its fields: the
    /// budget of the video memory does not exceed its size, and the number of
    /// compute units, where it is asked for, fits 32 bits. Answers that name
    /// no recognised vendor ask for no computation.
    pub open spec fn computable(&self) -> bool {
        self.vendor() matches Some(vendor) ==> {
            &&& vram_heap(self.heaps@).budget <= vram_heap(self.heaps@).size
            &&& self.shader_core(vendor) matches Some(properties) ==> properties.countable()
        }
    }

    /// The characteristics that the answers give a device of `vendor`.
    pub open spec fn characteristics(&self, vendor: Vendor) -> GPUCharacteristics {
        let heap = vram_heap(self.heaps@);
        let shader_core = self.shader_core(vendor);
        let sm_builtins = self.sm_builtins(vendor);
        GPUCharacteristics {
            memory_pressure: MemoryPressure::of(heap.size, heap.budget),
            compute_units: match shader_core {
                Some(p) => Some(p.compute_units() as u32),
                None => None,
            },
            shader_engines: match shader_core {
                Some(p) => Some(p.shader_engine_count),
                None => None,
            },
            shader_arrays_per_engine_count: match shader_core {
                Some(p) => Some(p.shader_arrays_per_engine_count),
                None => None,
            },
            compute_units_per_shader_array: match shader_core {
                Some(p) => Some(p.compute_units_per_shader_array),
                None => None,
            },
            simd_per_compute_unit: match shader_core {
                Some(p) => Some(p.simd_per_compute_unit),
                None => None,
            },
            wavefronts_per_simd: match shader_core {
                Some(p) => Some(p.wavefronts_per_simd),
                None => None,
            },
            wavefront_size: match shader_core {
                Some(p) => Some(p.wavefront_size),
                None => None,
            },
            streaming_multiprocessors: match sm_builtins {
                Some(p) => Some(p.shader_sm_count),
                None => None,
            },
            warps_per_sm: match sm_builtins {
                Some(p) => Some(p.shader_warps_per_sm),
                None => None,
            },
            max_image_dimension_2d: self.core.limits.max_image_dimension_2d,
            max_compute_shared_memory_size: self.core.limits.max_compute_shared_memory_size,
            max_compute_work_group_invocations: self.core.limits.max_compute_work_group_invocations,
            dedicated_transfer_queue: has_dedicated_transfer(self.queue_families@),
            dedicated_async_compute_queue: has_async_compute(self.queue_families@),
            supports_ray_tracing: lists_ray_tracing(self.extensions@),
        }
    }

    /// The record that the answers give a device of `vendor`.
    pub open spec fn record(&self, vendor: Vendor) -> PhysicalDeviceView {
        PhysicalDeviceView {
            vendor,
            device_name: native_text(self.core.device_name@),
            device_type: DeviceType::of_code(self.core.device_type),
            device_id: self.core.device_id,
            vendor_id: self.core.vendor_id,
            driver_name: native_text(self.driver.driver_name@),
            driver_info: native_text(self.driver.driver_info@),
            api_version: version_text(self.core.api_version),
            heapbudget: vram_heap(self.heaps@).budget,
            heapsize: vram_heap(self.heaps@).size,
            characteristics: self.characteristics(vendor),
        }
    }

    /// Tells whether a record can be computed within the width of its fields.
    pub fn is_computable(&self) -> (fits: bool)
        ensures
            fits == self.computable(),
    {
        match Vendor::from_vendor_id(self.core.vendor_id) {
            None => true,
            Some(vendor) => {
                let heap = vram_heap_of(&self.heaps);
                if heap.budget > heap.size {
                    return false;
                }
                match self.topology {
                    VendorTopology::ShaderCore(properties) => {
                        if vendor == Vendor::AMD {
                            properties.is_countable()
                        } else {
                            true
                        }
                    },
                    _ => true,
                }
            },
        }
    }
}

/// The fields that only one vendor family reports are set together or not
/// at all: those of the shader cores exactly for the vendor that has them,
/// when its answer is there, and those of the multiprocessors likewise.
pub proof fn lemma_vendor_fields_are_grouped(answers: DeviceAnswers, vendor: Vendor)
    ensures
        answers.characteristics(vendor).shader_core_set() || answers.characteristics(
            vendor,
        ).shader_core_unset(),
        answers.characteristics(vendor).sm_builtins_set() || answers.characteristics(
            vendor,
        ).sm_builtins_unset(),
        answers.characteristics(vendor).shader_core_set() <==> vendor == Vendor::AMD
            && answers.topology is ShaderCore,
        answers.characteristics(vendor).sm_builtins_set() <==> vendor == Vendor::Nvidia
            && answers.topology is SmBuiltins,
{
}

/// A record that can be computed is well formed: its vendor fields are
/// grouped and its memory pressure, where it is a number, lies between 0
/// and 1.
pub proof fn lemma_record_is_well_formed(answers: DeviceAnswers, vendor: Vendor)
    requires
        answers.vendor() == Some(vendor),
        answers.computable(),
    ensures
        answers.record(vendor).characteristics.well_formed(),
        answers.record(vendor).characteristics.memory_pressure is Unreported <==> answers.record(
            vendor,
        ).heapbudget == 0,
{
    lemma_vendor_fields_are_grouped(answers, vendor);
}

impl PhysicalDevice {
    /// Makes the record of a device from what the driver has answered about
    /// it. The vendor is resolved first, and an identifier that is not a
    /// recognised one is the only reason to fail.
    pub fn new(answers: &DeviceAnswers) -> (made: Result<PhysicalDevice, DeviceError>)
        requires
            answers.computable(),
        ensures
            match made {
                Ok(device) => answers.vendor() matches Some(vendor) && device@ == answers.record(
                    vendor,
                ),
                Err(error) => answers.vendor() is None && error == (DeviceError::UnknownVendor {
                    vendor_id: answers.core.vendor_id,
                }),
            },
            made matches Ok(device) ==> device.characteristics.well_formed(),
    {
        let vendor = match resolve_vendor(answers.core.vendor_id) {
            Ok(vendor) => vendor,
            Err(error) => {
                return Err(error);
            },
        };
        let device_name = decode_native_string(answers.core.device_name.as_slice());
        let device_type = DeviceType::from(answers.core.device_type);
        let api_version = decode_version_number(answers.core.api_version);
        let driver_name = decode_native_string(answers.driver.driver_name.as_slice());
        let driver_info = decode_native_string(answers.driver.driver_info.as_slice());

        let heap = vram_heap_of(&answers.heaps);
        let pressure = memory_pressure(heap.size, heap.budget);
        let queues = detect_dedicated_queues(&answers.queue_families);
        let ray_tracing = supports_ray_tracing(&answers.extensions);

        let mut characteristics = GPUCharacteristics {
            memory_pressure: pressure,
            compute_units: None,
            shader_engines: None,
            shader_arrays_per_engine_count: None,
            compute_units_per_shader_array: None,
            simd_per_compute_unit: None,
            wavefronts_per_simd: None,
            wavefront_size: None,
            streaming_multiprocessors: None,
            warps_per_sm: None,
            max_image_dimension_2d: answers.core.limits.max_image_dimension_2d,
            max_compute_shared_memory_size: answers.core.limits.max_compute_shared_memory_size,
            max_compute_work_group_invocations: answers.core.limits.max_compute_work_group_invocations,
            dedicated_transfer_queue: queues.transfer,
            dedicated_async_compute_queue: queues.async_compute,
            supports_ray_tracing: ray_tracing,
        };

        match answers.topology {
            VendorTopology::ShaderCore(properties) => {
                if vendor == Vendor::AMD {
                    characteristics.compute_units = Some(properties.count_compute_units());
                    characteristics.shader_engines = Some(properties.shader_engine_count);
                    characteristics.shader_arrays_per_engine_count = Some(
                        properties.shader_arrays_per_engine_count,
                    );
                    characteristics.compute_units_per_shader_array = Some(
                        properties.compute_units_per_shader_array,
                    );
                    characteristics.simd_per_compute_unit = Some(properties.simd_per_compute_unit);
                    characteristics.wavefronts_per_simd = Some(properties.wavefronts_per_simd);
                    characteristics.wavefront_size = Some(properties.wavefront_size);
                }
            },
            VendorTopology::SmBuiltins(properties) => {
                if vendor == Vendor::Nvidia {
                    characteristics.streaming_multiprocessors = Some(properties.shader_sm_count);
                    characteristics.warps_per_sm = Some(properties.shader_warps_per_sm);
                }
            },
            VendorTopology::Absent => {},
        }

        Ok(
            PhysicalDevice {
                vendor,
                device_name,
                device_type,
                device_id: answers.core.device_id,
                vendor_id: answers.core.vendor_id,
                driver_name,
                driver_info,
                api_version,
                heapbudget: heap.budget,
                heapsize: heap.size,
                characteristics,
            },
        )
    }
}

} // verus!
