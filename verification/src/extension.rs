//! Device extensions and what their presence tells about a device.

use vstd::prelude::*;

verus! {

/// The extension by which a device offers ray-tracing pipelines.
pub const RAY_TRACING_PIPELINE_KHR: &'static str = "VK_KHR_ray_tracing_pipeline";

/// The older extension by which a device of one vendor offers ray tracing.
pub const RAY_TRACING_NV: &'static str = "VK_NV_ray_tracing";

/// Whether `name` is, character for character, one of the two extensions
/// that offer ray tracing.
pub open spec fn is_ray_tracing_extension(name: Seq<char>) -> bool {
    name == RAY_TRACING_PIPELINE_KHR@ || name == RAY_TRACING_NV@
}

/// Whether the list of extensions holds one that offers ray tracing.
pub open spec fn lists_ray_tracing(extensions: Seq<String>) -> bool {
    exists|i: int|
        0 <= i < extensions.len() && is_ray_tracing_extension((#[trigger] extensions[i])@)
}

/// Looks through the extensions a device supports for one that offers ray
/// tracing.
pub fn supports_ray_tracing(extensions: &Vec<String>) -> (found: bool)
    ensures
        found == lists_ray_tracing(extensions@),
{
    let pipeline = RAY_TRACING_PIPELINE_KHR.to_owned();
    let older = RAY_TRACING_NV.to_owned();
    let mut i: usize = 0;
    while i < extensions.len()
        invariant
            i <= extensions.len(),
            pipeline@ == RAY_TRACING_PIPELINE_KHR@,
            older@ == RAY_TRACING_NV@,
            forall|j: int| 0 <= j < i ==> !is_ray_tracing_extension((#[trigger] extensions[j])@),
        decreases extensions.len() - i,
    {
        if extensions[i] == pipeline || extensions[i] == older {
            return true;
        }
        i += 1;
    }
    false
}

} // verus!
