//! Accelerator selection and the device-level lookup rules.
//!
//! The shell enumerates accelerators, queue families, formats and memory
//! types through the driver and copies what each query reported into the
//! plain structures here; the functions in this module make every selection
//! decision, each with the same verified rule: the first candidate
//! satisfying the conditions wins, in the caller's priority order.

pub mod query_family;

use crate::error::{NeedleErr, NeedleError};
use query_family::QueryFamilyIndices;
use vstd::prelude::*;

verus! {

// Memory-layout codes for images.
pub const TILING_LINEAR: u32 = 0;
pub const TILING_OPTIMAL: u32 = 1;

/// The format-feature bit required of a depth/stencil attachment format.
pub const FORMAT_FEATURE_DEPTH_STENCIL_ATTACHMENT: u32 = 0x200;

/// The queue-capability bit for graphics work.
pub const QUEUE_GRAPHICS_BIT: u32 = 0x1;

/// Feature flags one pixel format offers, as queried from the accelerator:
/// one set per memory layout.
#[derive(Debug, Clone, Copy, PartialEq, Eq, Structural)]
pub struct FormatProperties {
    pub format: u32,
    pub linear_tiling_features: u32,
    pub optimal_tiling_features: u32,
}

/// What one queue family offers, as queried from the accelerator.
#[derive(Debug, Clone, Copy, PartialEq, Eq, Structural)]
pub struct QueueFamilyInfo {
    pub queue_count: u32,
    pub queue_flags: u32,
    /// Whether this family can present to the surface under consideration.
    pub supports_present: bool,
}

/// Everything accelerator selection reads about one candidate accelerator.
#[derive(Debug)]
pub struct AcceleratorProfile {
    pub queue_families: Vec<QueueFamilyInfo>,
    /// Whether the accelerator offers the presentation extension.
    pub supports_required_extensions: bool,
    /// How many surface formats its format query listed.
    pub surface_format_count: usize,
    /// How many present modes its present-mode query listed.
    pub present_mode_count: usize,
    pub supports_sampler_anisotropy: bool,
}

/// Whether `p`'s feature flags for the requested memory layout are a
/// superset of `features`.
pub open spec fn format_supports(p: FormatProperties, tiling: u32, features: u32) -> bool {
    if tiling == TILING_LINEAR {
        p.linear_tiling_features & features == features
    } else if tiling == TILING_OPTIMAL {
        p.optimal_tiling_features & features == features
    } else {
        false
    }
}

/// The format of the first candidate, in list order, that supports
/// `features` under `tiling`.
pub open spec fn first_supported_format(
    candidates: Seq<FormatProperties>,
    tiling: u32,
    features: u32,
) -> Option<u32>
    decreases candidates.len(),
{
    if candidates.len() == 0 {
        None
    } else if format_supports(candidates[0], tiling, features) {
        Some(candidates[0].format)
    } else {
        first_supported_format(candidates.drop_first(), tiling, features)
    }
}

/// Linear scan over caller-supplied candidate formats in priority order:
/// returns the first whose queried feature flags for the requested memory
/// layout are a superset of the required flags.
pub fn find_supported_format(
    candidates: &Vec<FormatProperties>,
    tiling: u32,
    features: u32,
) -> (r: NeedleErr<u32>)
    ensures
        match r {
            Ok(format) => first_supported_format(candidates@, tiling, features) == Some(format),
            Err(e) => {
                &&& first_supported_format(candidates@, tiling, features) is None
                &&& e is NoSupportedFormat
            },
        },
{
    let n = candidates.len();
    let mut i: usize = 0;
    proof {
        assert(candidates@.skip(0) =~= candidates@);
    }
    while i < n
        invariant
            0 <= i <= n,
            n == candidates@.len(),
            first_supported_format(candidates@, tiling, features) == first_supported_format(
                candidates@.skip(i as int),
                tiling,
                features,
            ),
        decreases n - i,
    {
        let c = candidates[i];
        proof {
            assert(candidates@.skip(i as int)[0] == candidates@[i as int]);
            assert(candidates@.skip(i as int).drop_first() =~= candidates@.skip(i as int + 1));
        }
        if (if tiling == TILING_LINEAR {
            c.linear_tiling_features & features == features
        } else if tiling == TILING_OPTIMAL {
            c.optimal_tiling_features & features == features
        } else {
            false
        }) {
            return Ok(c.format);
        }
        i = i + 1;
    }
    Err(NeedleError::NoSupportedFormat)
}

/// Whether memory type `i` with property flags `flags` satisfies a
/// requirement bitmask and a requested property set.
pub open spec fn memory_type_matches(
    type_filter: u32,
    properties: u32,
    flags: u32,
    i: u32,
) -> bool {
    &&& type_filter & (1u32 << i) != 0
    &&& flags & properties == properties
}

/// First memory type index whose bit is set in `type_filter` and whose
/// property flags are a superset of `properties`; the accelerator reports at
/// most 32 memory types.
pub fn find_memory_type(
    type_filter: u32,
    properties: u32,
    memory_type_flags: &Vec<u32>,
) -> (r: NeedleErr<u32>)
    requires
        memory_type_flags@.len() <= 32,
    ensures
        match r {
            Ok(i) => {
                &&& i < memory_type_flags@.len()
                &&& memory_type_matches(type_filter, properties, memory_type_flags@[i as int], i)
                &&& forall|j: u32|
                    j < i ==> !memory_type_matches(
                        type_filter,
                        properties,
                        #[trigger] memory_type_flags@[j as int],
                        j,
                    )
            },
            Err(e) => {
                &&& e is AllocationFailure
                &&& forall|j: u32|
                    j < memory_type_flags@.len() ==> !memory_type_matches(
                        type_filter,
                        properties,
                        #[trigger] memory_type_flags@[j as int],
                        j,
                    )
            },
        },
{
    let n = memory_type_flags.len();
    let mut i: usize = 0;
    while i < n
        invariant
            0 <= i <= n,
            n == memory_type_flags@.len(),
            n <= 32,
            forall|j: u32|
                j < i ==> !memory_type_matches(
                    type_filter,
                    properties,
                    #[trigger] memory_type_flags@[j as int],
                    j,
                ),
        decreases n - i,
    {
        let flags = memory_type_flags[i];
        if type_filter & (1u32 << (i as u32)) != 0 && flags & properties == properties {
            return Ok(i as u32);
        }
        i = i + 1;
    }
    Err(NeedleError::AllocationFailure)
}

/// Whether a queue family can take graphics work.
pub open spec fn family_accepts_graphics(f: QueueFamilyInfo) -> bool {
    &&& f.queue_count > 0
    &&& f.queue_flags & QUEUE_GRAPHICS_BIT == QUEUE_GRAPHICS_BIT
}

/// Whether a queue family can present to the surface.
pub open spec fn family_accepts_present(f: QueueFamilyInfo) -> bool {
    &&& f.queue_count > 0
    &&& f.supports_present
}

/// The scan `find_queue_families` performs: walk the families in index
/// order, remembering the most recent graphics-capable and present-capable
/// family, and stop as soon as both have been found.
pub open spec fn scan_queue_families(
    families: Seq<QueueFamilyInfo>,
    i: int,
    graphics: Option<u32>,
    present: Option<u32>,
) -> (Option<u32>, Option<u32>)
    decreases families.len() - i,
{
    if i < 0 || i >= families.len() {
        (graphics, present)
    } else {
        let g = if family_accepts_graphics(families[i]) {
            Some(i as u32)
        } else {
            graphics
        };
        let p = if family_accepts_present(families[i]) {
            Some(i as u32)
        } else {
            present
        };
        if g is Some && p is Some {
            (g, p)
        } else {
            scan_queue_families(families, i + 1, g, p)
        }
    }
}

/// Select queue families: the scan stops at the first point where both a
/// graphics-capable and a present-capable family have been seen. Each side
/// of the result is present exactly when some family in the list satisfies
/// that side's condition.
pub fn find_queue_families(families: &Vec<QueueFamilyInfo>) -> (r: QueryFamilyIndices)
    requires
        families@.len() <= u32::MAX,
    ensures
        (r.graphics_family, r.present_family) == scan_queue_families(families@, 0, None, None),
        r.graphics_family is Some <==> exists|i: int|
            0 <= i < families@.len() && family_accepts_graphics(#[trigger] families@[i]),
        r.present_family is Some <==> exists|i: int|
            0 <= i < families@.len() && family_accepts_present(#[trigger] families@[i]),
        r.graphics_family matches Some(g) ==> g < families@.len() && family_accepts_graphics(
            families@[g as int],
        ),
        r.present_family matches Some(p) ==> p < families@.len() && family_accepts_present(
            families@[p as int],
        ),
{
    let n = families.len();
    let mut graphics: Option<u32> = None;
    let mut present: Option<u32> = None;
    let mut idx: usize = 0;
    while idx < n
        invariant
            0 <= idx <= n,
            n == families@.len(),
            n <= u32::MAX,
            scan_queue_families(families@, 0, None, None) == scan_queue_families(
                families@,
                idx as int,
                graphics,
                present,
            ),
            !(graphics is Some && present is Some),
            graphics is Some <==> exists|i: int|
                0 <= i < idx && family_accepts_graphics(#[trigger] families@[i]),
            present is Some <==> exists|i: int|
                0 <= i < idx && family_accepts_present(#[trigger] families@[i]),
            graphics matches Some(g) ==> g < idx && family_accepts_graphics(families@[g as int]),
            present matches Some(p) ==> p < idx && family_accepts_present(families@[p as int]),
        decreases n - idx,
    {
        let fam = families[idx];
        if fam.queue_count > 0 && fam.queue_flags & QUEUE_GRAPHICS_BIT == QUEUE_GRAPHICS_BIT {
            graphics = Some(idx as u32);
        }
        if fam.queue_count > 0 && fam.supports_present {
            present = Some(idx as u32);
        }
        if graphics.is_some() && present.is_some() {
            return QueryFamilyIndices { graphics_family: graphics, present_family: present };
        }
        idx = idx + 1;
    }
    QueryFamilyIndices { graphics_family: graphics, present_family: present }
}

/// The five conditions an accelerator must satisfy: a graphics-capable
/// family, a present-capable family, the presentation extension, non-empty
/// format and present-mode lists, and anisotropic sampling.
pub open spec fn accelerator_suitable(p: AcceleratorProfile) -> bool {
    &&& exists|i: int|
        0 <= i < p.queue_families@.len() && family_accepts_graphics(#[trigger] p.queue_families@[i])
    &&& exists|i: int|
        0 <= i < p.queue_families@.len() && family_accepts_present(#[trigger] p.queue_families@[i])
    &&& p.supports_required_extensions
    &&& p.surface_format_count > 0
    &&& p.present_mode_count > 0
    &&& p.supports_sampler_anisotropy
}

/// Evaluate the five suitability conditions on one accelerator.
pub fn is_device_suitable(profile: &AcceleratorProfile) -> (r: bool)
    requires
        profile.queue_families@.len() <= u32::MAX,
    ensures
        r == accelerator_suitable(*profile),
{
    let indices = find_queue_families(&profile.queue_families);
    indices.is_complete() && profile.supports_required_extensions
        && profile.surface_format_count > 0 && profile.present_mode_count > 0
        && profile.supports_sampler_anisotropy
}

/// Select the first suitable accelerator, in enumeration order; none
/// suitable (or none present) is a fatal error.
pub fn pick_physical_device(profiles: &Vec<AcceleratorProfile>) -> (r: NeedleErr<usize>)
    requires
        forall|i: int|
            0 <= i < profiles@.len() ==> (#[trigger] profiles@[i]).queue_families@.len()
                <= u32::MAX,
    ensures
        match r {
            Ok(i) => {
                &&& 0 <= i < profiles@.len()
                &&& accelerator_suitable(profiles@[i as int])
                &&& forall|j: int| 0 <= j < i ==> !accelerator_suitable(#[trigger] profiles@[j])
            },
            Err(e) => {
                &&& e is NoSuitableAccelerator
                &&& forall|j: int|
                    0 <= j < profiles@.len() ==> !accelerator_suitable(#[trigger] profiles@[j])
            },
        },
{
    let n = profiles.len();
    let mut i: usize = 0;
    while i < n
        invariant
            0 <= i <= n,
            n == profiles@.len(),
            forall|j: int|
                0 <= j < profiles@.len() ==> (#[trigger] profiles@[j]).queue_families@.len()
                    <= u32::MAX,
            forall|j: int| 0 <= j < i ==> !accelerator_suitable(#[trigger] profiles@[j]),
        decreases n - i,
    {
        if is_device_suitable(&profiles[i]) {
            return Ok(i);
        }
        i = i + 1;
    }
    Err(NeedleError::NoSuitableAccelerator)
}

/// Byte-for-byte equality of two names.
pub fn bytes_eq(a: &Vec<u8>, b: &Vec<u8>) -> (r: bool)
    ensures
        r == (a@ =~= b@),
{
    if a.len() != b.len() {
        return false;
    }
    let n = a.len();
    let mut i: usize = 0;
    while i < n
        invariant
            0 <= i <= n,
            n == a@.len(),
            n == b@.len(),
            forall|j: int| 0 <= j < i ==> a@[j] == b@[j],
        decreases n - i,
    {
        if a[i] != b[i] {
            return false;
        }
        i = i + 1;
    }
    true
}

/// Whether `name` occurs in `available`.
pub open spec fn name_available(name: Seq<u8>, available: Seq<Vec<u8>>) -> bool {
    exists|j: int| 0 <= j < available.len() && (#[trigger] available[j])@ =~= name
}

/// Whether every required name (a validation layer, an instance extension,
/// a device extension) occurs in the list the driver advertises.
pub fn supports_required_names(required: &Vec<Vec<u8>>, available: &Vec<Vec<u8>>) -> (r: bool)
    ensures
        r == forall|i: int|
            0 <= i < required@.len() ==> name_available((#[trigger] required@[i])@, available@),
{
    let n = required.len();
    let mut i: usize = 0;
    while i < n
        invariant
            0 <= i <= n,
            n == required@.len(),
            forall|k: int| 0 <= k < i ==> name_available((#[trigger] required@[k])@, available@),
        decreases n - i,
    {
        let m = available.len();
        let mut j: usize = 0;
        let mut found = false;
        while j < m
            invariant
                0 <= j <= m,
                m == available@.len(),
                0 <= i < n,
                n == required@.len(),
                found ==> name_available(required@[i as int]@, available@),
                !found ==> forall|l: int|
                    0 <= l < j ==> !((#[trigger] available@[l])@ =~= required@[i as int]@),
            decreases m - j,
        {
            if bytes_eq(&required[i], &available[j]) {
                found = true;
                proof {
                    assert(name_available(required@[i as int]@, available@));
                }
            }
            j = j + 1;
        }
        if !found {
            proof {
                assert(!name_available(required@[i as int]@, available@));
            }
            return false;
        }
        i = i + 1;
    }
    true
}

/// One step of the context teardown sequence.
#[derive(Debug, Clone, Copy, PartialEq, Eq, Structural)]
pub enum TeardownStep {
    CommandPool,
    Device,
    Surface,
    DebugMessenger,
    Instance,
}

/// The order in which the graphics context's resources must be released:
/// each later resource is only valid while the earlier ones live, so the
/// pool goes first and the instance last. The debug messenger exists only
/// in debug configurations and is released between the surface and the
/// instance.
pub fn device_teardown_order(debug_enabled: bool) -> (r: Vec<TeardownStep>)
    ensures
        debug_enabled ==> r@ =~= seq![
            TeardownStep::CommandPool,
            TeardownStep::Device,
            TeardownStep::Surface,
            TeardownStep::DebugMessenger,
            TeardownStep::Instance,
        ],
        !debug_enabled ==> r@ =~= seq![
            TeardownStep::CommandPool,
            TeardownStep::Device,
            TeardownStep::Surface,
            TeardownStep::Instance,
        ],
{
    let mut order: Vec<TeardownStep> = Vec::new();
    order.push(TeardownStep::CommandPool);
    order.push(TeardownStep::Device);
    order.push(TeardownStep::Surface);
    if debug_enabled {
        order.push(TeardownStep::DebugMessenger);
    }
    order.push(TeardownStep::Instance);
    order
}

} // verus!
