//! Swap-chain configuration and the swap chain's synchronization state.
//!
//! Everything the swap chain decides — which surface format, which present
//! mode, which extent, how many images, which depth format, how the render
//! pass's attachments behave, in which order resources are torn down — is
//! computed here over the plain-data surface model and verified. The shell
//! hands the resulting [`SwapchainPlan`] to the driver and reports back how
//! many images the driver actually delivered.

use crate::device::query_family::QueryFamilyIndices;
use crate::device::{
    find_supported_format, first_supported_format, FormatProperties,
    FORMAT_FEATURE_DEPTH_STENCIL_ATTACHMENT, TILING_OPTIMAL,
};
use crate::error::{NeedleErr, NeedleError};
use crate::surface::{
    Extent2D, SurfaceCapabilities, SurfaceFormat, SwapchainSupportDetails, ADAPTIVE_EXTENT,
    COLOR_SPACE_SRGB_NONLINEAR, FORMAT_D24_UNORM_S8_UINT, FORMAT_D32_SFLOAT,
    FORMAT_D32_SFLOAT_S8_UINT, FORMAT_R8G8B8A8_SRGB, FORMAT_UNDEFINED, PRESENT_MODE_FIFO,
    PRESENT_MODE_MAILBOX,
};
use vstd::prelude::*;

verus! {

/// How many frame slots cycle round-robin: the bound on CPU work submitted
/// ahead of the GPU.
pub const FRAMES_IN_FLIGHT: usize = 2;

/// The preferred presentation format: 8-bit-per-channel sRGB.
pub open spec fn preferred_surface_format() -> SurfaceFormat {
    SurfaceFormat { format: FORMAT_R8G8B8A8_SRGB, color_space: COLOR_SPACE_SRGB_NONLINEAR }
}

/// Which format `choose_swap_surface_format` picks from a non-empty list:
/// the preferred sRGB format when present, the first listed otherwise.
pub open spec fn chosen_surface_format(formats: Seq<SurfaceFormat>) -> SurfaceFormat {
    if formats.contains(preferred_surface_format()) {
        preferred_surface_format()
    } else {
        formats[0]
    }
}

/// Prefer the 8-bit-per-channel sRGB format when the surface supports it;
/// otherwise take the first supported format. An empty list is a fatal
/// error: the accelerator cannot present at all.
pub fn choose_swap_surface_format(available_formats: &Vec<SurfaceFormat>) -> (r: NeedleErr<
    SurfaceFormat,
>)
    ensures
        match r {
            Ok(format) => {
                &&& available_formats@.len() > 0
                &&& format == chosen_surface_format(available_formats@)
            },
            Err(e) => {
                &&& available_formats@.len() == 0
                &&& e is NoSupportedFormat
            },
        },
{
    let target = SurfaceFormat {
        format: FORMAT_R8G8B8A8_SRGB,
        color_space: COLOR_SPACE_SRGB_NONLINEAR,
    };
    let n = available_formats.len();
    let mut i: usize = 0;
    while i < n
        invariant
            0 <= i <= n,
            n == available_formats@.len(),
            target == preferred_surface_format(),
            forall|j: int| 0 <= j < i ==> available_formats@[j] != preferred_surface_format(),
        decreases n - i,
    {
        if available_formats[i] == target {
            return Ok(target);
        }
        i = i + 1;
    }
    proof {
        assert(!available_formats@.contains(preferred_surface_format()));
    }
    if n > 0 {
        Ok(available_formats[0])
    } else {
        Err(NeedleError::NoSupportedFormat)
    }
}

/// Which mode `choose_swap_present_mode` picks: the low-latency mailbox mode
/// when supported, the universally supported first-in-first-out (vsync) mode
/// otherwise.
pub open spec fn chosen_present_mode(modes: Seq<u32>) -> u32 {
    if modes.contains(PRESENT_MODE_MAILBOX) {
        PRESENT_MODE_MAILBOX
    } else {
        PRESENT_MODE_FIFO
    }
}

/// Prefer the low-latency mailbox mode; fall back to first-in-first-out,
/// which every surface supports.
pub fn choose_swap_present_mode(available_present_modes: &Vec<u32>) -> (r: u32)
    ensures
        r == chosen_present_mode(available_present_modes@),
{
    let n = available_present_modes.len();
    let mut i: usize = 0;
    while i < n
        invariant
            0 <= i <= n,
            n == available_present_modes@.len(),
            forall|j: int| 0 <= j < i ==> available_present_modes@[j] != PRESENT_MODE_MAILBOX,
        decreases n - i,
    {
        if available_present_modes[i] == PRESENT_MODE_MAILBOX {
            return PRESENT_MODE_MAILBOX;
        }
        i = i + 1;
    }
    proof {
        assert(!available_present_modes@.contains(PRESENT_MODE_MAILBOX));
    }
    PRESENT_MODE_FIFO
}

/// `v` clamped into `[lo, hi]`, computed as `max(lo, min(hi, v))`: callers
/// pass `lo <= hi`, and when they do not, the lower bound wins.
pub open spec fn clamp_u32(lo: u32, hi: u32, v: u32) -> u32 {
    let capped = if v < hi {
        v
    } else {
        hi
    };
    if capped < lo {
        lo
    } else {
        capped
    }
}

/// Which extent `choose_swap_extent` picks: the surface's fixed current
/// extent verbatim, unless the surface reports the adaptive sentinel, in
/// which case the window's extent clamped into the surface's bounds per
/// axis.
pub open spec fn chosen_extent(window_extent: Extent2D, caps: SurfaceCapabilities) -> Extent2D {
    if caps.current_extent.width != ADAPTIVE_EXTENT {
        caps.current_extent
    } else {
        Extent2D {
            width: clamp_u32(
                caps.min_image_extent.width,
                caps.max_image_extent.width,
                window_extent.width,
            ),
            height: clamp_u32(
                caps.min_image_extent.height,
                caps.max_image_extent.height,
                window_extent.height,
            ),
        }
    }
}

/// Pick the swap extent from the window's requested extent and the
/// surface's capability bounds.
pub fn choose_swap_extent(window_extent: &Extent2D, capabilities: &SurfaceCapabilities) -> (r:
    Extent2D)
    ensures
        r == chosen_extent(*window_extent, *capabilities),
{
    if capabilities.current_extent.width != ADAPTIVE_EXTENT {
        capabilities.current_extent
    } else {
        let width_cap = if window_extent.width < capabilities.max_image_extent.width {
            window_extent.width
        } else {
            capabilities.max_image_extent.width
        };
        let width = if width_cap < capabilities.min_image_extent.width {
            capabilities.min_image_extent.width
        } else {
            width_cap
        };
        let height_cap = if window_extent.height < capabilities.max_image_extent.height {
            window_extent.height
        } else {
            capabilities.max_image_extent.height
        };
        let height = if height_cap < capabilities.min_image_extent.height {
            capabilities.min_image_extent.height
        } else {
            height_cap
        };
        Extent2D { width, height }
    }
}

/// How many images `choose_image_count` requests: one more than the
/// surface's minimum, capped at the surface's maximum unless the maximum is
/// zero, which means unbounded.
pub open spec fn chosen_image_count(caps: SurfaceCapabilities) -> u32 {
    if caps.max_image_count > 0 && caps.min_image_count + 1 > caps.max_image_count {
        caps.max_image_count
    } else {
        (caps.min_image_count + 1) as u32
    }
}

/// Request one image more than the minimum, so rendering need not wait for
/// the driver to release an image, bounded by the surface's maximum when one
/// exists.
pub fn choose_image_count(capabilities: &SurfaceCapabilities) -> (r: u32)
    requires
        capabilities.min_image_count < u32::MAX,
    ensures
        r == chosen_image_count(*capabilities),
        capabilities.max_image_count == 0 ==> r == capabilities.min_image_count + 1,
        capabilities.max_image_count > 0 && capabilities.min_image_count + 1
            > capabilities.max_image_count ==> r == capabilities.max_image_count,
{
    if capabilities.max_image_count > 0 && capabilities.min_image_count + 1
        > capabilities.max_image_count {
        capabilities.max_image_count
    } else {
        capabilities.min_image_count + 1
    }
}

/// The fixed depth-format preference order: 32-bit float depth, then 32-bit
/// float depth with 8-bit stencil, then 24-bit depth with 8-bit stencil.
pub fn depth_format_candidates() -> (r: Vec<u32>)
    ensures
        r@ =~= seq![FORMAT_D32_SFLOAT, FORMAT_D32_SFLOAT_S8_UINT, FORMAT_D24_UNORM_S8_UINT],
{
    let mut candidates: Vec<u32> = Vec::new();
    candidates.push(FORMAT_D32_SFLOAT);
    candidates.push(FORMAT_D32_SFLOAT_S8_UINT);
    candidates.push(FORMAT_D24_UNORM_S8_UINT);
    candidates
}

/// Select the depth-buffer format: the first of the queried candidates that
/// offers the depth/stencil-attachment feature under tiled layout. The shell
/// queries the accelerator once per entry of [`depth_format_candidates`], in
/// that order, and passes the results here.
pub fn find_depth_format(candidates: &Vec<FormatProperties>) -> (r: NeedleErr<u32>)
    ensures
        match r {
            Ok(format) => first_supported_format(
                candidates@,
                TILING_OPTIMAL,
                FORMAT_FEATURE_DEPTH_STENCIL_ATTACHMENT,
            ) == Some(format),
            Err(e) => {
                &&& first_supported_format(
                    candidates@,
                    TILING_OPTIMAL,
                    FORMAT_FEATURE_DEPTH_STENCIL_ATTACHMENT,
                ) is None
                &&& e is NoSupportedFormat
            },
        },
{
    find_supported_format(candidates, TILING_OPTIMAL, FORMAT_FEATURE_DEPTH_STENCIL_ATTACHMENT)
}

/// Everything the driver needs to build the swap chain, computed from one
/// capability query.
#[derive(Debug, Clone, Copy, PartialEq, Eq, Structural)]
pub struct SwapchainPlan {
    pub surface_format: SurfaceFormat,
    pub present_mode: u32,
    pub extent: Extent2D,
    /// How many images to request; the driver may deliver more.
    pub image_count: u32,
    pub depth_format: u32,
    /// True when graphics and present use different queue families, so the
    /// images must be shared between the two.
    pub sharing_concurrent: bool,
    pub graphics_family: u32,
    pub present_family: u32,
}

/// Compute the whole swap-chain configuration from the surface's capability
/// query, the window's extent, the selected queue families, and the already
/// selected depth format. Fails when the surface offers no format at all or
/// when either queue family is missing.
pub fn plan_swapchain(
    support: &SwapchainSupportDetails,
    window_extent: &Extent2D,
    indices: &QueryFamilyIndices,
    depth_format: u32,
) -> (r: NeedleErr<SwapchainPlan>)
    requires
        support.capabilities.min_image_count < u32::MAX,
    ensures
        match r {
            Ok(plan) => {
                &&& support.formats@.len() > 0
                &&& indices.graphics_family is Some
                &&& indices.present_family is Some
                &&& plan.surface_format == chosen_surface_format(support.formats@)
                &&& plan.present_mode == chosen_present_mode(support.present_modes@)
                &&& plan.extent == chosen_extent(*window_extent, support.capabilities)
                &&& plan.image_count == chosen_image_count(support.capabilities)
                &&& plan.depth_format == depth_format
                &&& plan.graphics_family == indices.graphics_family->0
                &&& plan.present_family == indices.present_family->0
                &&& plan.sharing_concurrent == (indices.graphics_family->0
                    != indices.present_family->0)
            },
            Err(e) => match e {
                NeedleError::NoSupportedFormat => support.formats@.len() == 0,
                NeedleError::QueueFamilyIncomplete => {
                    &&& support.formats@.len() > 0
                    &&& !(indices.graphics_family is Some && indices.present_family is Some)
                },
                _ => false,
            },
        },
{
    let surface_format = match choose_swap_surface_format(&support.formats) {
        Ok(format) => format,
        Err(e) => {
            return Err(e);
        },
    };
    let present_mode = choose_swap_present_mode(&support.present_modes);
    let extent = choose_swap_extent(window_extent, &support.capabilities);
    let image_count = choose_image_count(&support.capabilities);
    let (graphics_family, present_family) = match (indices.graphics_family, indices.present_family) {
        (Some(graphics), Some(present)) => (graphics, present),
        _ => {
            return Err(NeedleError::QueueFamilyIncomplete);
        },
    };
    Ok(
        SwapchainPlan {
            surface_format,
            present_mode,
            extent,
            image_count,
            depth_format,
            sharing_concurrent: graphics_family != present_family,
            graphics_family,
            present_family,
        },
    )
}

/// The swap chain's verified state: the formats and extent it was built
/// with, how many images the driver delivered, and the synchronization
/// protocol's bookkeeping — one reusable fence per frame slot and, per
/// image, which slot's fence last used it.
#[derive(Debug)]
pub struct Swapchain {
    pub image_format: u32,
    pub color_space: u32,
    pub depth_format: u32,
    pub present_mode: u32,
    pub extent: Extent2D,
    pub window_extent: Extent2D,
    /// How many presentable images the driver delivered.
    pub image_count: usize,
    /// Whether each frame slot's fence is signaled: `true` means the GPU has
    /// finished (or never received) the work that last used the slot, so
    /// waiting on the fence returns without blocking.
    pub slot_fence_signaled: Vec<bool>,
    /// For each presentable image, the frame slot whose submission last
    /// wrote it, or `None` before its first use.
    pub images_in_flight: Vec<Option<usize>>,
    /// The frame slot the next frame will use; cycles modulo
    /// [`FRAMES_IN_FLIGHT`].
    pub current_frame: usize,
}

impl Swapchain {
    /// The structural invariant every live swap chain keeps.
    pub open spec fn well_formed(&self) -> bool {
        &&& self.slot_fence_signaled@.len() == FRAMES_IN_FLIGHT
        &&& self.images_in_flight@.len() == self.image_count
        &&& self.current_frame < FRAMES_IN_FLIGHT
        &&& forall|i: int|
            0 <= i < self.images_in_flight@.len() ==> match #[trigger] self.images_in_flight@[i] {
                Some(slot) => slot < FRAMES_IN_FLIGHT,
                None => true,
            }
    }

    /// Build the swap chain's state from its plan once the driver reports
    /// how many images it delivered. Every frame slot's fence starts
    /// signaled, so the first frame never blocks, and no image is in flight.
    pub fn new(plan: &SwapchainPlan, window_extent: &Extent2D, image_count: usize) -> (r: Self)
        requires
            image_count >= 1,
        ensures
            r.well_formed(),
            r.image_format == plan.surface_format.format,
            r.color_space == plan.surface_format.color_space,
            r.depth_format == plan.depth_format,
            r.present_mode == plan.present_mode,
            r.extent == plan.extent,
            r.window_extent == *window_extent,
            r.image_count == image_count,
            forall|i: int| 0 <= i < FRAMES_IN_FLIGHT ==> r.slot_fence_signaled@[i],
            forall|i: int| 0 <= i < image_count ==> r.images_in_flight@[i] is None,
            r.current_frame == 0,
    {
        let mut slot_fence_signaled: Vec<bool> = Vec::new();
        let mut i: usize = 0;
        while i < FRAMES_IN_FLIGHT
            invariant
                0 <= i <= FRAMES_IN_FLIGHT,
                slot_fence_signaled@.len() == i,
                forall|j: int| 0 <= j < i ==> slot_fence_signaled@[j],
            decreases FRAMES_IN_FLIGHT - i,
        {
            slot_fence_signaled.push(true);
            i = i + 1;
        }
        let mut images_in_flight: Vec<Option<usize>> = Vec::new();
        let mut k: usize = 0;
        while k < image_count
            invariant
                0 <= k <= image_count,
                images_in_flight@.len() == k,
                forall|j: int| 0 <= j < k ==> images_in_flight@[j] is None,
            decreases image_count - k,
        {
            images_in_flight.push(None);
            k = k + 1;
        }
        Swapchain {
            image_format: plan.surface_format.format,
            color_space: plan.surface_format.color_space,
            depth_format: plan.depth_format,
            present_mode: plan.present_mode,
            extent: plan.extent,
            window_extent: *window_extent,
            image_count,
            slot_fence_signaled,
            images_in_flight,
            current_frame: 0,
        }
    }

    /// A placeholder with no images and no synchronization state, used
    /// before the first real swap chain exists.
    pub fn null() -> (r: Self)
        ensures
            r.image_format == FORMAT_UNDEFINED,
            r.depth_format == FORMAT_UNDEFINED,
            r.image_count == 0,
            r.slot_fence_signaled@.len() == 0,
            r.images_in_flight@.len() == 0,
            r.current_frame == 0,
            r.extent == (Extent2D { width: 0, height: 0 }),
            r.window_extent == (Extent2D { width: 0, height: 0 }),
    {
        Swapchain {
            image_format: FORMAT_UNDEFINED,
            color_space: 0,
            depth_format: FORMAT_UNDEFINED,
            present_mode: PRESENT_MODE_FIFO,
            extent: Extent2D { width: 0, height: 0 },
            window_extent: Extent2D { width: 0, height: 0 },
            image_count: 0,
            slot_fence_signaled: Vec::new(),
            images_in_flight: Vec::new(),
            current_frame: 0,
        }
    }

    /// Color-format and depth-format equality with another swap chain: a
    /// recreation whose formats differ from the chain it replaces must be
    /// rejected.
    pub fn compare_swap_formats(&self, swapchain: &Self) -> (r: bool)
        ensures
            r == (self.image_format == swapchain.image_format && self.depth_format
                == swapchain.depth_format),
    {
        self.image_format == swapchain.image_format && self.depth_format
            == swapchain.depth_format
    }
}

/// What a render-pass attachment does with its contents at the start and
/// end of the pass.
#[derive(Debug, Clone, Copy, PartialEq, Eq, Structural)]
pub enum LoadOp {
    Clear,
    DontCare,
}

#[derive(Debug, Clone, Copy, PartialEq, Eq, Structural)]
pub enum StoreOp {
    Store,
    DontCare,
}

/// One attachment of the render pass.
#[derive(Debug, Clone, Copy, PartialEq, Eq, Structural)]
pub struct AttachmentPlan {
    pub format: u32,
    pub load_op: LoadOp,
    pub store_op: StoreOp,
}

/// The render pass's fixed shape: a color attachment and a depth
/// attachment, and one subpass dependency guarding both writes.
#[derive(Debug, Clone, Copy, PartialEq, Eq, Structural)]
pub struct RenderPassPlan {
    pub color: AttachmentPlan,
    pub depth: AttachmentPlan,
    /// The dependency orders attachment writes after the color-attachment-
    /// output stage of whatever used the image before.
    pub waits_color_attachment_output: bool,
    /// ... and after the early-fragment-test stage.
    pub waits_early_fragment_tests: bool,
}

/// The render pass this swap chain draws with: color is cleared on load and
/// stored, depth is cleared on load and discarded on store, and a single
/// dependency holds both writes until the acquired image is really
/// available.
pub fn render_pass_plan(image_format: u32, depth_format: u32) -> (r: RenderPassPlan)
    ensures
        r.color == (AttachmentPlan {
            format: image_format,
            load_op: LoadOp::Clear,
            store_op: StoreOp::Store,
        }),
        r.depth == (AttachmentPlan {
            format: depth_format,
            load_op: LoadOp::Clear,
            store_op: StoreOp::DontCare,
        }),
        r.waits_color_attachment_output,
        r.waits_early_fragment_tests,
{
    RenderPassPlan {
        color: AttachmentPlan {
            format: image_format,
            load_op: LoadOp::Clear,
            store_op: StoreOp::Store,
        },
        depth: AttachmentPlan {
            format: depth_format,
            load_op: LoadOp::Clear,
            store_op: StoreOp::DontCare,
        },
        waits_color_attachment_output: true,
        waits_early_fragment_tests: true,
    }
}

/// One step of the swap-chain teardown sequence.
#[derive(Debug, Clone, Copy, PartialEq, Eq, Structural)]
pub enum SwapchainTeardownStep {
    ImageViews,
    SwapchainHandle,
    DepthResources,
    Framebuffers,
    RenderPass,
    SyncObjects,
}

/// The order in which a swap chain's resources are released. The caller
/// must have waited for the device to go idle first: no step may run while
/// GPU work still references the chain.
pub fn swapchain_teardown_order() -> (r: Vec<SwapchainTeardownStep>)
    ensures
        r@ =~= seq![
            SwapchainTeardownStep::ImageViews,
            SwapchainTeardownStep::SwapchainHandle,
            SwapchainTeardownStep::DepthResources,
            SwapchainTeardownStep::Framebuffers,
            SwapchainTeardownStep::RenderPass,
            SwapchainTeardownStep::SyncObjects,
        ],
{
    let mut order: Vec<SwapchainTeardownStep> = Vec::new();
    order.push(SwapchainTeardownStep::ImageViews);
    order.push(SwapchainTeardownStep::SwapchainHandle);
    order.push(SwapchainTeardownStep::DepthResources);
    order.push(SwapchainTeardownStep::Framebuffers);
    order.push(SwapchainTeardownStep::RenderPass);
    order.push(SwapchainTeardownStep::SyncObjects);
    order
}

} // verus!
