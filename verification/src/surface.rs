//! Plain-data model of the presentation surface's query results.
//!
//! The driver reports pixel formats, color spaces, present modes and
//! capability bounds as numeric codes; the shell copies them into these
//! structures unchanged, so every selection rule in this crate is stated
//! and verified over the same values the driver uses.

use vstd::prelude::*;

verus! {

// Pixel-format codes, as the graphics API numbers them.
pub const FORMAT_UNDEFINED: u32 = 0;
pub const FORMAT_R8G8B8A8_SRGB: u32 = 43;
pub const FORMAT_B8G8R8A8_SRGB: u32 = 50;
pub const FORMAT_D32_SFLOAT: u32 = 126;
pub const FORMAT_D24_UNORM_S8_UINT: u32 = 129;
pub const FORMAT_D32_SFLOAT_S8_UINT: u32 = 130;

// Color-space codes.
pub const COLOR_SPACE_SRGB_NONLINEAR: u32 = 0;

// Present-mode codes.
pub const PRESENT_MODE_IMMEDIATE: u32 = 0;
pub const PRESENT_MODE_MAILBOX: u32 = 1;
pub const PRESENT_MODE_FIFO: u32 = 2;

/// The sentinel a surface reports as its current extent when the swap chain
/// may pick any extent within the advertised bounds.
pub const ADAPTIVE_EXTENT: u32 = 0xffff_ffff;

/// A pixel extent in width and height.
#[derive(Debug, Clone, Copy, PartialEq, Eq, Structural)]
pub struct Extent2D {
    pub width: u32,
    pub height: u32,
}

/// A supported presentation format: a pixel layout paired with a color
/// space.
#[derive(Debug, Clone, Copy, PartialEq, Eq, Structural)]
pub struct SurfaceFormat {
    pub format: u32,
    pub color_space: u32,
}

/// Capability bounds a surface reports for one accelerator.
#[derive(Debug, Clone, Copy, PartialEq, Eq, Structural)]
pub struct SurfaceCapabilities {
    /// Fewest images a swap chain on this surface may hold.
    pub min_image_count: u32,
    /// Most images a swap chain may hold; `0` means unbounded.
    pub max_image_count: u32,
    /// The surface's fixed extent, or [`ADAPTIVE_EXTENT`] in both axes when
    /// the swap chain may choose within the bounds below.
    pub current_extent: Extent2D,
    pub min_image_extent: Extent2D,
    pub max_image_extent: Extent2D,
}

/// Everything a swap chain needs to know about a surface, gathered by one
/// capability query: bounds, the supported formats in the order the driver
/// lists them, and the supported present modes.
#[derive(Debug)]
pub struct SwapchainSupportDetails {
    pub capabilities: SurfaceCapabilities,
    pub formats: Vec<SurfaceFormat>,
    pub present_modes: Vec<u32>,
}

} // verus!
