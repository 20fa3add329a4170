//! Core library for a GPU clock application: device and queue selection,
//! presentation-surface capability handling, swap-chain configuration, the
//! per-frame synchronization protocol, and the supporting clock/timer and
//! command-line state logic.
//!
//! The library models every driver-facing value (formats, present modes,
//! capability bounds, synchronization primitives) as plain data, so the
//! selection rules and the frame protocol are fully specified and verified.
//! A thin unverified shell owns the actual driver handles and feeds their
//! query results into these functions.

use vstd::prelude::*;

pub mod config;
pub mod device;
pub mod error;
pub mod info;
pub mod mode;
pub mod options;
pub mod renderer;
pub mod surface;
pub mod swapchain;
pub mod time;

verus! {

/// Name and version of this library, as one string.
pub fn version_info() -> (r: String)
    ensures
        r@ == "needle_core 0.1.0"@,
{
    String::from_str("needle_core 0.1.0")
}

/// Labels attached to driver objects when they are created, so that
/// diagnostics can name the object's role.
#[derive(Debug)]
pub enum NeedleLabel<'a> {
    Device(&'a str),
    PipelineLayout(&'a str),
    Pipeline(&'a str),
    CommandEncoder(&'a str),
    RenderPass(&'a str),
    Shader(&'a str),
    Texture(&'a str),
}

impl NeedleLabel<'_> {
    /// The same constant text for every label kind and every payload: the
    /// formatting arguments as literal source text, not a rendered label
    /// name.
    pub fn as_str(&self) -> (r: &str)
        ensures
            r@ == "\"{}\", self"@,
    {
        "\"{}\", self"
    }
}

} // verus!
