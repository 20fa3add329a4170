//! The closed set of named error conditions the library reports.
//!
//! Driver status codes never escape this crate: callers pattern-match these
//! variants to tell fatal conditions (device selection or allocation
//! failures, a lost device, a format change on recreation) from conditions
//! their own configuration caused.

use crate::config::Position;
use vstd::prelude::*;

verus! {

/// Every error condition the library can report.
#[derive(Debug)]
pub enum NeedleError {
    // Configuration handling
    InvalidPath,
    ConfigExists,
    ConfigNonExistant(String),
    InvalidFpsTextPosition(Position),
    TextPositionOverlapping,

    // Device and surface construction (fatal)
    NoSuitableAccelerator,
    QueueFamilyIncomplete,
    InstanceCreationFailure,
    NoSupportedFormat,
    AllocationFailure,
    SurfaceQueryFailure,
    FormatMismatch,

    // Presentation (fatal when surfaced to the caller)
    Lost,
    Outdated,
    OutOfMemory,
    Timeout,

    // Rendering
    RemovedFromAtlas,
    ScreenResolutionChanged,
    InvalidBufferRegistration,

    // Shader download
    InvalidURLFormat,
    CallbackError,
    ShaderDownloadFailure,
    WriteError,

    // Anything else
    Other,
}

pub type NeedleErr<T> = Result<T, NeedleError>;

impl NeedleError {
    /// A fixed description of the condition; the part of the message that
    /// does not depend on the variant's payload.
    pub fn message(&self) -> (r: &str)
        ensures
            r@ == self.message_spec(),
    {
        match self {
            NeedleError::InvalidPath => "AppConfig | Invalid path",
            NeedleError::ConfigExists => "AppConfig | Config already exists",
            NeedleError::ConfigNonExistant(_) => "AppConfig | Config file doesn't exist",
            NeedleError::InvalidFpsTextPosition(_) => {
                "AppConfig | Text position is invalid. Must be corners."
            },
            NeedleError::TextPositionOverlapping => {
                "AppConfig | Text position for FPS and time is overlapping"
            },
            NeedleError::NoSuitableAccelerator => "Device | No suitable accelerator",
            NeedleError::QueueFamilyIncomplete => "Device | Queue family selection incomplete",
            NeedleError::InstanceCreationFailure => "Device | Instance creation failed",
            NeedleError::NoSupportedFormat => "Device | No supported format",
            NeedleError::AllocationFailure => "Device | Allocation failed",
            NeedleError::SurfaceQueryFailure => "Surface | Capability query failed",
            NeedleError::FormatMismatch => "Surface | Swapchain format has changed",
            NeedleError::Lost => "Surface | Lost",
            NeedleError::Outdated => "Surface | Outdated",
            NeedleError::OutOfMemory => "Surface | Out of memory",
            NeedleError::Timeout => "Surface | Timeout",
            NeedleError::RemovedFromAtlas => "Renderer | Removed from atlas",
            NeedleError::ScreenResolutionChanged => "Renderer | Screen resolution changed",
            NeedleError::InvalidBufferRegistration => {
                "Renderer | Buffer without bind group/bind group layout has been registered"
            },
            NeedleError::InvalidURLFormat => "URL | Invalid URL format detected",
            NeedleError::CallbackError => "URL | Error detected in callback function",
            NeedleError::ShaderDownloadFailure => "URL | Failed to download shader",
            NeedleError::WriteError => "URL | Failed to write to file",
            NeedleError::Other => {
                "Other | Unknown error has been detected! Please file an issue to the repository if possible."
            },
        }
    }

    /// What `message` returns for each variant.
    pub open spec fn message_spec(&self) -> Seq<char> {
        match self {
            NeedleError::InvalidPath => "AppConfig | Invalid path"@,
            NeedleError::ConfigExists => "AppConfig | Config already exists"@,
            NeedleError::ConfigNonExistant(_) => "AppConfig | Config file doesn't exist"@,
            NeedleError::InvalidFpsTextPosition(_) => {
                "AppConfig | Text position is invalid. Must be corners."@
            },
            NeedleError::TextPositionOverlapping => {
                "AppConfig | Text position for FPS and time is overlapping"@
            },
            NeedleError::NoSuitableAccelerator => "Device | No suitable accelerator"@,
            NeedleError::QueueFamilyIncomplete => "Device | Queue family selection incomplete"@,
            NeedleError::InstanceCreationFailure => "Device | Instance creation failed"@,
            NeedleError::NoSupportedFormat => "Device | No supported format"@,
            NeedleError::AllocationFailure => "Device | Allocation failed"@,
            NeedleError::SurfaceQueryFailure => "Surface | Capability query failed"@,
            NeedleError::FormatMismatch => "Surface | Swapchain format has changed"@,
            NeedleError::Lost => "Surface | Lost"@,
            NeedleError::Outdated => "Surface | Outdated"@,
            NeedleError::OutOfMemory => "Surface | Out of memory"@,
            NeedleError::Timeout => "Surface | Timeout"@,
            NeedleError::RemovedFromAtlas => "Renderer | Removed from atlas"@,
            NeedleError::ScreenResolutionChanged => "Renderer | Screen resolution changed"@,
            NeedleError::InvalidBufferRegistration => {
                "Renderer | Buffer without bind group/bind group layout has been registered"@
            },
            NeedleError::InvalidURLFormat => "URL | Invalid URL format detected"@,
            NeedleError::CallbackError => "URL | Error detected in callback function"@,
            NeedleError::ShaderDownloadFailure => "URL | Failed to download shader"@,
            NeedleError::WriteError => "URL | Failed to write to file"@,
            NeedleError::Other => {
                "Other | Unknown error has been detected! Please file an issue to the repository if possible."@
            },
        }
    }

    /// True for the conditions the caller must treat as fatal to the
    /// rendering session; the remaining variants concern configuration or
    /// auxiliary features.
    pub fn is_fatal_render_error(&self) -> (r: bool)
        ensures
            r == (self is NoSuitableAccelerator || self is QueueFamilyIncomplete
                || self is InstanceCreationFailure || self is NoSupportedFormat
                || self is AllocationFailure || self is SurfaceQueryFailure
                || self is FormatMismatch || self is Lost || self is OutOfMemory),
    {
        match self {
            NeedleError::NoSuitableAccelerator
            | NeedleError::QueueFamilyIncomplete
            | NeedleError::InstanceCreationFailure
            | NeedleError::NoSupportedFormat
            | NeedleError::AllocationFailure
            | NeedleError::SurfaceQueryFailure
            | NeedleError::FormatMismatch
            | NeedleError::Lost
            | NeedleError::OutOfMemory => true,
            _ => false,
        }
    }
}

} // verus!
