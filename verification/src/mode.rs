//! The settings-overlay pages, and their wire encoding.

use vstd::prelude::*;

verus! {

/// Which page of the settings overlay is selected. `Invalid` stands for any
/// out-of-range encoding.
#[derive(Debug, Clone, Copy, PartialEq, Eq, Structural)]
pub enum ImguiMode {
    Background,
    ClockTimer,
    Fps,
    Invalid,
}

impl ImguiMode {
    /// The numeric encoding of this page; `Invalid` encodes as the type's
    /// maximum.
    pub fn encode(&self) -> (r: u32)
        ensures
            r == match self {
                ImguiMode::Background => 0u32,
                ImguiMode::ClockTimer => 1u32,
                ImguiMode::Fps => 2u32,
                ImguiMode::Invalid => u32::MAX,
            },
    {
        match self {
            ImguiMode::Background => 0,
            ImguiMode::ClockTimer => 1,
            ImguiMode::Fps => 2,
            ImguiMode::Invalid => u32::MAX,
        }
    }

    /// The page a numeric value selects; anything out of range is
    /// `Invalid`.
    pub fn decode(value: u32) -> (r: Self)
        ensures
            r == match value {
                0u32 => ImguiMode::Background,
                1u32 => ImguiMode::ClockTimer,
                2u32 => ImguiMode::Fps,
                _ => ImguiMode::Invalid,
            },
    {
        match value {
            0 => ImguiMode::Background,
            1 => ImguiMode::ClockTimer,
            2 => ImguiMode::Fps,
            _ => ImguiMode::Invalid,
        }
    }
}

} // verus!
