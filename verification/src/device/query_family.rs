//! Queue-family selection results.

use crate::error::{NeedleErr, NeedleError};
use std::collections::HashSet;
use vstd::prelude::*;

verus! {

broadcast use vstd::std_specs::hash::group_hash_axioms;

/// The queue families selected on one accelerator: the family that accepts
/// graphics work and the family that can present to the surface. The two may
/// name the same family.
#[derive(Debug, Clone, Copy, PartialEq, Eq, Structural)]
pub struct QueryFamilyIndices {
    pub graphics_family: Option<u32>,
    pub present_family: Option<u32>,
}

impl QueryFamilyIndices {
    /// No family selected yet.
    pub fn none() -> (r: Self)
        ensures
            r.graphics_family is None,
            r.present_family is None,
    {
        Self { graphics_family: None, present_family: None }
    }

    /// The set of distinct selected families: one element when graphics and
    /// present share a family, two otherwise. Fails when either selection is
    /// still missing.
    pub fn unique_queue_families(&self) -> (r: NeedleErr<HashSet<u32>>)
        ensures
            match r {
                Ok(families) => {
                    &&& self.graphics_family is Some
                    &&& self.present_family is Some
                    &&& families@ =~= set![self.graphics_family->0, self.present_family->0]
                },
                Err(e) => {
                    &&& !(self.graphics_family is Some && self.present_family is Some)
                    &&& e is QueueFamilyIncomplete
                },
            },
    {
        match (self.graphics_family, self.present_family) {
            (Some(graphics), Some(present)) => {
                let mut families: HashSet<u32> = HashSet::new();
                families.insert(graphics);
                families.insert(present);
                assert(families@ =~= set![graphics, present]);
                Ok(families)
            },
            _ => Err(NeedleError::QueueFamilyIncomplete),
        }
    }

    /// True once both a graphics-capable and a present-capable family have
    /// been found.
    pub fn is_complete(&self) -> (r: bool)
        ensures
            r == (self.graphics_family is Some && self.present_family is Some),
    {
        self.graphics_family.is_some() && self.present_family.is_some()
    }
}

} // verus!
