//! The terrain cell types: land, water, and what a water cell carries.

use vstd::prelude::*;

use crate::depth::Depth;

verus! {

/// What the bottom of a water region is made of. Generation currently always
/// assigns `Hard`; the other variants are forward-compatibility hooks.
#[derive(Clone, Copy, Debug, PartialEq, Eq, Structural)]
pub enum BottomComposition {
    Mud,
    Hard,
    Gravel,
}

/// The closed set of vegetation kinds a water cell may carry.
#[derive(Clone, Copy, Debug, PartialEq, Eq, Structural)]
pub enum Vegetation {
    Grass,
    Reeds,
    Mats,
}

/// Structures reserved for future placement logic; generation never assigns
/// one today.
#[derive(Clone, Copy, Debug, PartialEq, Eq, Structural)]
pub enum Structure {
    ChunkRock,
    Boulder,
    Timber,
    Brush,
}

/// A land cell. It carries no further attributes.
#[derive(Clone, Copy, Debug, PartialEq, Eq, Structural)]
pub struct TopographicLandRegion {}

/// A water cell: bottom composition, optional vegetation and structure, and
/// the depth it was classified with.
#[derive(Clone, Copy, Debug, PartialEq, Eq)]
pub struct TopographicWaterRegion {
    pub bottom: BottomComposition,
    pub vegetation: Option<Vegetation>,
    pub structure: Option<Structure>,
    pub depth: Depth,
}

/// One cell of the generated map.
#[derive(Clone, Copy, Debug, PartialEq, Eq)]
pub enum TopographicRegion {
    Land(TopographicLandRegion),
    Water(TopographicWaterRegion),
}

impl TopographicWaterRegion {
    /// Builds a water region from its parts.
    pub fn new(
        bottom: BottomComposition,
        vegetation: Option<Vegetation>,
        structure: Option<Structure>,
        depth: Depth,
    ) -> (r: TopographicWaterRegion)
        ensures
            r == (TopographicWaterRegion { bottom, vegetation, structure, depth }),
    {
        TopographicWaterRegion { bottom, vegetation, structure, depth }
    }

    /// True exactly when this cell carries the given vegetation kind.
    pub fn has_vegetation_type(&self, vegetation_type: &Vegetation) -> (r: bool)
        ensures
            r == (self.vegetation == Some(*vegetation_type)),
    {
        match &self.vegetation {
            Some(veg) => *veg == *vegetation_type,
            None => false,
        }
    }
}

/// True of cells that are water.
pub open spec fn is_water(r: TopographicRegion) -> bool {
    r matches TopographicRegion::Water(_)
}

/// True of water cells that carry the given vegetation kind.
pub open spec fn has_kind(r: TopographicRegion, k: Vegetation) -> bool {
    r matches TopographicRegion::Water(w) && w.vegetation == Some(k)
}

} // verus!
