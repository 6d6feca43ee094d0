//! The map a game is played on.
use vstd::prelude::*;
use crate::geometry::{BoundingBox, Point};

verus! {

/// Name of the map that is made when none is stored.
pub const DEFAULT_MAP_NAME: &'static str = "Default Map";

/// Where the default map is stored.
pub const DEFAULT_MAP: &'static str = "data/map.bin";

/// A named map of given dimensions.
#[derive(Debug)]
pub struct GameMap {
    pub name: String,
    pub dimensions: BoundingBox,
}

/// The dimensions of the default map: from the origin to (100, 100).
pub fn default_map_dimensions() -> (r: BoundingBox)
    ensures
        r == BoundingBox(Point(0, 0), Point(100, 100)),
{
    BoundingBox::new(Point::new(0, 0), Point::new(100, 100))
}

} // verus!
