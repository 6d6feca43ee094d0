//! The things that populate a game, and the zones they move through.
use vstd::prelude::*;
use crate::geometry::{BoundingBox, Location, Point, Polygon};

verus! {

/// What kind of thing an entity is.
#[derive(Clone, Copy, Debug, PartialEq, Eq, Structural)]
pub enum GameEntityType {
    Player,
    Enemy,
    Structure,
    Zone,
    Projectile,
}

/// An entity of the game at a point of the grid.
#[derive(Debug)]
pub struct GameEntity {
    pub location: Point,
    pub entity_type: GameEntityType,
}

impl Location for GameEntity {
    open spec fn spec_center_point(&self) -> Point {
        self.location
    }

    fn get_center_point(&self) -> (r: Point) {
        self.location
    }
}

impl GameEntity {
    /// Players, enemies and structures take damage; zones and projectiles do not.
    pub fn can_take_damage(&self) -> (r: bool)
        ensures
            r == (self.entity_type == GameEntityType::Player || self.entity_type == GameEntityType::Enemy
                || self.entity_type == GameEntityType::Structure),
    {
        match self.entity_type {
            GameEntityType::Player => true,
            GameEntityType::Enemy => true,
            GameEntityType::Structure => true,
            GameEntityType::Zone => false,
            GameEntityType::Projectile => false,
        }
    }
}

/// A rectangular area of the map.
pub struct Zone {
    pub bounding_box: BoundingBox,
}

impl Zone {
    /// Whether the entity stands strictly inside the zone.
    pub fn entity_inside(&self, entity: &GameEntity) -> (r: bool)
        ensures
            r == self.bounding_box.spec_contains(entity.location),
    {
        entity.location.inside(self.get_bounding_box())
    }

    pub fn get_bounding_box(&self) -> (r: BoundingBox)
        ensures
            r == self.bounding_box,
    {
        self.bounding_box
    }
}

} // verus!
