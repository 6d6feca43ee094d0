use rust_tower_defense::game::entities::{GameEntity, GameEntityType, Zone};
use rust_tower_defense::game::map::{default_map_dimensions, GameMap, DEFAULT_MAP_NAME};
use rust_tower_defense::game::{start_game, Cacher};
use rust_tower_defense::geometry::{BoundingBox, Location, Point};

#[test]
fn call_with_different_values() {
    let mut c = Cacher::new(|a| a);

    let v1 = c.value(1);
    let v2 = c.value(2);

    assert_eq!(v1, 1);
    assert_eq!(v2, 2);
}

#[test]
fn call_with_different_types() {
    let mut c = Cacher::new(|_a| "some_str");

    let v1 = c.value(1);
    let v2 = c.value(2);

    assert_eq!(v1, v2);
    assert_eq!(v1, "some_str");

    let mut c = Cacher::new(|_a| 1);

    let v1 = c.value("foo");
    let v2 = c.value("bar");

    assert_eq!(v1, v2);
    assert_eq!(v1, 1);
}

#[test]
fn cacher_runs_calculation_once_per_argument() {
    let calls = std::cell::Cell::new(0u32);
    let mut c = Cacher::new(|a: u32| {
        calls.set(calls.get() + 1);
        a * 10
    });
    assert_eq!(c.value(3), 30);
    assert_eq!(c.value(3), 30);
    assert_eq!(c.value(4), 40);
    assert_eq!(calls.get(), 2);
}

#[test]
fn entities_tests() {
    let player = GameEntity {
        location: Point::new(5, 5),
        entity_type: GameEntityType::Player,
    };

    let zone = Zone {
        bounding_box: BoundingBox::new(Point::new(0, 0), Point::new(10, 10)),
    };

    assert!(zone.entity_inside(&player));
}

#[test]
fn entity_on_zone_edge_is_outside() {
    let enemy = GameEntity {
        location: Point::new(10, 5),
        entity_type: GameEntityType::Enemy,
    };
    let zone = Zone {
        bounding_box: BoundingBox::new(Point::new(0, 0), Point::new(10, 10)),
    };
    assert!(!zone.entity_inside(&enemy));
    assert_eq!(zone.get_bounding_box(), BoundingBox::new(Point::new(0, 0), Point::new(10, 10)));
    assert_eq!(enemy.get_center_point(), Point::new(10, 5));
}

#[test]
fn damage_by_entity_type() {
    let at = Point::new(1, 1);
    let kinds = [
        (GameEntityType::Player, true),
        (GameEntityType::Enemy, true),
        (GameEntityType::Structure, true),
        (GameEntityType::Zone, false),
        (GameEntityType::Projectile, false),
    ];
    for (kind, expected) in kinds.iter() {
        let e = GameEntity { location: at, entity_type: *kind };
        assert_eq!(e.can_take_damage(), *expected);
    }
}

#[test]
fn started_game_is_empty() {
    let map = GameMap {
        name: DEFAULT_MAP_NAME.to_string(),
        dimensions: default_map_dimensions(),
    };
    let game = start_game(map);
    assert_eq!(game.map.name, "Default Map");
    assert_eq!(game.map.dimensions, BoundingBox::new(Point::new(0, 0), Point::new(100, 100)));
    assert!(game.state.entities.is_empty());
    assert_eq!(game.started_time, 0);
}
