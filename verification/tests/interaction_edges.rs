use hearthfield::world::{
    edge_transition_from_registry, map_bounds_from_registry, DoorTrigger, EdgeTarget, MapData, MapEdges, MapId, MapRegistry,
};

/// A registry without map data: every map uses the built-in transition table.
fn test_registry() -> MapRegistry {
    MapRegistry { maps: vec![] }
}

#[test]
fn player_house_exit_lands_on_farm_path_outside_door_trigger() {
    let reg = test_registry();
    assert_eq!(
        edge_transition_from_registry(&MapId::PlayerHouse, 8, 15, &reg),
        Some((MapId::Farm, 16, 3))
    );
}

#[test]
fn farmhouse_path_tile_does_not_immediately_reenter_house() {
    let reg = test_registry();
    assert_eq!(edge_transition_from_registry(&MapId::Farm, 16, 3, &reg), None);
    assert_eq!(
        edge_transition_from_registry(&MapId::Farm, 16, 2, &reg),
        Some((MapId::PlayerHouse, 8, 14))
    );
}

#[test]
fn farm_west_edge_routes_toward_mine_path_not_beach() {
    let reg = test_registry();
    assert_eq!(
        edge_transition_from_registry(&MapId::Farm, 0, 10, &reg),
        Some((MapId::MineEntrance, 12, 6))
    );
}

#[test]
fn farm_south_corner_transition_lands_inside_town_not_on_corner() {
    let reg = test_registry();
    assert_eq!(
        edge_transition_from_registry(&MapId::Farm, 0, 0, &reg),
        Some((MapId::Town, 1, 20))
    );
    assert_eq!(
        edge_transition_from_registry(&MapId::Farm, 31, 0, &reg),
        Some((MapId::Town, 26, 20))
    );
}

#[test]
fn town_east_corner_transition_lands_inside_forest_not_on_corner() {
    let reg = test_registry();
    assert_eq!(
        edge_transition_from_registry(&MapId::Town, 27, 1, &reg),
        Some((MapId::Forest, 1, 1))
    );
    assert_eq!(
        edge_transition_from_registry(&MapId::Town, 27, 20, &reg),
        Some((MapId::Forest, 1, 16))
    );
}

#[test]
fn town_houses_have_enter_and_exit_transitions() {
    let reg = test_registry();
    assert_eq!(
        edge_transition_from_registry(&MapId::Town, 3, 13, &reg),
        Some((MapId::TownHouseWest, 6, 10))
    );
    assert_eq!(
        edge_transition_from_registry(&MapId::TownHouseWest, 6, 11, &reg),
        Some((MapId::Town, 3, 14))
    );
    assert_eq!(
        edge_transition_from_registry(&MapId::Town, 9, 13, &reg),
        Some((MapId::TownHouseEast, 6, 10))
    );
    assert_eq!(
        edge_transition_from_registry(&MapId::TownHouseEast, 6, 11, &reg),
        Some((MapId::Town, 9, 14))
    );
}

#[test]
fn mine_entrance_east_path_returns_to_farm() {
    let reg = test_registry();
    assert_eq!(
        edge_transition_from_registry(&MapId::MineEntrance, 13, 5, &reg),
        Some((MapId::Farm, 1, 9))
    );
}

#[test]
fn mine_entrance_cave_mouth_enters_mine() {
    let reg = test_registry();
    assert_eq!(
        edge_transition_from_registry(&MapId::MineEntrance, 7, 3, &reg),
        Some((MapId::Mine, 8, 14))
    );
}

#[test]
fn mine_exit_spawn_does_not_immediately_reenter_cave() {
    let reg = test_registry();
    assert_eq!(edge_transition_from_registry(&MapId::MineEntrance, 7, 4, &reg), None);
}

fn no_edges() -> MapEdges {
    MapEdges { north: None, south: None, east: None, west: None }
}

/// A small registry: a 20 x 10 farm with a door and two edges, and a 12 x 40
/// town; the farm is listed a second time with other data, which is ignored.
fn small_registry() -> MapRegistry {
    let farm = MapData {
        width: 20,
        height: 10,
        doors: vec![DoorTrigger { x_min: 4, x_max: 5, y: 3, to_map: MapId::PlayerHouse, to_x: 7, to_y: 13 }],
        edges: MapEdges {
            north: None,
            south: None,
            east: Some((MapId::Town, EdgeTarget::ClampY(1))),
            west: Some((MapId::MineEntrance, EdgeTarget::ClampY(12))),
        },
        transitions: vec![],
    };
    let town = MapData { width: 12, height: 40, doors: vec![], edges: no_edges(), transitions: vec![] };
    let other_farm = MapData { width: 3, height: 3, doors: vec![], edges: no_edges(), transitions: vec![] };
    MapRegistry { maps: vec![(MapId::Farm, farm), (MapId::Town, town), (MapId::Farm, other_farm)] }
}

#[test]
fn registry_data_drives_doors_edges_and_bounds() {
    let reg = small_registry();
    assert_eq!(map_bounds_from_registry(&MapId::Farm, &reg), (0, 19, 0, 9));
    assert_eq!(map_bounds_from_registry(&MapId::Town, &reg), (0, 11, 0, 39));
    // A map without data keeps its built-in size.
    assert_eq!(map_bounds_from_registry(&MapId::MineEntrance, &reg), (0, 13, 0, 11));
    // The door on row 3, columns 4-5.
    assert_eq!(edge_transition_from_registry(&MapId::Farm, 5, 3, &reg), Some((MapId::PlayerHouse, 7, 13)));
    // The east edge (x >= 19) lands in the town, y kept inside its 40 rows.
    assert_eq!(edge_transition_from_registry(&MapId::Farm, 19, 6, &reg), Some((MapId::Town, 1, 6)));
    // The west edge lands at the mine entrance, y clamped to its built-in interior 1..=10.
    assert_eq!(edge_transition_from_registry(&MapId::Farm, 0, 9, &reg), Some((MapId::MineEntrance, 12, 9)));
    assert_eq!(edge_transition_from_registry(&MapId::Farm, 0, 0, &reg), Some((MapId::MineEntrance, 12, 1)));
    // Inside the farm nothing triggers; the north and south edges lead nowhere.
    assert_eq!(edge_transition_from_registry(&MapId::Farm, 8, 5, &reg), None);
    assert_eq!(edge_transition_from_registry(&MapId::Farm, 8, 9, &reg), None);
    // A registered map without doors or edges sends nowhere, even on its rim.
    assert_eq!(edge_transition_from_registry(&MapId::Town, 0, 0, &reg), None);
}
