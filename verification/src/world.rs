use vstd::prelude::*;

verus! {

/// Every location of the game world.
#[derive(Debug, Clone, Copy, PartialEq, Eq, Hash, Structural)]
pub enum MapId {
    Farm,
    Town,
    Beach,
    Forest,
    DeepForest,
    MineEntrance,
    Mine,
    PlayerHouse,
    TownHouseWest,
    TownHouseEast,
    GeneralStore,
    AnimalShop,
    Blacksmith,
    Library,
    Tavern,
    CoralIsland,
}

pub const MAP_COUNT: usize = 16;

/// A fixed numbering of the maps, used to index per-map tables.
pub open spec fn map_index(m: MapId) -> nat {
    match m {
        MapId::Farm => 0,
        MapId::Town => 1,
        MapId::Beach => 2,
        MapId::Forest => 3,
        MapId::DeepForest => 4,
        MapId::MineEntrance => 5,
        MapId::Mine => 6,
        MapId::PlayerHouse => 7,
        MapId::TownHouseWest => 8,
        MapId::TownHouseEast => 9,
        MapId::GeneralStore => 10,
        MapId::AnimalShop => 11,
        MapId::Blacksmith => 12,
        MapId::Library => 13,
        MapId::Tavern => 14,
        MapId::CoralIsland => 15,
    }
}

pub fn map_index_of(m: MapId) -> (r: usize)
    ensures
        r == map_index(m),
        r < MAP_COUNT,
{
    match m {
        MapId::Farm => 0,
        MapId::Town => 1,
        MapId::Beach => 2,
        MapId::Forest => 3,
        MapId::DeepForest => 4,
        MapId::MineEntrance => 5,
        MapId::Mine => 6,
        MapId::PlayerHouse => 7,
        MapId::TownHouseWest => 8,
        MapId::TownHouseEast => 9,
        MapId::GeneralStore => 10,
        MapId::AnimalShop => 11,
        MapId::Blacksmith => 12,
        MapId::Library => 13,
        MapId::Tavern => 14,
        MapId::CoralIsland => 15,
    }
}

pub proof fn lemma_map_index_injective(a: MapId, b: MapId)
    ensures
        map_index(a) == map_index(b) <==> a == b,
{
}

/// Built-in map sizes as (min_x, max_x, min_y, max_y), used for maps that
/// have no data in the registry.
pub open spec fn builtin_bounds(map: MapId) -> (i32, i32, i32, i32) {
    match map {
        MapId::Farm => (0, 31, 0, 23),
        MapId::Town => (0, 27, 0, 21),
        MapId::Beach => (0, 19, 0, 13),
        MapId::Forest => (0, 21, 0, 17),
        MapId::DeepForest => (0, 29, 0, 27),
        MapId::MineEntrance => (0, 13, 0, 11),
        MapId::Mine => (0, 23, 0, 23),
        MapId::PlayerHouse => (0, 15, 0, 15),
        MapId::TownHouseWest => (0, 11, 0, 11),
        MapId::TownHouseEast => (0, 11, 0, 11),
        MapId::GeneralStore => (0, 11, 0, 11),
        MapId::AnimalShop => (0, 11, 0, 11),
        MapId::Blacksmith => (0, 11, 0, 11),
        MapId::Library => (0, 13, 0, 11),
        MapId::Tavern => (0, 15, 0, 13),
        MapId::CoralIsland => (0, 29, 0, 21),
    }
}

pub fn map_bounds_hardcoded(map: &MapId) -> (r: (i32, i32, i32, i32))
    ensures
        r == builtin_bounds(*map),
{
    let map = *map;
    match map {
        MapId::Farm => (0, 31, 0, 23),
        MapId::Town => (0, 27, 0, 21),
        MapId::Beach => (0, 19, 0, 13),
        MapId::Forest => (0, 21, 0, 17),
        MapId::DeepForest => (0, 29, 0, 27),
        MapId::MineEntrance => (0, 13, 0, 11),
        MapId::Mine => (0, 23, 0, 23),
        MapId::PlayerHouse => (0, 15, 0, 15),
        MapId::TownHouseWest => (0, 11, 0, 11),
        MapId::TownHouseEast => (0, 11, 0, 11),
        MapId::GeneralStore => (0, 11, 0, 11),
        MapId::AnimalShop => (0, 11, 0, 11),
        MapId::Blacksmith => (0, 11, 0, 11),
        MapId::Library => (0, 13, 0, 11),
        MapId::Tavern => (0, 15, 0, 13),
        MapId::CoralIsland => (0, 29, 0, 21),
    }
}

/// `v` limited to `lo..=hi`.
pub open spec fn clamp_i(v: int, lo: int, hi: int) -> int {
    if v < lo { lo } else if v > hi { hi } else { v }
}

/// A coordinate carried across an edge, kept off the receiving map's border
/// when the map is at least three tiles wide.
pub open spec fn interior(v: int, min: int, max: int) -> int {
    if max - min >= 2 { clamp_i(v, min + 1, max - 1) } else { clamp_i(v, min, max) }
}

pub fn clamp_to_interior(value: i32, min: i32, max: i32) -> (r: i32)
    requires
        min <= max,
    ensures
        r == interior(value as int, min as int, max as int),
        min <= r <= max,
{
    if max as i64 - min as i64 >= 2 {
        if value < min + 1 { min + 1 } else if value > max - 1 { max - 1 } else { value }
    } else {
        if value < min { min } else if value > max { max } else { value }
    }
}

/// The built-in transition table: door triggers first, then the map edges.
/// A player standing at (x, y) on `map` is sent to the returned map and tile.
pub open spec fn builtin_transition(map: MapId, x: int, y: int) -> Option<(MapId, int, int)> {
    let (min_x, max_x, min_y, max_y) = builtin_bounds(map);
    if map == MapId::Farm && 15 <= x <= 16 && y == 2 {
        Some((MapId::PlayerHouse, 8, 14))
    } else if map == MapId::Town && 5 <= x <= 6 && y == 2 {
        Some((MapId::GeneralStore, 6, 10))
    } else if map == MapId::Town && 22 <= x <= 23 && y == 2 {
        Some((MapId::AnimalShop, 6, 10))
    } else if map == MapId::Town && 22 <= x <= 23 && y == 13 {
        Some((MapId::Blacksmith, 6, 10))
    } else if map == MapId::Town && 3 <= x <= 4 && y == 13 {
        Some((MapId::TownHouseWest, 6, 10))
    } else if map == MapId::Town && 9 <= x <= 10 && y == 13 {
        Some((MapId::TownHouseEast, 6, 10))
    } else if map == MapId::Farm {
        if y <= min_y {
            Some((MapId::Town, interior(x, 0, 27), 20))
        } else if x >= max_x {
            Some((MapId::Forest, 1, interior(y, 0, 17)))
        } else if x <= min_x {
            Some((MapId::MineEntrance, 12, 6))
        } else {
            None
        }
    } else if map == MapId::Town {
        if y >= max_y {
            Some((MapId::Farm, interior(x, 0, 31), 1))
        } else if y <= min_y {
            Some((MapId::Beach, interior(x, 0, 19), 7))
        } else if x >= max_x {
            Some((MapId::Forest, 1, interior(y, 0, 17)))
        } else {
            None
        }
    } else if map == MapId::Beach {
        if y >= max_y {
            Some((MapId::Town, interior(x, 0, 27), 1))
        } else if x >= max_x {
            Some((MapId::Farm, 1, interior(y, 0, 23)))
        } else {
            None
        }
    } else if map == MapId::Forest {
        if x <= min_x {
            Some((MapId::Farm, 30, interior(y, 0, 23)))
        } else if y >= max_y {
            Some((MapId::MineEntrance, 7, 1))
        } else {
            None
        }
    } else if map == MapId::MineEntrance {
        if x >= max_x && 5 <= y <= 6 {
            Some((MapId::Farm, 1, 9))
        } else if y <= min_y {
            Some((MapId::Forest, 11, 16))
        } else if 6 <= x <= 7 && y == 3 {
            Some((MapId::Mine, 8, 14))
        } else {
            None
        }
    } else if map == MapId::PlayerHouse && y >= max_y {
        Some((MapId::Farm, 16, 3))
    } else if map == MapId::TownHouseWest && y >= max_y {
        Some((MapId::Town, 3, 14))
    } else if map == MapId::TownHouseEast && y >= max_y {
        Some((MapId::Town, 9, 14))
    } else if map == MapId::GeneralStore && y >= max_y {
        Some((MapId::Town, 6, 8))
    } else if map == MapId::AnimalShop && y >= max_y {
        Some((MapId::Town, 22, 8))
    } else if map == MapId::Blacksmith && y >= max_y {
        Some((MapId::Town, 22, 18))
    } else {
        None
    }
}

/// Arriving by a built-in transition never stands the player on another
/// trigger: every landing tile is clear of doors and edges, so no door or
/// edge sends the player straight back.
pub proof fn law_landing_is_clear(map: MapId, x: int, y: int)
    ensures
        match builtin_transition(map, x, y) {
            Some((m2, x2, y2)) => builtin_transition(m2, x2, y2) is None,
            None => true,
        },
{
}

pub open spec fn as_int_target(r: Option<(MapId, i32, i32)>) -> Option<(MapId, int, int)> {
    match r {
        Some((m, x, y)) => Some((m, x as int, y as int)),
        None => None,
    }
}

pub fn edge_transition_hardcoded(map: &MapId, gx: i32, gy: i32) -> (r: Option<(MapId, i32, i32)>)
    ensures
        as_int_target(r) == builtin_transition(*map, gx as int, gy as int),
{
    let (min_x, max_x, min_y, max_y) = map_bounds_hardcoded(map);
    let map = *map;

    if map == MapId::Farm && 15 <= gx && gx <= 16 && gy == 2 {
        return Some((MapId::PlayerHouse, 8, 14));
    }
    if map == MapId::Town && 5 <= gx && gx <= 6 && gy == 2 {
        return Some((MapId::GeneralStore, 6, 10));
    }
    if map == MapId::Town && 22 <= gx && gx <= 23 && gy == 2 {
        return Some((MapId::AnimalShop, 6, 10));
    }
    if map == MapId::Town && 22 <= gx && gx <= 23 && gy == 13 {
        return Some((MapId::Blacksmith, 6, 10));
    }
    if map == MapId::Town && 3 <= gx && gx <= 4 && gy == 13 {
        return Some((MapId::TownHouseWest, 6, 10));
    }
    if map == MapId::Town && 9 <= gx && gx <= 10 && gy == 13 {
        return Some((MapId::TownHouseEast, 6, 10));
    }

    if map == MapId::Farm {
        if gy <= min_y {
            return Some((MapId::Town, clamp_to_interior(gx, 0, 27), 20));
        }
        if gx >= max_x {
            return Some((MapId::Forest, 1, clamp_to_interior(gy, 0, 17)));
        }
        if gx <= min_x {
            return Some((MapId::MineEntrance, 12, 6));
        }
    }
    if map == MapId::Town {
        if gy >= max_y {
            return Some((MapId::Farm, clamp_to_interior(gx, 0, 31), 1));
        }
        if gy <= min_y {
            return Some((MapId::Beach, clamp_to_interior(gx, 0, 19), 7));
        }
        if gx >= max_x {
            return Some((MapId::Forest, 1, clamp_to_interior(gy, 0, 17)));
        }
    }
    if map == MapId::Beach {
        if gy >= max_y {
            return Some((MapId::Town, clamp_to_interior(gx, 0, 27), 1));
        }
        if gx >= max_x {
            return Some((MapId::Farm, 1, clamp_to_interior(gy, 0, 23)));
        }
    }
    if map == MapId::Forest {
        if gx <= min_x {
            return Some((MapId::Farm, 30, clamp_to_interior(gy, 0, 23)));
        }
        if gy >= max_y {
            return Some((MapId::MineEntrance, 7, 1));
        }
    }
    if map == MapId::MineEntrance {
        if gx >= max_x && 5 <= gy && gy <= 6 {
            return Some((MapId::Farm, 1, 9));
        }
        if gy <= min_y {
            return Some((MapId::Forest, 11, 16));
        }
        if 6 <= gx && gx <= 7 && gy == 3 {
            return Some((MapId::Mine, 8, 14));
        }
    }
    if map == MapId::PlayerHouse && gy >= max_y {
        return Some((MapId::Farm, 16, 3));
    }
    if map == MapId::TownHouseWest && gy >= max_y {
        return Some((MapId::Town, 3, 14));
    }
    if map == MapId::TownHouseEast && gy >= max_y {
        return Some((MapId::Town, 9, 14));
    }
    if map == MapId::GeneralStore && gy >= max_y {
        return Some((MapId::Town, 6, 8));
    }
    if map == MapId::AnimalShop && gy >= max_y {
        return Some((MapId::Town, 22, 8));
    }
    if map == MapId::Blacksmith && gy >= max_y {
        return Some((MapId::Town, 22, 18));
    }
    None
}

/// The map numbered `i` by `map_index`.
pub open spec fn map_at(i: nat) -> MapId {
    if i == 0 { MapId::Farm }
    else if i == 1 { MapId::Town }
    else if i == 2 { MapId::Beach }
    else if i == 3 { MapId::Forest }
    else if i == 4 { MapId::DeepForest }
    else if i == 5 { MapId::MineEntrance }
    else if i == 6 { MapId::Mine }
    else if i == 7 { MapId::PlayerHouse }
    else if i == 8 { MapId::TownHouseWest }
    else if i == 9 { MapId::TownHouseEast }
    else if i == 10 { MapId::GeneralStore }
    else if i == 11 { MapId::AnimalShop }
    else if i == 12 { MapId::Blacksmith }
    else if i == 13 { MapId::Library }
    else if i == 14 { MapId::Tavern }
    else { MapId::CoralIsland }
}

pub fn map_from_index(i: usize) -> (m: MapId)
    requires
        i < MAP_COUNT,
    ensures
        m == map_at(i as nat),
        map_index(m) == i,
{
    if i == 0 { MapId::Farm }
    else if i == 1 { MapId::Town }
    else if i == 2 { MapId::Beach }
    else if i == 3 { MapId::Forest }
    else if i == 4 { MapId::DeepForest }
    else if i == 5 { MapId::MineEntrance }
    else if i == 6 { MapId::Mine }
    else if i == 7 { MapId::PlayerHouse }
    else if i == 8 { MapId::TownHouseWest }
    else if i == 9 { MapId::TownHouseEast }
    else if i == 10 { MapId::GeneralStore }
    else if i == 11 { MapId::AnimalShop }
    else if i == 12 { MapId::Blacksmith }
    else if i == 13 { MapId::Library }
    else if i == 14 { MapId::Tavern }
    else { MapId::CoralIsland }
}

pub proof fn lemma_map_at_index(m: MapId)
    ensures
        map_at(map_index(m)) == m,
        map_index(m) < MAP_COUNT,
{
}

// ── Data-driven map registry ──────────────────────────────────────────

/// Where an edge crossing lands on the neighbouring map: keep the x
/// coordinate (clamped to the interior) at a fixed y, keep y at a fixed x,
/// or a fixed tile.
#[derive(Debug, Clone, Copy, PartialEq, Eq, Structural)]
pub enum EdgeTarget {
    ClampX(i32),
    ClampY(i32),
    Fixed(i32, i32),
}

/// A door: standing on row `y` between `x_min` and `x_max` enters `to_map`
/// at (`to_x`, `to_y`).
#[derive(Debug, Clone, Copy, PartialEq, Eq, Structural)]
pub struct DoorTrigger {
    pub x_min: i32,
    pub x_max: i32,
    pub y: i32,
    pub to_map: MapId,
    pub to_x: i32,
    pub to_y: i32,
}

/// The neighbour reached across each edge of a map, if any.
#[derive(Debug, Clone, Copy)]
pub struct MapEdges {
    pub north: Option<(MapId, EdgeTarget)>,
    pub south: Option<(MapId, EdgeTarget)>,
    pub east: Option<(MapId, EdgeTarget)>,
    pub west: Option<(MapId, EdgeTarget)>,
}

/// A zone-based transition trigger: the rectangle (x, y, w, h) of
/// `from_map` leads to `to_map` at `to_pos`.
#[derive(Debug, Clone, Copy)]
pub struct MapTransition {
    pub from_map: MapId,
    pub from_rect: (i32, i32, i32, i32),
    pub to_map: MapId,
    pub to_pos: (i32, i32),
}

/// The data of one map: its size in tiles, doors, edge neighbours and
/// zone transitions.
#[derive(Debug, Clone)]
pub struct MapData {
    pub width: u32,
    pub height: u32,
    pub doors: Vec<DoorTrigger>,
    pub edges: MapEdges,
    pub transitions: Vec<MapTransition>,
}

/// Map data by map id. Where a map is listed more than once, its first
/// entry is the one read.
#[derive(Debug, Clone)]
pub struct MapRegistry {
    pub maps: Vec<(MapId, MapData)>,
}

/// The data registered for a map: the first entry with that id.
pub open spec fn registry_entry(maps: Seq<(MapId, MapData)>, m: MapId) -> Option<MapData>
    decreases maps.len(),
{
    if maps.len() == 0 {
        None
    } else if maps[0].0 == m {
        Some(maps[0].1)
    } else {
        registry_entry(maps.drop_first(), m)
    }
}

/// Every registered map is between 1 and i32::MAX tiles in each direction.
pub open spec fn registry_sizes_ok(maps: Seq<(MapId, MapData)>) -> bool {
    forall|i: int| 0 <= i < maps.len() ==>
        1 <= #[trigger] maps[i].1.width <= i32::MAX && 1 <= maps[i].1.height <= i32::MAX
}

/// Tile bounds (min_x, max_x, min_y, max_y) of a map: from the registry
/// when it is there, else the built-in size.
pub open spec fn bounds_of(maps: Seq<(MapId, MapData)>, m: MapId) -> (int, int, int, int) {
    match registry_entry(maps, m) {
        Some(d) => (0, d.width - 1, 0, d.height - 1),
        None => {
            let (a, b, c, e) = builtin_bounds(m);
            (a as int, b as int, c as int, e as int)
        }
    }
}

/// The tile an edge crossing from (x, y) lands on.
pub open spec fn edge_landing(maps: Seq<(MapId, MapData)>, target: EdgeTarget, to: MapId, x: int, y: int) -> (int, int) {
    let (min_x, max_x, min_y, max_y) = bounds_of(maps, to);
    match target {
        EdgeTarget::ClampX(fy) => (interior(x, min_x, max_x), fy as int),
        EdgeTarget::ClampY(fx) => (fx as int, interior(y, min_y, max_y)),
        EdgeTarget::Fixed(fx, fy) => (fx as int, fy as int),
    }
}

/// The first door whose trigger row contains (x, y).
pub open spec fn first_door(doors: Seq<DoorTrigger>, x: int, y: int) -> Option<DoorTrigger>
    decreases doors.len(),
{
    if doors.len() == 0 {
        None
    } else if doors[0].x_min <= x <= doors[0].x_max && y == doors[0].y {
        Some(doors[0])
    } else {
        first_door(doors.drop_first(), x, y)
    }
}

/// The transition of a registered map at (x, y): a door if one triggers,
/// else the north, south, east or west edge the position lies on (in that
/// order), if that edge leads anywhere.
pub open spec fn data_transition(maps: Seq<(MapId, MapData)>, d: MapData, x: int, y: int) -> Option<(MapId, int, int)> {
    let max_x = d.width - 1;
    let max_y = d.height - 1;
    match first_door(d.doors@, x, y) {
        Some(door) => Some((door.to_map, door.to_x as int, door.to_y as int)),
        None => {
            if y >= max_y && d.edges.north is Some {
                let (m, t) = d.edges.north.unwrap();
                let (tx, ty) = edge_landing(maps, t, m, x, y);
                Some((m, tx, ty))
            } else if y <= 0 && d.edges.south is Some {
                let (m, t) = d.edges.south.unwrap();
                let (tx, ty) = edge_landing(maps, t, m, x, y);
                Some((m, tx, ty))
            } else if x >= max_x && d.edges.east is Some {
                let (m, t) = d.edges.east.unwrap();
                let (tx, ty) = edge_landing(maps, t, m, x, y);
                Some((m, tx, ty))
            } else if x <= 0 && d.edges.west is Some {
                let (m, t) = d.edges.west.unwrap();
                let (tx, ty) = edge_landing(maps, t, m, x, y);
                Some((m, tx, ty))
            } else {
                None
            }
        }
    }
}

/// Where a player at (x, y) on `map` is sent: by the registry's data for
/// the map when it has any, else by the built-in table.
pub open spec fn registry_transition(maps: Seq<(MapId, MapData)>, map: MapId, x: int, y: int) -> Option<(MapId, int, int)> {
    match registry_entry(maps, map) {
        Some(d) => data_transition(maps, d, x, y),
        None => builtin_transition(map, x, y),
    }
}

impl MapRegistry {
    pub fn get(&self, m: MapId) -> (r: Option<&MapData>)
        ensures
            match r {
                Some(d) => registry_entry(self.maps@, m) == Some(*d),
                None => registry_entry(self.maps@, m) is None,
            },
    {
        let mut i: usize = 0;
        proof { assert(self.maps@.skip(0) =~= self.maps@); }
        while i < self.maps.len()
            invariant
                i <= self.maps@.len(),
                registry_entry(self.maps@, m) == registry_entry(self.maps@.skip(i as int), m),
            decreases self.maps@.len() - i,
        {
            let ghost rest = self.maps@.skip(i as int);
            proof {
                assert(rest[0] == self.maps@[i as int]);
                assert(rest.drop_first() =~= self.maps@.skip(i as int + 1));
            }
            if self.maps[i].0 == m {
                return Some(&self.maps[i].1);
            }
            i += 1;
        }
        None
    }
}

pub fn map_bounds_from_registry(map: &MapId, registry: &MapRegistry) -> (r: (i32, i32, i32, i32))
    requires
        registry_sizes_ok(registry.maps@),
    ensures
        (r.0 as int, r.1 as int, r.2 as int, r.3 as int) == bounds_of(registry.maps@, *map),
        r.0 <= r.1,
        r.2 <= r.3,
{
    match registry.get(*map) {
        Some(data) => {
            proof { lemma_registry_entry_in(registry.maps@, *map); }
            (0, data.width as i32 - 1, 0, data.height as i32 - 1)
        }
        None => map_bounds_hardcoded(map),
    }
}

proof fn lemma_registry_entry_in(maps: Seq<(MapId, MapData)>, m: MapId)
    ensures
        registry_entry(maps, m) is Some ==> exists|i: int| 0 <= i < maps.len() && #[trigger] maps[i].1 == registry_entry(maps, m).unwrap(),
    decreases maps.len(),
{
    if maps.len() > 0 && maps[0].0 != m {
        lemma_registry_entry_in(maps.drop_first(), m);
        if registry_entry(maps, m) is Some {
            let i = choose|i: int| 0 <= i < maps.drop_first().len() && #[trigger] maps.drop_first()[i].1 == registry_entry(maps, m).unwrap();
            assert(maps[i + 1].1 == registry_entry(maps, m).unwrap());
        }
    } else if maps.len() > 0 {
        assert(maps[0].1 == registry_entry(maps, m).unwrap());
    }
}

pub fn resolve_edge_target(target: &EdgeTarget, target_map: MapId, gx: i32, gy: i32, registry: &MapRegistry) -> (r: (i32, i32))
    requires
        registry_sizes_ok(registry.maps@),
    ensures
        (r.0 as int, r.1 as int) == edge_landing(registry.maps@, *target, target_map, gx as int, gy as int),
{
    match *target {
        EdgeTarget::ClampX(fixed_y) => {
            let (min_x, max_x, _, _) = map_bounds_from_registry(&target_map, registry);
            (clamp_to_interior(gx, min_x, max_x), fixed_y)
        }
        EdgeTarget::ClampY(fixed_x) => {
            let (_, _, min_y, max_y) = map_bounds_from_registry(&target_map, registry);
            (fixed_x, clamp_to_interior(gy, min_y, max_y))
        }
        EdgeTarget::Fixed(fx, fy) => (fx, fy),
    }
}

/// Door triggers first, then edge boundaries; maps without data use the
/// built-in table.
pub fn edge_transition_from_registry(map: &MapId, gx: i32, gy: i32, registry: &MapRegistry) -> (r: Option<(MapId, i32, i32)>)
    requires
        registry_sizes_ok(registry.maps@),
    ensures
        as_int_target(r) == registry_transition(registry.maps@, *map, gx as int, gy as int),
{
    let mid = *map;
    let data = match registry.get(mid) {
        Some(d) => d,
        None => return edge_transition_hardcoded(&mid, gx, gy),
    };
    proof { lemma_registry_entry_in(registry.maps@, mid); }

    let mut i: usize = 0;
    proof { assert(data.doors@.skip(0) =~= data.doors@); }
    while i < data.doors.len()
        invariant
            i <= data.doors@.len(),
            mid == *map,
            registry_entry(registry.maps@, mid) == Some(*data),
            first_door(data.doors@, gx as int, gy as int) == first_door(data.doors@.skip(i as int), gx as int, gy as int),
        decreases data.doors@.len() - i,
    {
        let ghost rest = data.doors@.skip(i as int);
        proof {
            assert(rest[0] == data.doors@[i as int]);
            assert(rest.drop_first() =~= data.doors@.skip(i as int + 1));
        }
        let door = data.doors[i];
        if door.x_min <= gx && gx <= door.x_max && gy == door.y {
            proof {
                assert(rest.len() > 0);
                assert(first_door(rest, gx as int, gy as int) == Some(door));
            }
            return Some((door.to_map, door.to_x, door.to_y));
        }
        i += 1;
    }
    proof { assert(data.doors@.skip(i as int).len() == 0); }

    let max_x: i32 = data.width as i32 - 1;
    let max_y: i32 = data.height as i32 - 1;

    if gy >= max_y {
        if let Some((target_map, target)) = data.edges.north {
            let (tx, ty) = resolve_edge_target(&target, target_map, gx, gy, registry);
            return Some((target_map, tx, ty));
        }
    }
    if gy <= 0 {
        if let Some((target_map, target)) = data.edges.south {
            let (tx, ty) = resolve_edge_target(&target, target_map, gx, gy, registry);
            return Some((target_map, tx, ty));
        }
    }
    if gx >= max_x {
        if let Some((target_map, target)) = data.edges.east {
            let (tx, ty) = resolve_edge_target(&target, target_map, gx, gy, registry);
            return Some((target_map, tx, ty));
        }
    }
    if gx <= 0 {
        if let Some((target_map, target)) = data.edges.west {
            let (tx, ty) = resolve_edge_target(&target, target_map, gx, gy, registry);
            return Some((target_map, tx, ty));
        }
    }
    None
}

/// A tile position on the current map.
#[derive(Debug, Clone, Copy, PartialEq, Eq, Hash, Structural)]
pub struct GridPosition {
    pub x: i32,
    pub y: i32,
}

impl GridPosition {
    pub fn new(x: i32, y: i32) -> (p: Self)
        ensures
            p.x == x,
            p.y == y,
    {
        GridPosition { x, y }
    }
}

/// The five buildings entered from the town's doors.
pub open spec fn town_building(m: MapId) -> bool {
    m == MapId::GeneralStore || m == MapId::AnimalShop || m == MapId::Blacksmith
        || m == MapId::TownHouseWest || m == MapId::TownHouseEast
}

/// Each town door leads into its own building, and walking out of that
/// building puts the player back in town in the door's column (or the one
/// beside it): the door tile (x, y) and the exit landing are at most one
/// column apart. Every town building is entered by some door of the town.
pub proof fn law_town_doors_lead_home(x: int, y: int)
    ensures
        match builtin_transition(MapId::Town, x, y) {
            Some((m, tx, ty)) => town_building(m) ==> {
                &&& 1 <= ty <= builtin_bounds(m).3
                &&& builtin_transition(m, tx, builtin_bounds(m).3 as int) matches Some((back, ex, ey))
                &&& back == MapId::Town
                &&& x - 1 <= ex <= x + 1
            },
            None => true,
        },
        forall|m: MapId| #[trigger] town_building(m) ==> exists|dx: int, dy: int|
            #[trigger] builtin_transition(MapId::Town, dx, dy) matches Some((to, _, _)) && to == m,
{
    assert forall|m: MapId| #[trigger] town_building(m) implies exists|dx: int, dy: int|
        #[trigger] builtin_transition(MapId::Town, dx, dy) matches Some((to, _, _)) && to == m by {
        if m == MapId::GeneralStore {
            assert(builtin_transition(MapId::Town, 5, 2) matches Some((to, _, _)) && to == m);
        } else if m == MapId::AnimalShop {
            assert(builtin_transition(MapId::Town, 22, 2) matches Some((to, _, _)) && to == m);
        } else if m == MapId::Blacksmith {
            assert(builtin_transition(MapId::Town, 22, 13) matches Some((to, _, _)) && to == m);
        } else if m == MapId::TownHouseWest {
            assert(builtin_transition(MapId::Town, 3, 13) matches Some((to, _, _)) && to == m);
        } else {
            assert(builtin_transition(MapId::Town, 9, 13) matches Some((to, _, _)) && to == m);
        }
    }
}

} // verus!
