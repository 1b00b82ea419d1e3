use vstd::prelude::*;
use crate::tool_sprites::chan;
use crate::world::MapId;

verus! {

/// The ground of one map tile.
#[derive(Debug, Clone, Copy, PartialEq, Eq, Structural)]
pub enum TileKind {
    Grass,
    Dirt,
    TilledSoil,
    WateredSoil,
    Water,
    Sand,
    Stone,
    WoodFloor,
    Path,
    Bridge,
    Void,
}

/// Side of the minimap texture in pixels; larger maps are cut to it.
pub const MAX_MAP: usize = 64;
/// Pixels of the minimap texture.
pub const MINIMAP_PIXELS: usize = 4096;
/// Bytes of the minimap texture (RGBA).
pub const MINIMAP_BYTES: usize = 16384;

/// A crop as the minimap draws it: its tile, whether it died, its stage.
#[derive(Debug, Clone, Copy, PartialEq, Eq)]
pub struct MinimapCrop {
    pub x: i32,
    pub y: i32,
    pub dead: bool,
    pub stage: u8,
}

pub open spec fn tile_rgba(kind: TileKind) -> (u8, u8, u8, u8) {
    match kind {
        TileKind::Grass => (72, 130, 60, 255),
        TileKind::Dirt => (160, 130, 90, 255),
        TileKind::TilledSoil => (110, 80, 55, 255),
        TileKind::WateredSoil => (75, 60, 45, 255),
        TileKind::Water => (55, 100, 180, 255),
        TileKind::Sand => (210, 195, 150, 255),
        TileKind::Stone => (140, 140, 145, 255),
        TileKind::WoodFloor => (150, 120, 75, 255),
        TileKind::Path => (180, 165, 130, 255),
        TileKind::Bridge => (130, 105, 65, 255),
        TileKind::Void => (20, 30, 20, 255),
    }
}

/// The minimap colour of a tile.
pub fn tile_color(kind: TileKind) -> (c: (u8, u8, u8, u8))
    ensures
        c == tile_rgba(kind),
{
    match kind {
        TileKind::Grass => (72, 130, 60, 255),
        TileKind::Dirt => (160, 130, 90, 255),
        TileKind::TilledSoil => (110, 80, 55, 255),
        TileKind::WateredSoil => (75, 60, 45, 255),
        TileKind::Water => (55, 100, 180, 255),
        TileKind::Sand => (210, 195, 150, 255),
        TileKind::Stone => (140, 140, 145, 255),
        TileKind::WoodFloor => (150, 120, 75, 255),
        TileKind::Path => (180, 165, 130, 255),
        TileKind::Bridge => (130, 105, 65, 255),
        TileKind::Void => (20, 30, 20, 255),
    }
}

pub open spec fn void_rgba() -> (u8, u8, u8, u8) { (20, 30, 20, 255) }
pub open spec fn transition_rgba() -> (u8, u8, u8, u8) { (255, 220, 100, 255) }
pub open spec fn npc_rgba() -> (u8, u8, u8, u8) { (100, 200, 255, 255) }

/// Green channel of a living crop: brighter by 30 per stage, at most 255.
pub open spec fn crop_green(stage: u8) -> u8 {
    if stage * 30 < 155 { (100 + stage * 30) as u8 } else { 255 }
}

pub open spec fn crop_rgba(c: MinimapCrop) -> (u8, u8, u8, u8) {
    if c.dead { (90, 60, 40, 255) } else { (30, crop_green(c.stage), 20, 255) }
}

/// The crop drawn on tile (`x`, `y`): the last one listed there.
pub open spec fn crop_at(crops: Seq<MinimapCrop>, x: int, y: int) -> Option<MinimapCrop>
    decreases crops.len(),
{
    if crops.len() == 0 {
        None
    } else if crops.last().x == x && crops.last().y == y {
        Some(crops.last())
    } else {
        crop_at(crops.drop_last(), x, y)
    }
}

/// Whether the trigger rectangle `r` (x, y, width, height) covers tile (`x`, `y`).
pub open spec fn rect_covers(r: (i32, i32, i32, i32), x: int, y: int) -> bool {
    r.0 <= x < r.0 + r.2 && r.1 <= y < r.1 + r.3
}

pub open spec fn in_transition(ts: Seq<(i32, i32, i32, i32)>, x: int, y: int) -> bool {
    exists|j: int| 0 <= j < ts.len() && rect_covers(#[trigger] ts[j], x, y)
}

/// Walking a non-empty rectangle tile by tile keeps every coordinate in `i32`.
pub open spec fn rect_walkable(r: (i32, i32, i32, i32)) -> bool {
    r.2 > 0 && r.3 > 0 ==> r.0 + r.2 - 1 <= i32::MAX && r.1 + r.3 - 1 <= i32::MAX
}

pub open spec fn shown_side(side: int) -> int {
    if side < 64 { side } else { 64 }
}

/// The minimap's still picture at pixel (`x`, `y`): outside the map (cut to
/// 64 x 64) the void colour; on the farm a crop's colour; a transition zone
/// highlighted; else the tile's colour.
pub open spec fn base_pixel(
    tiles: Seq<TileKind>,
    map_width: int,
    map_height: int,
    ts: Seq<(i32, i32, i32, i32)>,
    crops: Seq<MinimapCrop>,
    on_farm: bool,
    x: int,
    y: int,
) -> (u8, u8, u8, u8) {
    if !(x < shown_side(map_width) && y < shown_side(map_height)) {
        void_rgba()
    } else if on_farm && crop_at(crops, x, y) is Some {
        crop_rgba(crop_at(crops, x, y)->0)
    } else if in_transition(ts, x, y) {
        transition_rgba()
    } else {
        tile_rgba(tiles[y * map_width + x])
    }
}

fn crop_color(c: MinimapCrop) -> (rgba: (u8, u8, u8, u8))
    ensures
        rgba == crop_rgba(c),
{
    if c.dead {
        (90, 60, 40, 255)
    } else {
        let grow: u16 = (c.stage as u16) * 30;
        let green: u8 = if grow < 155 { (100 + grow) as u8 } else { 255 };
        (30, green, 20, 255)
    }
}

fn find_crop(crops: &Vec<MinimapCrop>, x: usize, y: usize) -> (r: Option<MinimapCrop>)
    requires
        x < 64,
        y < 64,
    ensures
        r == crop_at(crops@, x as int, y as int),
{
    let mut i: usize = crops.len();
    proof {
        assert(crops@.take(i as int) =~= crops@);
    }
    while i > 0
        invariant
            i <= crops.len(),
            x < 64,
            y < 64,
            crop_at(crops@, x as int, y as int) == crop_at(crops@.take(i as int), x as int, y as int),
        decreases i,
    {
        let c = crops[i - 1];
        proof {
            let s = crops@.take(i as int);
            assert(s.drop_last() =~= crops@.take(i - 1));
            assert(s.last() == c);
        }
        if c.x as i64 == x as i64 && c.y as i64 == y as i64 {
            proof {
                let s = crops@.take(i as int);
                assert(s.last() == c);
                assert(crop_at(s, x as int, y as int) == Some(c));
            }
            return Some(c);
        }
        i = i - 1;
    }
    proof {
        assert(crops@.take(0).len() == 0);
    }
    None
}

fn covered_by_transition(ts: &Vec<(i32, i32, i32, i32)>, x: usize, y: usize) -> (b: bool)
    requires
        x < 64,
        y < 64,
    ensures
        b == in_transition(ts@, x as int, y as int),
{
    let mut j: usize = 0;
    while j < ts.len()
        invariant
            j <= ts.len(),
            x < 64,
            y < 64,
            forall|k: int| 0 <= k < j ==> !rect_covers(#[trigger] ts@[k], x as int, y as int),
        decreases ts.len() - j,
    {
        let r = ts[j];
        let xi: i64 = x as i64;
        let yi: i64 = y as i64;
        if (r.0 as i64) <= xi && xi < (r.0 as i64) + (r.2 as i64) && (r.1 as i64) <= yi && yi < (r.1 as i64) + (r.3 as i64) {
            assert(rect_covers(ts@[j as int], x as int, y as int));
            return true;
        }
        j = j + 1;
    }
    false
}

proof fn lemma_tile_index(x: int, y: int, w: int, h: int)
    requires
        0 <= x < w,
        0 <= y < h,
    ensures
        0 <= y * w + x < w * h,
{
    assert(y * w <= (h - 1) * w) by (nonlinear_arith)
        requires
            0 <= y <= h - 1,
            0 <= w,
    ;
    assert((h - 1) * w + w == w * h) by (nonlinear_arith);
    assert(0 <= y * w) by (nonlinear_arith)
        requires
            0 <= y,
            0 <= w,
    ;
}

/// The minimap's still picture of a map: 64 x 64 colours, row by row. The
/// map's tiles come row by row, `map_width` to a row; `transitions` are the
/// trigger rectangles of its exits; crops are drawn only on the farm.
pub fn minimap_base_pixels(
    tiles: &Vec<TileKind>,
    map_width: usize,
    map_height: usize,
    transitions: &Vec<(i32, i32, i32, i32)>,
    crops: &Vec<MinimapCrop>,
    on_farm: bool,
) -> (base: Vec<(u8, u8, u8, u8)>)
    requires
        tiles.len() == map_width * map_height,
        forall|j: int| 0 <= j < transitions.len() ==> rect_walkable(#[trigger] transitions@[j]),
    ensures
        base.len() == MINIMAP_PIXELS,
        forall|x: int, y: int| 0 <= x < 64 && 0 <= y < 64 ==>
            #[trigger] base@[y * 64 + x] == base_pixel(
                tiles@, map_width as int, map_height as int, transitions@, crops@, on_farm, x, y),
{
    let w: usize = if map_width < 64 { map_width } else { 64 };
    let h: usize = if map_height < 64 { map_height } else { 64 };
    let mut base: Vec<(u8, u8, u8, u8)> = Vec::new();
    let mut y: usize = 0;
    while y < 64
        invariant
            y <= 64,
            w == shown_side(map_width as int),
            h == shown_side(map_height as int),
            tiles.len() == map_width * map_height,
            base.len() == y * 64,
            forall|px: int, py: int| 0 <= px < 64 && 0 <= py < y ==>
                #[trigger] base@[py * 64 + px] == base_pixel(
                    tiles@, map_width as int, map_height as int, transitions@, crops@, on_farm, px, py),
        decreases 64 - y,
    {
        let mut x: usize = 0;
        while x < 64
            invariant
                y < 64,
                x <= 64,
                w == shown_side(map_width as int),
                h == shown_side(map_height as int),
                tiles.len() == map_width * map_height,
                base.len() == y * 64 + x,
                forall|px: int, py: int| 0 <= px < 64 && 0 <= py < y ==>
                    #[trigger] base@[py * 64 + px] == base_pixel(
                        tiles@, map_width as int, map_height as int, transitions@, crops@, on_farm, px, py),
                forall|px: int| 0 <= px < x ==>
                    #[trigger] base@[y * 64 + px] == base_pixel(
                        tiles@, map_width as int, map_height as int, transitions@, crops@, on_farm, px, y as int),
            decreases 64 - x,
        {
            let rgba: (u8, u8, u8, u8) = if !(x < w && y < h) {
                (20, 30, 20, 255)
            } else {
                let found = if on_farm { find_crop(crops, x, y) } else { None };
                match found {
                    Some(c) => crop_color(c),
                    None => {
                        if covered_by_transition(transitions, x, y) {
                            (255, 220, 100, 255)
                        } else {
                            proof {
                                lemma_tile_index(x as int, y as int, map_width as int, map_height as int);
                            }
                            tile_color(tiles[y * map_width + x])
                        }
                    },
                }
            };
            base.push(rgba);
            x = x + 1;
        }
        y = y + 1;
    }
    base
}

/// What the minimap remembers between frames: the map it last drew and that
/// map's still picture, cut to at most 64 x 64 tiles.
pub struct MinimapState {
    pub cached_map: Option<MapId>,
    pub base_pixels: Vec<(u8, u8, u8, u8)>,
    pub map_width: usize,
    pub map_height: usize,
}

impl MinimapState {
    /// A blank minimap: nothing drawn yet, all void, full size.
    pub fn new() -> (s: Self)
        ensures
            s.cached_map is None,
            s.base_pixels.len() == MINIMAP_PIXELS,
            forall|k: int| 0 <= k < MINIMAP_PIXELS ==> #[trigger] s.base_pixels@[k] == void_rgba(),
            s.map_width == MAX_MAP,
            s.map_height == MAX_MAP,
    {
        let mut base: Vec<(u8, u8, u8, u8)> = Vec::new();
        let mut i: usize = 0;
        while i < MINIMAP_PIXELS
            invariant
                i <= MINIMAP_PIXELS,
                base.len() == i,
                forall|k: int| 0 <= k < i ==> #[trigger] base@[k] == void_rgba(),
            decreases MINIMAP_PIXELS - i,
        {
            base.push((20, 30, 20, 255));
            i = i + 1;
        }
        MinimapState { cached_map: None, base_pixels: base, map_width: MAX_MAP, map_height: MAX_MAP }
    }

    /// Redraws the still picture when the player is on another map than the
    /// one last drawn; on the same map nothing changes. The tiles,
    /// transitions and crops are those of `current`.
    pub fn refresh(
        &mut self,
        current: MapId,
        tiles: &Vec<TileKind>,
        map_width: usize,
        map_height: usize,
        transitions: &Vec<(i32, i32, i32, i32)>,
        crops: &Vec<MinimapCrop>,
    )
        requires
            tiles.len() == map_width * map_height,
            forall|j: int| 0 <= j < transitions.len() ==> rect_walkable(#[trigger] transitions@[j]),
        ensures
            old(self).cached_map == Some(current) ==> *final(self) == *old(self),
            old(self).cached_map != Some(current) ==> {
                &&& final(self).cached_map == Some(current)
                &&& final(self).map_width == shown_side(map_width as int)
                &&& final(self).map_height == shown_side(map_height as int)
                &&& final(self).base_pixels.len() == MINIMAP_PIXELS
                &&& forall|x: int, y: int| 0 <= x < 64 && 0 <= y < 64 ==>
                    #[trigger] final(self).base_pixels@[y * 64 + x] == base_pixel(
                        tiles@, map_width as int, map_height as int, transitions@, crops@,
                        current == MapId::Farm, x, y)
            },
    {
        let same = match self.cached_map {
            Some(m) => m == current,
            None => false,
        };
        if same {
            return;
        }
        let on_farm = current == MapId::Farm;
        self.base_pixels = minimap_base_pixels(tiles, map_width, map_height, transitions, crops, on_farm);
        self.map_width = if map_width < 64 { map_width } else { 64 };
        self.map_height = if map_height < 64 { map_height } else { 64 };
        self.cached_map = Some(current);
    }
}

/// Whether pixel (`x`, `y`) lies in the 3 x 3 dot drawn round the player,
/// inside the shown part of the map.
pub open spec fn in_player_dot(player: Option<(i32, i32)>, w: int, h: int, x: int, y: int) -> bool {
    &&& player matches Some(p)
    &&& 0 <= p.0 < w && 0 <= p.1 < h
    &&& p.0 - 1 <= x <= p.0 + 1 && p.1 - 1 <= y <= p.1 + 1
    &&& 0 <= x < w && 0 <= y < h
}

pub open spec fn npc_on(npcs: Seq<(usize, usize)>, x: int, y: int) -> bool {
    exists|j: int| 0 <= j < npcs.len() && (#[trigger] npcs[j]).0 == x && npcs[j].1 == y
}

/// The player's dot: white while blinking on, amber otherwise.
pub open spec fn player_rgba(blink: bool) -> (u8, u8, u8, u8) {
    if blink { (255, 255, 255, 255) } else { (255, 200, 50, 255) }
}

/// One pixel of a minimap frame: the player's dot over the villagers' dots
/// over the still picture; dots only inside the shown `w` x `h` part.
pub open spec fn frame_pixel(
    base: Seq<(u8, u8, u8, u8)>,
    w: int,
    h: int,
    npcs: Seq<(usize, usize)>,
    player: Option<(i32, i32)>,
    blink: bool,
    x: int,
    y: int,
) -> (u8, u8, u8, u8) {
    if in_player_dot(player, w, h, x, y) {
        player_rgba(blink)
    } else if x < w && y < h && npc_on(npcs, x, y) {
        npc_rgba()
    } else {
        base[y * 64 + x]
    }
}

/// Byte index of channel `c` of pixel (`x`, `y`) in the 64-pixel-wide texture.
pub open spec fn map_byte(x: int, y: int, c: int) -> int {
    (y * 64 + x) * 4 + c
}

fn npc_here(npcs: &Vec<(usize, usize)>, x: usize, y: usize) -> (b: bool)
    ensures
        b == npc_on(npcs@, x as int, y as int),
{
    let mut j: usize = 0;
    while j < npcs.len()
        invariant
            j <= npcs.len(),
            forall|k: int| 0 <= k < j ==> !((#[trigger] npcs@[k]).0 == x && npcs@[k].1 == y),
        decreases npcs.len() - j,
    {
        if npcs[j].0 == x && npcs[j].1 == y {
            assert(npcs@[j as int].0 == x && npcs@[j as int].1 == y);
            return true;
        }
        j = j + 1;
    }
    false
}

/// The RGBA bytes of one minimap frame, 64 x 64 pixels row by row: the still
/// picture with a dot for each villager standing on tile (x, y) and a 3 x 3
/// dot round the player, inside the shown `w` x `h` part of the map.
pub fn minimap_frame(
    base: &Vec<(u8, u8, u8, u8)>,
    w: usize,
    h: usize,
    npcs: &Vec<(usize, usize)>,
    player: Option<(i32, i32)>,
    blink: bool,
) -> (data: Vec<u8>)
    requires
        base.len() == MINIMAP_PIXELS,
        w <= 64,
        h <= 64,
    ensures
        data.len() == MINIMAP_BYTES,
        forall|x: int, y: int, c: int| 0 <= x < 64 && 0 <= y < 64 && 0 <= c < 4 ==>
            #[trigger] data@[map_byte(x, y, c)] == chan(
                frame_pixel(base@, w as int, h as int, npcs@, player, blink, x, y), c),
{
    let mut data: Vec<u8> = Vec::new();
    let mut y: usize = 0;
    while y < 64
        invariant
            y <= 64,
            w <= 64,
            h <= 64,
            base.len() == MINIMAP_PIXELS,
            data.len() == y * 256,
            forall|px: int, py: int, c: int| 0 <= px < 64 && 0 <= py < y && 0 <= c < 4 ==>
                #[trigger] data@[map_byte(px, py, c)] == chan(
                    frame_pixel(base@, w as int, h as int, npcs@, player, blink, px, py), c),
        decreases 64 - y,
    {
        let mut x: usize = 0;
        while x < 64
            invariant
                y < 64,
                x <= 64,
                w <= 64,
                h <= 64,
                base.len() == MINIMAP_PIXELS,
                data.len() == y * 256 + x * 4,
                forall|px: int, py: int, c: int| 0 <= px < 64 && 0 <= py < y && 0 <= c < 4 ==>
                    #[trigger] data@[map_byte(px, py, c)] == chan(
                        frame_pixel(base@, w as int, h as int, npcs@, player, blink, px, py), c),
                forall|px: int, c: int| 0 <= px < x && 0 <= c < 4 ==>
                    #[trigger] data@[map_byte(px, y as int, c)] == chan(
                        frame_pixel(base@, w as int, h as int, npcs@, player, blink, px, y as int), c),
            decreases 64 - x,
        {
            let xi: i64 = x as i64;
            let yi: i64 = y as i64;
            let dot: bool = match player {
                Some(p) => {
                    let px: i64 = p.0 as i64;
                    let py: i64 = p.1 as i64;
                    0 <= px && px < w as i64 && 0 <= py && py < h as i64
                        && px - 1 <= xi && xi <= px + 1 && py - 1 <= yi && yi <= py + 1
                        && x < w && y < h
                },
                None => false,
            };
            let rgba: (u8, u8, u8, u8) = if dot {
                if blink { (255, 255, 255, 255) } else { (255, 200, 50, 255) }
            } else if x < w && y < h && npc_here(npcs, x, y) {
                (100, 200, 255, 255)
            } else {
                base[y * 64 + x]
            };
            assert(rgba == frame_pixel(base@, w as int, h as int, npcs@, player, blink, x as int, y as int));
            let ghost before = data@;
            data.push(rgba.0);
            data.push(rgba.1);
            data.push(rgba.2);
            data.push(rgba.3);
            proof {
                assert forall|px: int, py: int, c: int| 0 <= px < 64 && 0 <= py < y && 0 <= c < 4 implies
                    #[trigger] data@[map_byte(px, py, c)] == chan(
                        frame_pixel(base@, w as int, h as int, npcs@, player, blink, px, py), c) by {
                    assert(data@[map_byte(px, py, c)] == before[map_byte(px, py, c)]);
                }
                assert forall|px: int, c: int| 0 <= px < x + 1 && 0 <= c < 4 implies
                    #[trigger] data@[map_byte(px, y as int, c)] == chan(
                        frame_pixel(base@, w as int, h as int, npcs@, player, blink, px, y as int), c) by {
                    if px < x {
                        assert(data@[map_byte(px, y as int, c)] == before[map_byte(px, y as int, c)]);
                    }
                }
            }
            x = x + 1;
        }
        y = y + 1;
    }
    data
}

} // verus!
