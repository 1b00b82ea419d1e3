use vstd::prelude::*;

verus! {

#[derive(Debug, Clone, Copy, PartialEq, Eq, Hash, Structural)]
pub enum Facing {
    Up,
    Down,
    Left,
    Right,
}

impl Default for Facing {
    fn default() -> (f: Self)
        ensures
            f == Facing::Down,
    {
        Facing::Down
    }
}

#[derive(Debug, Clone, Copy, PartialEq, Eq, Hash, Structural)]
pub enum ToolKind {
    Hoe,
    WateringCan,
    Axe,
    Pickaxe,
    FishingRod,
    Scythe,
}

#[derive(Debug, Clone, Copy, PartialEq, Eq, Hash, Structural)]
pub enum ToolTier {
    Basic,
    Copper,
    Iron,
    Gold,
    Iridium,
}

/// Rank of a tier, Basic = 0 … Iridium = 4.
pub open spec fn tier_rank(t: ToolTier) -> nat {
    match t {
        ToolTier::Basic => 0,
        ToolTier::Copper => 1,
        ToolTier::Iron => 2,
        ToolTier::Gold => 3,
        ToolTier::Iridium => 4,
    }
}

/// Gold paid to upgrade from a tier to the next one (none from Iridium).
pub open spec fn upgrade_gold(t: ToolTier) -> nat {
    match t {
        ToolTier::Basic => 2000,
        ToolTier::Copper => 5000,
        ToolTier::Iron => 10000,
        ToolTier::Gold => 25000,
        ToolTier::Iridium => 0,
    }
}

/// The gold price of reaching a tier.
pub open spec fn reach_cost(t: ToolTier) -> u32 {
    match t {
        ToolTier::Basic => 0u32,
        ToolTier::Copper => 2000u32,
        ToolTier::Iron => 5000u32,
        ToolTier::Gold => 10000u32,
        ToolTier::Iridium => 25000u32,
    }
}

/// The tier after a tier; none after Iridium.
pub open spec fn tool_tier_after(t: ToolTier) -> Option<ToolTier> {
    match t {
        ToolTier::Basic => Some(ToolTier::Copper),
        ToolTier::Copper => Some(ToolTier::Iron),
        ToolTier::Iron => Some(ToolTier::Gold),
        ToolTier::Gold => Some(ToolTier::Iridium),
        ToolTier::Iridium => None,
    }
}

/// Bars needed to upgrade from a tier.
pub open spec fn bars_needed(t: ToolTier) -> u8 {
    if t == ToolTier::Iridium { 0u8 } else { 5u8 }
}

/// The bar item an upgrade from a tier takes.
pub open spec fn bar_item(t: ToolTier) -> Option<&'static str> {
    match t {
        ToolTier::Basic => Some("copper_bar"),
        ToolTier::Copper => Some("iron_bar"),
        ToolTier::Iron => Some("gold_bar"),
        ToolTier::Gold => Some("iridium_bar"),
        ToolTier::Iridium => None::<&'static str>,
    }
}

impl ToolTier {
    /// The price of reaching this tier.
    pub fn upgrade_cost(&self) -> (r: u32)
        ensures
            r == reach_cost(*self),
    {
        match self {
            ToolTier::Basic => 0,
            ToolTier::Copper => 2_000,
            ToolTier::Iron => 5_000,
            ToolTier::Gold => 10_000,
            ToolTier::Iridium => 25_000,
        }
    }

    /// The next tier, or None at Iridium.
    pub fn next(&self) -> (r: Option<Self>)
        ensures
            r == tool_tier_after(*self),
            match r {
                Some(n) => tier_rank(n) == tier_rank(*self) + 1,
                None => *self == ToolTier::Iridium,
            },
    {
        match self {
            ToolTier::Basic => Some(ToolTier::Copper),
            ToolTier::Copper => Some(ToolTier::Iron),
            ToolTier::Iron => Some(ToolTier::Gold),
            ToolTier::Gold => Some(ToolTier::Iridium),
            ToolTier::Iridium => None,
        }
    }

    /// Gold cost to upgrade from this tier to the next.
    pub fn upgrade_cost_gold(&self) -> (r: u32)
        ensures
            r == upgrade_gold(*self),
    {
        match self {
            ToolTier::Basic => 2000,
            ToolTier::Copper => 5000,
            ToolTier::Iron => 10000,
            ToolTier::Gold => 25000,
            ToolTier::Iridium => 0,
        }
    }

    /// Number of bars required to upgrade from this tier.
    pub fn upgrade_bars_needed(&self) -> (r: u8)
        ensures
            r == bars_needed(*self),
    {
        match self {
            ToolTier::Basic | ToolTier::Copper | ToolTier::Iron | ToolTier::Gold => 5,
            ToolTier::Iridium => 0,
        }
    }

    /// The bar item needed to upgrade from this tier.
    pub fn upgrade_bar_item(&self) -> (r: Option<&'static str>)
        ensures
            r == bar_item(*self),
    {
        match self {
            ToolTier::Basic => Some("copper_bar"),
            ToolTier::Copper => Some("iron_bar"),
            ToolTier::Iron => Some("gold_bar"),
            ToolTier::Gold => Some("iridium_bar"),
            ToolTier::Iridium => None,
        }
    }

    /// Days the blacksmith takes for any upgrade.
    pub fn upgrade_days(&self) -> (r: u8)
        ensures
            r == 2,
    {
        2
    }
}

/// Each further upgrade costs strictly more gold than the one before.
pub proof fn law_upgrade_cost_increases(a: ToolTier, b: ToolTier)
    requires
        tier_rank(a) < tier_rank(b),
        b != ToolTier::Iridium,
    ensures
        upgrade_gold(a) < upgrade_gold(b),
{
}

/// The one-tile step of each facing direction.
pub open spec fn facing_step(f: Facing) -> (int, int) {
    match f {
        Facing::Up => (0, 1),
        Facing::Down => (0, -1),
        Facing::Left => (-1, 0),
        Facing::Right => (1, 0),
    }
}

pub fn facing_delta(facing: Facing) -> (r: (i32, i32))
    ensures
        (r.0 as int, r.1 as int) == facing_step(facing),
{
    match facing {
        Facing::Up => (0, 1),
        Facing::Down => (0, -1),
        Facing::Left => (-1, 0),
        Facing::Right => (1, 0),
    }
}

/// Grid offset of the tile in front of the player.
pub fn facing_offset(facing: &Facing) -> (r: (i32, i32))
    ensures
        (r.0 as int, r.1 as int) == facing_step(*facing),
{
    match facing {
        Facing::Up => (0, 1),
        Facing::Down => (0, -1),
        Facing::Left => (-1, 0),
        Facing::Right => (1, 0),
    }
}

pub open spec fn tiles_view(v: Seq<(i32, i32)>) -> Seq<(int, int)> {
    v.map_values(|p: (i32, i32)| (p.0 as int, p.1 as int))
}

/// `length` tiles starting at (sx, sy) and stepping along `facing`.
pub open spec fn line_spec(sx: int, sy: int, facing: Facing, length: nat) -> Seq<(int, int)> {
    Seq::new(length, |i: int| (sx + facing_step(facing).0 * i, sy + facing_step(facing).1 * i))
}

/// The square of side `2r + 1` centred on (cx, cy), row by row from the
/// bottom-left corner.
pub open spec fn square_spec(cx: int, cy: int, r: nat) -> Seq<(int, int)> {
    let side: int = 2 * (r as int) + 1;
    Seq::new((side * side) as nat, |k: int| (cx - r + k % side, cy - r + k / side))
}

/// The tiles a watering-can of each tier covers, as the documentation
/// table gives them: one tile; a line of 3 or 5 along the facing; a 3 × 3
/// square; a 6 × 6 area from two tiles below-left to three tiles above-right
/// of the target.
pub open spec fn watering_spec(tier: ToolTier, x: int, y: int, facing: Facing) -> Seq<(int, int)> {
    match tier {
        ToolTier::Basic => seq![(x, y)],
        ToolTier::Copper => line_spec(x, y, facing, 3),
        ToolTier::Iron => line_spec(x, y, facing, 5),
        ToolTier::Gold => square_spec(x, y, 1),
        ToolTier::Iridium => Seq::new(36, |k: int| (x - 2 + k % 6, y - 2 + k / 6)),
    }
}

proof fn lemma_tiles_push(s: Seq<(i32, i32)>, p: (i32, i32))
    ensures
        tiles_view(s.push(p)) == tiles_view(s).push((p.0 as int, p.1 as int)),
{
    assert(tiles_view(s.push(p)) =~= tiles_view(s).push((p.0 as int, p.1 as int)));
}

/// A coordinate at least four tiles away from the ends of the `i32`
/// range, so that the tiles around it can be named.
pub open spec fn coord_ok(v: i32) -> bool {
    i32::MIN + 4 <= v <= i32::MAX - 4
}

fn line_tiles(sx: i32, sy: i32, facing: Facing, length: u8) -> (r: Vec<(i32, i32)>)
    requires
        coord_ok(sx),
        coord_ok(sy),
        length <= 5,
    ensures
        tiles_view(r@) == line_spec(sx as int, sy as int, facing, length as nat),
{
    let (dx, dy) = facing_delta(facing);
    let mut tiles: Vec<(i32, i32)> = Vec::new();
    let mut i: i32 = 0;
    while i < length as i32
        invariant
            0 <= i <= length,
            length <= 5,
            (dx as int, dy as int) == facing_step(facing),
            coord_ok(sx),
            coord_ok(sy),
            tiles_view(tiles@) == line_spec(sx as int, sy as int, facing, i as nat),
        decreases length - i,
    {
        proof {
            assert(-4 <= dx * i <= 4) by (nonlinear_arith)
                requires -1 <= dx <= 1, 0 <= i < 5;
            assert(-4 <= dy * i <= 4) by (nonlinear_arith)
                requires -1 <= dy <= 1, 0 <= i < 5;
        }
        let ghost prev = tiles@;
        let pt = (sx + dx * i, sy + dy * i);
        tiles.push(pt);
        i += 1;
        proof {
            lemma_tiles_push(prev, pt);
            assert(line_spec(sx as int, sy as int, facing, i as nat) =~= line_spec(sx as int, sy as int, facing, (i - 1) as nat).push((sx + dx * (i - 1), sy + dy * (i - 1))));
            assert(tiles_view(tiles@) =~= line_spec(sx as int, sy as int, facing, i as nat));
        }
    }
    tiles
}

fn square_area(cx: i32, cy: i32, radius: i32) -> (r: Vec<(i32, i32)>)
    requires
        coord_ok(cx),
        coord_ok(cy),
        0 <= radius <= 3,
    ensures
        tiles_view(r@) == square_spec(cx as int, cy as int, radius as nat),
{
    let side = 2 * radius + 1;
    let mut tiles: Vec<(i32, i32)> = Vec::new();
    let mut dy: i32 = -radius;
    proof {
        assert((dy + radius) * side == 0) by (nonlinear_arith) requires dy + radius == 0;
        assert(tiles_view(tiles@) =~= square_spec(cx as int, cy as int, radius as nat).take(0));
    }
    while dy <= radius
        invariant
            side == 2 * radius + 1,
            0 <= radius <= 3,
            coord_ok(cx),
            coord_ok(cy),
            -radius <= dy <= radius + 1,
            tiles_view(tiles@) == square_spec(cx as int, cy as int, radius as nat).take((dy + radius) * side),
        decreases radius + 1 - dy,
    {
        let mut dx: i32 = -radius;
        while dx <= radius
            invariant
                side == 2 * radius + 1,
                0 <= radius <= 3,
                coord_ok(cx),
                coord_ok(cy),
                -radius <= dy <= radius,
                -radius <= dx <= radius + 1,
                tiles_view(tiles@) == square_spec(cx as int, cy as int, radius as nat).take((dy + radius) * side + (dx + radius)),
            decreases radius + 1 - dx,
        {
            let ghost k: int = (dy + radius) * side + (dx + radius);
            proof {
                assert(0 <= k < side * side) by (nonlinear_arith)
                    requires k == (dy + radius) * side + (dx + radius), 0 <= dy + radius < side, 0 <= dx + radius < side;
                assert(k % (side as int) == dx + radius && k / (side as int) == dy + radius) by (nonlinear_arith)
                    requires k == (dy + radius) * side + (dx + radius), 0 <= dx + radius < side, side > 0;
            }
            let ghost prev = tiles@;
            let pt = (cx + dx, cy + dy);
            tiles.push(pt);
            dx += 1;
            proof {
                let sq = square_spec(cx as int, cy as int, radius as nat);
                lemma_tiles_push(prev, pt);
                assert(sq.take(k + 1) =~= sq.take(k).push(sq[k]));
                assert(tiles_view(tiles@) =~= sq.take(k + 1));
            }
        }
        dy += 1;
        proof {
            assert((dy - 1 + radius) * side + (radius + 1 + radius) == (dy + radius) * side) by (nonlinear_arith)
                requires side == 2 * radius + 1;
        }
    }
    proof {
        assert((radius + 1 + radius) * side == side * side) by (nonlinear_arith)
            requires side == 2 * radius + 1;
        assert(tiles_view(tiles@) =~= square_spec(cx as int, cy as int, radius as nat));
    }
    tiles
}

/// All tiles a watering-can action covers, by tier and facing.
pub fn watering_can_area(tier: ToolTier, target_x: i32, target_y: i32, facing: Facing) -> (r: Vec<(i32, i32)>)
    requires
        tier != ToolTier::Basic ==> coord_ok(target_x) && coord_ok(target_y),
    ensures
        tiles_view(r@) == watering_spec(tier, target_x as int, target_y as int, facing),
{
    match tier {
        ToolTier::Basic => {
            let mut v: Vec<(i32, i32)> = Vec::new();
            v.push((target_x, target_y));
            proof { assert(tiles_view(v@) =~= seq![(target_x as int, target_y as int)]); }
            v
        }
        ToolTier::Copper => line_tiles(target_x, target_y, facing, 3),
        ToolTier::Iron => line_tiles(target_x, target_y, facing, 5),
        ToolTier::Gold => square_area(target_x, target_y, 1),
        ToolTier::Iridium => {
            let half: i32 = 3;
            let mut tiles: Vec<(i32, i32)> = Vec::new();
            let ghost full = Seq::new(36, |k: int| (target_x - 2 + k % 6, target_y - 2 + k / 6));
            let mut dy: i32 = -(half - 1);
            proof { assert(tiles_view(tiles@) =~= full.take(0)); }
            while dy <= half
                invariant
                    half == 3,
                    coord_ok(target_x),
                    coord_ok(target_y),
                    -2 <= dy <= 4,
                    full == Seq::new(36, |k: int| (target_x - 2 + k % 6, target_y - 2 + k / 6)),
                    tiles_view(tiles@) == full.take((dy + 2) * 6),
                decreases 4 - dy,
            {
                let mut dx: i32 = -(half - 1);
                while dx <= half
                    invariant
                        half == 3,
                        coord_ok(target_x),
                        coord_ok(target_y),
                        -2 <= dy <= 3,
                        -2 <= dx <= 4,
                        full == Seq::new(36, |k: int| (target_x - 2 + k % 6, target_y - 2 + k / 6)),
                        tiles_view(tiles@) == full.take((dy + 2) * 6 + (dx + 2)),
                    decreases 4 - dx,
                {
                    let ghost k: int = (dy + 2) * 6 + (dx + 2);
                    proof {
                        assert(k % 6 == dx + 2 && k / 6 == dy + 2) by (nonlinear_arith)
                            requires k == (dy + 2) * 6 + (dx + 2), 0 <= dx + 2 < 6;
                    }
                    let ghost prev = tiles@;
                    let pt = (target_x + dx, target_y + dy);
                    tiles.push(pt);
                    dx += 1;
                    proof {
                        lemma_tiles_push(prev, pt);
                        assert(full.take(k + 1) =~= full.take(k).push(full[k]));
                    }
                }
                dy += 1;
            }
            proof { assert(tiles_view(tiles@) =~= full); }
            tiles
        }
    }
}

/// The order in which tools are cycled.
pub const TOOL_ORDER: [ToolKind; 6] = [
    ToolKind::Hoe,
    ToolKind::WateringCan,
    ToolKind::Axe,
    ToolKind::Pickaxe,
    ToolKind::FishingRod,
    ToolKind::Scythe,
];

/// Position of a tool in the cycling order.
pub open spec fn tool_pos(t: ToolKind) -> nat {
    match t {
        ToolKind::Hoe => 0,
        ToolKind::WateringCan => 1,
        ToolKind::Axe => 2,
        ToolKind::Pickaxe => 3,
        ToolKind::FishingRod => 4,
        ToolKind::Scythe => 5,
    }
}

fn tool_at(i: usize) -> (t: ToolKind)
    requires
        i < 6,
    ensures
        tool_pos(t) == i,
{
    if i == 0 { ToolKind::Hoe }
    else if i == 1 { ToolKind::WateringCan }
    else if i == 2 { ToolKind::Axe }
    else if i == 3 { ToolKind::Pickaxe }
    else if i == 4 { ToolKind::FishingRod }
    else { ToolKind::Scythe }
}

fn tool_position(t: ToolKind) -> (i: usize)
    ensures
        i == tool_pos(t),
{
    match t {
        ToolKind::Hoe => 0,
        ToolKind::WateringCan => 1,
        ToolKind::Axe => 2,
        ToolKind::Pickaxe => 3,
        ToolKind::FishingRod => 4,
        ToolKind::Scythe => 5,
    }
}

proof fn lemma_tool_pos_injective(a: ToolKind, b: ToolKind)
    ensures
        tool_pos(a) == tool_pos(b) ==> a == b,
        tool_pos(a) < 6,
{
}

/// The equipped tool after one frame of cycling: the forward key (E) moves
/// one tool on, then the back key (Q) one tool back, both wrapping.
pub fn cycle_tool(current: ToolKind, forward: bool, back: bool) -> (r: ToolKind)
    ensures
        tool_pos(r) == (tool_pos(current) + (if forward { 1int } else { 0 }) + (if back { 5int } else { 0 })) % 6,
{
    let mut idx = tool_position(current);
    if forward {
        idx = (idx + 1) % 6;
    }
    if back {
        idx = if idx == 0 { 5 } else { idx - 1 };
    }
    tool_at(idx)
}

/// Cycling forward then back returns to the same tool.
pub proof fn law_cycle_round_trip(t: ToolKind, r: ToolKind)
    requires
        tool_pos(r) == (tool_pos(t) + 1 + 5) % 6,
    ensures
        r == t,
{
    lemma_tool_pos_injective(r, t);
}

/// Walk-cycle frame shown during a tool swing frame.
pub fn tool_bob_frame(frame: usize) -> (r: usize)
    requires
        frame < usize::MAX,
    ensures
        r == (frame + 1) % 4,
{
    (frame + 1) % 4
}

/// Sound played when a tool is used.
pub fn tool_use_sfx(tool: ToolKind) -> (r: &'static str)
    ensures
        r == match tool {
            ToolKind::Hoe => "sfx_hoe",
            ToolKind::WateringCan => "sfx_water",
            ToolKind::Axe => "sfx_axe",
            ToolKind::Pickaxe => "sfx_pickaxe",
            ToolKind::FishingRod => "sfx_cast",
            ToolKind::Scythe => "sfx_scythe",
        },
{
    match tool {
        ToolKind::Hoe => "sfx_hoe",
        ToolKind::WateringCan => "sfx_water",
        ToolKind::Axe => "sfx_axe",
        ToolKind::Pickaxe => "sfx_pickaxe",
        ToolKind::FishingRod => "sfx_cast",
        ToolKind::Scythe => "sfx_scythe",
    }
}

/// Sound played when a tool swing reaches its impact frame.
pub fn tool_impact_sfx(tool: ToolKind) -> (r: &'static str)
    ensures
        r == match tool {
            ToolKind::Axe => "axe_chop",
            ToolKind::Pickaxe => "pickaxe_hit",
            ToolKind::Hoe => "hoe_till",
            ToolKind::WateringCan => "water_splash",
            ToolKind::FishingRod => "fishing_cast",
            ToolKind::Scythe => "tool_generic",
        },
{
    match tool {
        ToolKind::Axe => "axe_chop",
        ToolKind::Pickaxe => "pickaxe_hit",
        ToolKind::Hoe => "hoe_till",
        ToolKind::WateringCan => "water_splash",
        ToolKind::FishingRod => "fishing_cast",
        _ => "tool_generic",
    }
}

/// The tool an item id stands for.
pub open spec fn tool_of_item(id: Seq<char>) -> Option<ToolKind> {
    if id == "hoe"@ { Some(ToolKind::Hoe) }
    else if id == "watering_can"@ { Some(ToolKind::WateringCan) }
    else if id == "axe"@ { Some(ToolKind::Axe) }
    else if id == "pickaxe"@ { Some(ToolKind::Pickaxe) }
    else if id == "fishing_rod"@ { Some(ToolKind::FishingRod) }
    else if id == "scythe"@ { Some(ToolKind::Scythe) }
    else { None }
}

/// The tool an inventory item stands for.
pub fn tool_kind_from_item_id(item_id: &str) -> (r: Option<ToolKind>)
    ensures
        r == tool_of_item(item_id@),
{
    if crate::text::str_eq(item_id, "hoe") { Some(ToolKind::Hoe) }
    else if crate::text::str_eq(item_id, "watering_can") { Some(ToolKind::WateringCan) }
    else if crate::text::str_eq(item_id, "axe") { Some(ToolKind::Axe) }
    else if crate::text::str_eq(item_id, "pickaxe") { Some(ToolKind::Pickaxe) }
    else if crate::text::str_eq(item_id, "fishing_rod") { Some(ToolKind::FishingRod) }
    else if crate::text::str_eq(item_id, "scythe") { Some(ToolKind::Scythe) }
    else { None }
}

/// The name of a tool tier.
pub open spec fn tier_name(tier: ToolTier) -> &'static str {
    match tier {
        ToolTier::Basic => "Basic",
        ToolTier::Copper => "Copper",
        ToolTier::Iron => "Iron",
        ToolTier::Gold => "Gold",
        ToolTier::Iridium => "Iridium",
    }
}

pub fn tool_tier_label(tier: ToolTier) -> (r: &'static str)
    ensures
        r == tier_name(tier),
{
    match tier {
        ToolTier::Basic => "Basic",
        ToolTier::Copper => "Copper",
        ToolTier::Iron => "Iron",
        ToolTier::Gold => "Gold",
        ToolTier::Iridium => "Iridium",
    }
}

/// The unit step of a facing, as a law states it: up is +y, down -y, left
/// -x, right +x.
pub open spec fn unit_step(f: Facing) -> (int, int) {
    match f {
        Facing::Up => (0, 1),
        Facing::Down => (0, -1),
        Facing::Left => (-1, 0),
        Facing::Right => (1, 0),
    }
}

/// The watering can's reach by tier: Basic waters the target alone; Copper
/// the target and the next two tiles along the facing (3 tiles); Iron the
/// target and the next four (5 tiles); Gold the 3 x 3 square round the
/// target (9 tiles); Iridium the 6 x 6 block from two tiles left and below
/// the target to three tiles right and above it (36 tiles). Each area lists
/// every covered tile exactly once.
pub proof fn law_watering_can_reach(x: int, y: int, f: Facing)
    ensures
        watering_spec(ToolTier::Basic, x, y, f) == seq![(x, y)],
        watering_spec(ToolTier::Copper, x, y, f).len() == 3,
        forall|i: int| 0 <= i < 3 ==> #[trigger] watering_spec(ToolTier::Copper, x, y, f)[i]
            == (x + unit_step(f).0 * i, y + unit_step(f).1 * i),
        watering_spec(ToolTier::Iron, x, y, f).len() == 5,
        forall|i: int| 0 <= i < 5 ==> #[trigger] watering_spec(ToolTier::Iron, x, y, f)[i]
            == (x + unit_step(f).0 * i, y + unit_step(f).1 * i),
        watering_spec(ToolTier::Gold, x, y, f).len() == 9,
        forall|a: int, b: int| #[trigger] watering_spec(ToolTier::Gold, x, y, f).contains((a, b))
            <==> x - 1 <= a <= x + 1 && y - 1 <= b <= y + 1,
        watering_spec(ToolTier::Gold, x, y, f).no_duplicates(),
        watering_spec(ToolTier::Iridium, x, y, f).len() == 36,
        forall|a: int, b: int| #[trigger] watering_spec(ToolTier::Iridium, x, y, f).contains((a, b))
            <==> x - 2 <= a <= x + 3 && y - 2 <= b <= y + 3,
        watering_spec(ToolTier::Iridium, x, y, f).no_duplicates(),
{
    let g = watering_spec(ToolTier::Gold, x, y, f);
    assert(g == square_spec(x, y, 1));
    assert(g.len() == 9) by {
        let side: int = 2 * (1nat as int) + 1;
        assert(side == 3);
        assert(side * side == 9) by (nonlinear_arith)
            requires
                side == 3,
        ;
    }
    assert forall|a: int, b: int| #[trigger] g.contains((a, b)) <==> x - 1 <= a <= x + 1 && y - 1 <= b <= y + 1 by {
        if x - 1 <= a <= x + 1 && y - 1 <= b <= y + 1 {
            let q = b - (y - 1);
            let r0 = a - (x - 1);
            let k = q * 3 + r0;
            assert(k % 3 == r0 && k / 3 == q) by (nonlinear_arith)
                requires
                    k == q * 3 + r0,
                    0 <= r0 < 3,
                    0 <= q < 3,
            ;
            assert(0 <= k < 9);
            assert(g == square_spec(x, y, 1));
            assert(g[k] == (x - 1 + k % 3, y - 1 + k / 3));
            assert(g[k] == (a, b));
        }
    }
    assert forall|i: int, j: int| 0 <= i < g.len() && 0 <= j < g.len() && i != j implies g[i] != g[j] by {}
    let r = watering_spec(ToolTier::Iridium, x, y, f);
    assert forall|a: int, b: int| #[trigger] r.contains((a, b)) <==> x - 2 <= a <= x + 3 && y - 2 <= b <= y + 3 by {
        if x - 2 <= a <= x + 3 && y - 2 <= b <= y + 3 {
            let k = (b - (y - 2)) * 6 + (a - (x - 2));
            assert(0 <= k < 36);
            assert(r[k] == (a, b));
        }
    }
    assert forall|i: int, j: int| 0 <= i < r.len() && 0 <= j < r.len() && i != j implies r[i] != r[j] by {}
}

} // verus!
