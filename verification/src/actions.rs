use vstd::prelude::*;
use crate::inventory::{Inventory, SlotView, slots_view, try_add_result};
use crate::items::{ItemRegistry, max_stack_of};
use crate::player::{PlayerState, tier_or_basic};
use crate::shop::sell_name;
use crate::text::{push_str, string_of};
use crate::tools::{Facing, ToolKind, ToolTier, facing_offset, facing_step};
use crate::world::{GridPosition, MapId};

verus! {

/// What picking up an item came to.
#[derive(Debug, Clone, PartialEq, Eq)]
pub enum PickupOutcome {
    /// Everything fit; the pickup sound plays.
    PickedUp,
    /// Not everything fit; this message is shown.
    InventoryFull(String),
}

/// Adds a picked-up item to the inventory, in stacks of the item's stack
/// size; when some of it does not fit, says so by the item's name.
pub fn pickup_item(inventory: &mut Inventory, item_registry: &ItemRegistry, item_id: &str, quantity: u8) -> (r: PickupOutcome)
    ensures
        ({
            let (v, left) = try_add_result(slots_view(old(inventory).slots@), item_id@, quantity as nat, max_stack_of(*item_registry, item_id@) as nat);
            &&& slots_view(final(inventory).slots@) == v
            &&& left == 0 ==> r == PickupOutcome::PickedUp
            &&& left > 0 ==> (match r {
                PickupOutcome::InventoryFull(m) => m@ == "Inventory full! Couldn't pick up "@ + sell_name(*item_registry, item_id@) + "."@,
                PickupOutcome::PickedUp => false,
            })
        }),
        final(inventory).selected_slot == old(inventory).selected_slot,
        final(inventory).slots.len() == old(inventory).slots.len(),
{
    let max_stack = item_registry.max_stack(item_id);
    let remaining = inventory.try_add(item_id, quantity, max_stack);
    if remaining == 0 {
        PickupOutcome::PickedUp
    } else {
        let mut m = string_of("Inventory full! Couldn't pick up ");
        match item_registry.get(item_id) {
            Some(d) => push_str(&mut m, d.name.as_str()),
            None => push_str(&mut m, item_id),
        }
        push_str(&mut m, ".");
        PickupOutcome::InventoryFull(m)
    }
}

/// The starter kit: a hoe, seeds, wood, stone and bread.
pub open spec fn starter(i: int) -> (Seq<char>, u8) {
    if i == 0 { ("hoe"@, 1u8) }
    else if i == 1 { ("turnip_seeds"@, 15u8) }
    else if i == 2 { ("potato_seeds"@, 5u8) }
    else if i == 3 { ("wood"@, 20u8) }
    else if i == 4 { ("stone"@, 15u8) }
    else { ("bread"@, 3u8) }
}

/// The slots after adding the first `n` starter items in turn.
pub open spec fn starters_added(v: Seq<SlotView>, reg: ItemRegistry, n: int) -> Seq<SlotView>
    decreases n,
{
    if n <= 0 {
        v
    } else {
        let prev = starters_added(v, reg, n - 1);
        try_add_result(prev, starter(n - 1).0, starter(n - 1).1 as nat, max_stack_of(reg, starter(n - 1).0) as nat).0
    }
}

fn starter_at(i: usize) -> (r: (&'static str, u8))
    requires
        i < 6,
    ensures
        r.0@ == starter(i as int).0,
        r.1 == starter(i as int).1,
{
    if i == 0 { ("hoe", 1) }
    else if i == 1 { ("turnip_seeds", 15) }
    else if i == 2 { ("potato_seeds", 5) }
    else if i == 3 { ("wood", 20) }
    else if i == 4 { ("stone", 15) }
    else { ("bread", 3) }
}

/// A new game's inventory gets the starter kit; an inventory that holds
/// anything (a loaded game) is left as it is.
pub fn grant_starter_items(inventory: &mut Inventory, item_registry: &ItemRegistry)
    ensures
        (exists|j: int| 0 <= j < old(inventory).slots.len() && (#[trigger] old(inventory).slots@[j]) is Some)
            ==> final(inventory).slots@ == old(inventory).slots@,
        (forall|j: int| 0 <= j < old(inventory).slots.len() ==> (#[trigger] old(inventory).slots@[j]) is None)
            ==> slots_view(final(inventory).slots@) == starters_added(slots_view(old(inventory).slots@), *item_registry, 6),
        final(inventory).selected_slot == old(inventory).selected_slot,
{
    let mut j: usize = 0;
    while j < inventory.slots.len()
        invariant
            j <= inventory.slots.len(),
            forall|k: int| 0 <= k < j ==> (#[trigger] inventory.slots@[k]) is None,
        decreases inventory.slots.len() - j,
    {
        if inventory.slots[j].is_some() {
            return;
        }
        j = j + 1;
    }
    let ghost v0 = slots_view(inventory.slots@);
    let mut i: usize = 0;
    while i < 6
        invariant
            i <= 6,
            slots_view(inventory.slots@) == starters_added(v0, *item_registry, i as int),
            inventory.selected_slot == old(inventory).selected_slot,
        decreases 6 - i,
    {
        let (id, qty) = starter_at(i);
        let max_stack = item_registry.max_stack(id);
        inventory.try_add(id, qty, max_stack);
        i = i + 1;
    }
}

/// Where the player sleeps: the farmhouse bed.
pub const BED_X: i32 = 12;
pub const BED_Y: i32 = 4;

/// What the end of a day does to the player besides restoring stamina.
#[derive(Debug, Clone, Copy, PartialEq, Eq, Structural)]
pub struct DayEndPlan {
    /// Health is restored and the player wakes in the farmhouse bed.
    pub wake_at_home: bool,
    /// The farmhouse map has to be loaded first.
    pub load_house: bool,
}

/// In the mine the mining rules handle the night; anywhere else the player
/// wakes in bed, loading the farmhouse unless already there.
pub fn day_end_plan(current_map: MapId) -> (p: DayEndPlan)
    ensures
        p.wake_at_home == (current_map != MapId::Mine),
        p.load_house == (current_map != MapId::Mine && current_map != MapId::PlayerHouse),
{
    if current_map == MapId::Mine {
        DayEndPlan { wake_at_home: false, load_house: false }
    } else {
        DayEndPlan { wake_at_home: true, load_house: current_map != MapId::PlayerHouse }
    }
}

/// A move of the player to a tile of another map, which has that map loaded.
#[derive(Debug, Clone, Copy, PartialEq, Eq, Structural)]
pub struct MapTransitionEvent {
    pub to_map: MapId,
    pub to_x: i32,
    pub to_y: i32,
}

/// The end of a day for the player's place: outside the mine the player
/// wakes on the farmhouse bed tile (12, 4), in the farmhouse, and the
/// farmhouse is loaded by a transition unless the player was already in it;
/// in the mine nothing moves (the mining rules handle that night). Stamina
/// and health, fractional amounts, are restored by the application.
pub fn end_day(current_map: &mut MapId, grid: &mut GridPosition) -> (ev: Option<MapTransitionEvent>)
    ensures
        *old(current_map) == MapId::Mine ==> *final(current_map) == MapId::Mine && *final(grid) == *old(grid) && ev is None,
        *old(current_map) != MapId::Mine ==> {
            &&& *final(current_map) == MapId::PlayerHouse
            &&& final(grid).x == BED_X && final(grid).y == BED_Y
            &&& ev == if *old(current_map) != MapId::PlayerHouse {
                Some(MapTransitionEvent { to_map: MapId::PlayerHouse, to_x: BED_X, to_y: BED_Y })
            } else {
                None
            }
        },
{
    let plan = day_end_plan(*current_map);
    if !plan.wake_at_home {
        return None;
    }
    *current_map = MapId::PlayerHouse;
    grid.x = BED_X;
    grid.y = BED_Y;
    if plan.load_house {
        Some(MapTransitionEvent { to_map: MapId::PlayerHouse, to_x: BED_X, to_y: BED_Y })
    } else {
        None
    }
}

/// A tool swung at a tile.
#[derive(Debug, Clone, Copy, PartialEq, Eq, Structural)]
pub struct ToolUseEvent {
    pub tool: ToolKind,
    pub tier: ToolTier,
    pub target_x: i32,
    pub target_y: i32,
}

/// The equipped tool, at the player's tier of it (Basic if none is
/// recorded), used on the tile in front of the player.
pub fn tool_use_event(player: &PlayerState, px: i32, py: i32, facing: Facing) -> (e: ToolUseEvent)
    requires
        i32::MIN < px < i32::MAX,
        i32::MIN < py < i32::MAX,
    ensures
        e.tool == player.equipped_tool,
        e.tier == tier_or_basic(player.tools.view(), player.equipped_tool),
        e.target_x == px + facing_step(facing).0,
        e.target_y == py + facing_step(facing).1,
{
    let tool = player.equipped_tool;
    let (dx, dy) = facing_offset(&facing);
    let tier = player.tools.tier_of(tool);
    ToolUseEvent { tool, tier, target_x: px + dx, target_y: py + dy }
}

/// Kinds of things the player can interact with in the world.
#[derive(Debug, Clone, Copy, PartialEq, Eq, Structural)]
pub enum InteractionKind {
    ShippingBin,
    CraftingBench,
    Machine,
    BuildingUpgrade,
}

/// What interacting with the nearest interactable leads to.
#[derive(Debug, Clone, PartialEq, Eq)]
pub enum InteractionOutcome {
    /// Ship one of the selected item.
    Ship(String),
    /// Nothing is selected to ship: "No item selected to ship.".
    NothingToShip,
    OpenCrafting,
    /// Collect the machine's output.
    CollectOutput,
    /// Put one of the selected item into the machine.
    InsertInput(String),
    OpenBuildingUpgrade,
    Nothing,
}

/// The item id in the selected slot, if any.
pub open spec fn selected_item(inv: Inventory) -> Option<Seq<char>> {
    if inv.selected_slot < inv.slots.len() && inv.slots@[inv.selected_slot as int] is Some {
        Some(inv.slots@[inv.selected_slot as int]->0.item_id@)
    } else {
        None
    }
}

/// Interacting claims the key press for every kind. A shipping bin ships
/// the selected item; a bench opens crafting; a machine gives up its output
/// when it has one and otherwise takes the selected item (`machine_output`
/// is whether the machine has output, `None` when it could not be read); an
/// upgrade sign opens the building menu.
pub fn interaction_outcome(kind: InteractionKind, inventory: &Inventory, machine_output: Option<bool>) -> (r: InteractionOutcome)
    ensures
        kind == InteractionKind::ShippingBin ==> match selected_item(*inventory) {
            Some(id) => (match r { InteractionOutcome::Ship(s) => s@ == id, _ => false }),
            None => r == InteractionOutcome::NothingToShip,
        },
        kind == InteractionKind::CraftingBench ==> r == InteractionOutcome::OpenCrafting,
        kind == InteractionKind::Machine ==> match machine_output {
            None => r == InteractionOutcome::Nothing,
            Some(true) => r == InteractionOutcome::CollectOutput,
            Some(false) => match selected_item(*inventory) {
                Some(id) => (match r { InteractionOutcome::InsertInput(s) => s@ == id, _ => false }),
                None => r == InteractionOutcome::Nothing,
            },
        },
        kind == InteractionKind::BuildingUpgrade ==> r == InteractionOutcome::OpenBuildingUpgrade,
{
    let selected: Option<String> = if inventory.selected_slot < inventory.slots.len() {
        match &inventory.slots[inventory.selected_slot] {
            Some(slot) => Some(slot.item_id.clone()),
            None => None,
        }
    } else {
        None
    };
    match kind {
        InteractionKind::ShippingBin => match selected {
            Some(id) => InteractionOutcome::Ship(id),
            None => InteractionOutcome::NothingToShip,
        },
        InteractionKind::CraftingBench => InteractionOutcome::OpenCrafting,
        InteractionKind::Machine => match machine_output {
            None => InteractionOutcome::Nothing,
            Some(true) => InteractionOutcome::CollectOutput,
            Some(false) => match selected {
                Some(id) => InteractionOutcome::InsertInput(id),
                None => InteractionOutcome::Nothing,
            },
        },
        InteractionKind::BuildingUpgrade => InteractionOutcome::OpenBuildingUpgrade,
    }
}

/// Pressing interact on the farm in front of a living crop asks to harvest
/// it (one of the crop's id); blocked input, a press already claimed by
/// another interaction, another map or no crop ask nothing. `crop` is the
/// crop on the faced tile, with whether it is dead.
pub fn harvest_request(input_blocked: bool, interact: bool, claimed: bool, current_map: MapId, crop: Option<(&str, bool)>) -> (r: Option<(String, u8)>)
    ensures
        match r {
            Some((id, q)) => !input_blocked && interact && !claimed && current_map == MapId::Farm
                && (match crop { Some((cid, dead)) => !dead && id@ == cid@, None => false }) && q == 1,
            None => input_blocked || !interact || claimed || current_map != MapId::Farm
                || (match crop { Some((_, dead)) => dead, None => true }),
        },
{
    if input_blocked || !interact || claimed || current_map != MapId::Farm {
        return None;
    }
    match crop {
        Some((id, dead)) => {
            if dead {
                None
            } else {
                Some((string_of(id), 1))
            }
        },
        None => None,
    }
}

/// Passing out: at or after midnight with no stamina left the day ends,
/// once per exhaustion; the latch resets when stamina is back. `exhausted`
/// is whether stamina is at or below zero, `has_stamina` whether it is above
/// zero. Returns whether the day ends now.
pub fn exhaustion_check(exhausted: bool, has_stamina: bool, hour: u8, has_passed_out: &mut bool) -> (end_day: bool)
    ensures
        exhausted && hour >= 24 ==> end_day == !*old(has_passed_out) && *final(has_passed_out),
        !(exhausted && hour >= 24) ==> !end_day
            && *final(has_passed_out) == (if has_stamina { false } else { *old(has_passed_out) }),
{
    if exhausted && hour >= 24 {
        if !*has_passed_out {
            *has_passed_out = true;
            return true;
        }
        false
    } else {
        if has_stamina {
            *has_passed_out = false;
        }
        false
    }
}

/// Farm objects that stand on a tile.
#[derive(Debug, Clone, Copy, PartialEq, Eq, Structural)]
pub enum FarmObjectKind {
    Tree,
    Rock,
    Stump,
    Fence,
    /// Any object the player can walk over.
    Other,
}

/// The collision data of the current map: solid tiles and the walkable
/// bounds (min x, max x, min y, max y), once the map has loaded.
#[derive(Debug)]
pub struct CollisionMap {
    pub initialised: bool,
    pub solid_tiles: Vec<(i32, i32)>,
    pub bounds: (i32, i32, i32, i32),
}

/// A tile blocks movement when it is solid or outside the bounds of a
/// loaded map, or, on the farm, when a tree, rock, stump or fence stands on
/// it. `object` is the farm object on the tile.
pub open spec fn blocks(gx: i32, gy: i32, c: CollisionMap, on_farm: bool, object: Option<FarmObjectKind>) -> bool {
    let (min_x, max_x, min_y, max_y) = c.bounds;
    ||| c.initialised && c.solid_tiles@.contains((gx, gy))
    ||| c.initialised && (gx < min_x || gx > max_x || gy < min_y || gy > max_y)
    ||| on_farm && (match object {
            Some(FarmObjectKind::Other) => false,
            Some(_) => true,
            None => false,
        })
}

pub fn tile_blocked(gx: i32, gy: i32, collision: &CollisionMap, current_map: MapId, object: Option<FarmObjectKind>) -> (r: bool)
    ensures
        r == blocks(gx, gy, *collision, current_map == MapId::Farm, object),
{
    if collision.initialised {
        let mut i: usize = 0;
        while i < collision.solid_tiles.len()
            invariant
                collision.initialised,
                i <= collision.solid_tiles.len(),
                forall|k: int| 0 <= k < i ==> collision.solid_tiles@[k] != (gx, gy),
            decreases collision.solid_tiles.len() - i,
        {
            if collision.solid_tiles[i].0 == gx && collision.solid_tiles[i].1 == gy {
                proof {
                    assert(collision.solid_tiles@[i as int] == (gx, gy));
                    assert(collision.solid_tiles@.contains((gx, gy)));
                }
                return true;
            }
            i = i + 1;
        }
        let (min_x, max_x, min_y, max_y) = collision.bounds;
        if gx < min_x || gx > max_x || gy < min_y || gy > max_y {
            return true;
        }
    }
    if current_map == MapId::Farm {
        match object {
            Some(FarmObjectKind::Tree) | Some(FarmObjectKind::Rock) | Some(FarmObjectKind::Stump) | Some(FarmObjectKind::Fence) => {
                return true;
            },
            _ => {},
        }
    }
    false
}

} // verus!
