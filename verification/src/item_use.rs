use vstd::prelude::*;
use crate::farm::SprinklerKind;
use crate::inventory::{Inventory, slots_view, try_remove_result};
use crate::items::ItemRegistry;
use crate::text::str_eq;
use crate::tools::{Facing, facing_offset, facing_step, coord_ok};
use crate::world::MapId;

verus! {

/// What using the selected item (R key) does.
#[derive(Debug, Clone)]
pub enum ItemUse {
    Nothing,
    /// One hay was taken from the inventory for the feed trough.
    FeedHay,
    /// The selected item is eaten.
    Eat,
    /// A sprinkler of the kind is placed on the tile.
    PlaceSprinkler(SprinklerKind, i32, i32),
    /// The selected machine is placed on the tile.
    PlaceMachine(i32, i32),
    /// The selected fence or scarecrow is placed on the tile.
    PlaceFarmObject(i32, i32),
    /// A bouquet is given to the NPC.
    Bouquet(String),
    /// A mermaid pendant is given to the NPC.
    Proposal(String),
    /// The item cannot be used here; the message explains why.
    Toast(&'static str),
}

pub open spec fn is_sprinkler_item(id: Seq<char>) -> bool {
    id == "sprinkler"@ || id == "quality_sprinkler"@ || id == "iridium_sprinkler"@
}

pub open spec fn is_machine_item(id: Seq<char>) -> bool {
    id == "furnace"@ || id == "preserves_jar"@ || id == "cheese_press"@ || id == "loom"@
        || id == "keg"@ || id == "oil_maker"@
}

pub open spec fn sprinkler_of(id: Seq<char>) -> SprinklerKind {
    if id == "quality_sprinkler"@ {
        SprinklerKind::Quality
    } else if id == "iridium_sprinkler"@ {
        SprinklerKind::Iridium
    } else {
        SprinklerKind::Basic
    }
}

/// What an item other than hay does when used while facing (tx, ty):
/// food is eaten; sprinklers and machines are placed, on the farm only;
/// fences and scarecrows are placed; a bouquet or pendant goes to the
/// nearest NPC, if one is close enough.
pub open spec fn item_use_of(id: Seq<char>, edible: bool, on_farm: bool, nearest_npc: Option<String>, tx: i32, ty: i32) -> ItemUse {
    if edible {
        ItemUse::Eat
    } else if is_sprinkler_item(id) {
        if !on_farm {
            ItemUse::Toast("Sprinklers can only be placed on the farm.")
        } else {
            ItemUse::PlaceSprinkler(sprinkler_of(id), tx, ty)
        }
    } else if is_machine_item(id) {
        if !on_farm {
            ItemUse::Toast("Machines can only be placed on the farm.")
        } else {
            ItemUse::PlaceMachine(tx, ty)
        }
    } else if id == "fence"@ || id == "scarecrow"@ {
        ItemUse::PlaceFarmObject(tx, ty)
    } else if id == "bouquet"@ {
        match nearest_npc {
            Some(n) => ItemUse::Bouquet(n),
            None => ItemUse::Toast("No one nearby to give this to."),
        }
    } else if id == "mermaid_pendant"@ {
        match nearest_npc {
            Some(n) => ItemUse::Proposal(n),
            None => ItemUse::Toast("No one nearby to give this to."),
        }
    } else {
        ItemUse::Nothing
    }
}

/// Uses the selected item. Nothing happens while input is blocked, when R
/// was not pressed, when the interaction was already claimed, or when the
/// selected slot is empty or holds an unknown item. Hay takes one hay from
/// the inventory; every other item is classified by `item_use_of` at the
/// tile the player faces.
pub fn dispatch_item_use(
    inventory: &mut Inventory,
    item_registry: &ItemRegistry,
    input_blocked: bool,
    tool_secondary: bool,
    interaction_claimed: bool,
    current_map: MapId,
    grid_x: i32,
    grid_y: i32,
    facing: Facing,
    nearest_npc: Option<String>,
) -> (r: ItemUse)
    requires
        coord_ok(grid_x),
        coord_ok(grid_y),
    ensures
        ({
            let sel = old(inventory).selected_slot;
            let active = !input_blocked && tool_secondary && !interaction_claimed
                && sel < old(inventory).slots.len() && old(inventory).slots@[sel as int] is Some
                && item_registry.items.get_spec(old(inventory).slots@[sel as int].unwrap().item_id@) is Some;
            let id = old(inventory).slots@[sel as int].unwrap().item_id@;
            let def = item_registry.items.get_spec(id).unwrap();
            let (tx, ty) = (grid_x + facing_step(facing).0, grid_y + facing_step(facing).1);
            &&& !active ==> r is Nothing && final(inventory).slots@ == old(inventory).slots@
            &&& active && id == "hay"@ ==> ({
                    let (v, left) = try_remove_result(slots_view(old(inventory).slots@), "hay"@, 1);
                    &&& slots_view(final(inventory).slots@) == v
                    &&& r == if left == 0 { ItemUse::FeedHay } else { ItemUse::Nothing }
                })
            &&& active && id != "hay"@ ==> final(inventory).slots@ == old(inventory).slots@
                    && r == item_use_of(id, def.edible, current_map == MapId::Farm, nearest_npc, tx as i32, ty as i32)
        }),
        final(inventory).selected_slot == old(inventory).selected_slot,
{
    if input_blocked || !tool_secondary || interaction_claimed {
        return ItemUse::Nothing;
    }
    let slot_idx = inventory.selected_slot;
    if slot_idx >= inventory.slots.len() {
        return ItemUse::Nothing;
    }
    let (edible, is_hay, kind) = match &inventory.slots[slot_idx] {
        Some(slot) => {
            let def = match item_registry.get(slot.item_id.as_str()) {
                Some(d) => d,
                None => return ItemUse::Nothing,
            };
            let id = slot.item_id.as_str();
            let kind: u8 = if str_eq(id, "sprinkler") || str_eq(id, "quality_sprinkler") || str_eq(id, "iridium_sprinkler") {
                1
            } else if str_eq(id, "furnace") || str_eq(id, "preserves_jar") || str_eq(id, "cheese_press")
                || str_eq(id, "loom") || str_eq(id, "keg") || str_eq(id, "oil_maker") {
                2
            } else if str_eq(id, "fence") || str_eq(id, "scarecrow") {
                3
            } else if str_eq(id, "bouquet") {
                4
            } else if str_eq(id, "mermaid_pendant") {
                5
            } else {
                0
            };
            let kind: (u8, SprinklerKind) = (kind, if str_eq(id, "quality_sprinkler") {
                SprinklerKind::Quality
            } else if str_eq(id, "iridium_sprinkler") {
                SprinklerKind::Iridium
            } else {
                SprinklerKind::Basic
            });
            (def.edible, str_eq(id, "hay"), kind)
        }
        None => return ItemUse::Nothing,
    };

    if is_hay {
        let removed = inventory.try_remove("hay", 1);
        return if removed > 0 { ItemUse::FeedHay } else { ItemUse::Nothing };
    }
    if edible {
        return ItemUse::Eat;
    }
    let (dx, dy) = facing_offset(&facing);
    let target_x = grid_x + dx;
    let target_y = grid_y + dy;
    let on_farm = current_map == MapId::Farm;
    if kind.0 == 1 {
        if !on_farm {
            return ItemUse::Toast("Sprinklers can only be placed on the farm.");
        }
        return ItemUse::PlaceSprinkler(kind.1, target_x, target_y);
    }
    if kind.0 == 2 {
        if !on_farm {
            return ItemUse::Toast("Machines can only be placed on the farm.");
        }
        return ItemUse::PlaceMachine(target_x, target_y);
    }
    if kind.0 == 3 {
        return ItemUse::PlaceFarmObject(target_x, target_y);
    }
    if kind.0 == 4 {
        return match nearest_npc {
            Some(npc) => ItemUse::Bouquet(npc),
            None => ItemUse::Toast("No one nearby to give this to."),
        };
    }
    if kind.0 == 5 {
        return match nearest_npc {
            Some(npc) => ItemUse::Proposal(npc),
            None => ItemUse::Toast("No one nearby to give this to."),
        };
    }
    ItemUse::Nothing
}

/// The grade word a sprinkler kind carries in its item id.
pub open spec fn grade_prefix(k: SprinklerKind) -> Seq<char> {
    match k {
        SprinklerKind::Basic => ""@,
        SprinklerKind::Quality => "quality_"@,
        SprinklerKind::Iridium => "iridium_"@,
    }
}

/// A sprinkler item places the kind it is named for: its id is that kind's
/// grade word followed by "sprinkler" ("sprinkler" is Basic,
/// "quality_sprinkler" Quality, "iridium_sprinkler" Iridium).
pub proof fn law_sprinkler_kind_named_by_item(id: Seq<char>)
    requires
        is_sprinkler_item(id),
    ensures
        id == grade_prefix(sprinkler_of(id)) + "sprinkler"@,
{
    reveal_strlit("sprinkler");
    reveal_strlit("quality_sprinkler");
    reveal_strlit("iridium_sprinkler");
    reveal_strlit("quality_");
    reveal_strlit("iridium_");
    reveal_strlit("");
    assert(""@ + "sprinkler"@ =~= "sprinkler"@);
    assert("quality_"@ + "sprinkler"@ =~= "quality_sprinkler"@);
    assert("iridium_"@ + "sprinkler"@ =~= "iridium_sprinkler"@);
    assert("quality_sprinkler"@ != "sprinkler"@);
    assert("iridium_sprinkler"@ != "sprinkler"@);
    assert("iridium_sprinkler"@ != "quality_sprinkler"@) by {
        assert("iridium_sprinkler"@[0] != "quality_sprinkler"@[0]);
    }
}

} // verus!
