use vstd::prelude::*;
use crate::inventory::{Inventory, InventorySlot};
use crate::items::{ItemCategory, ItemRegistry};
use crate::menu::MenuAction;
use crate::player::{PlayerState, tier_or_basic};
use crate::text::{decimal, push_decimal, push_str, string_of};
use crate::tools::{ToolKind, tool_kind_from_item_id, tool_of_item, tool_tier_label, tier_name};

verus! {

/// Columns of the inventory grid.
pub const GRID_COLUMNS: usize = 12;

/// A name of at most 12 characters is shown whole; a longer one is cut to
/// 11 characters and an ellipsis.
pub open spec fn compact_name(name: Seq<char>) -> Seq<char> {
    if name.len() <= 12 { name } else { name.take(11) + "…"@ }
}

pub fn compact_item_name(name: &str) -> (r: String)
    ensures
        r@ == compact_name(name@),
{
    let n = name.unicode_len();
    if n <= 12 {
        string_of(name)
    } else {
        let head = name.substring_char(0, 11);
        let mut s = string_of(head);
        push_str(&mut s, "…");
        s
    }
}

/// The cursor after one frame of navigation on the 12 x 3 grid. Row and
/// column are taken from the cursor before the move; a later direction
/// overrides an earlier one (right, left, down, up).
pub open spec fn grid_move(cur: int, a: MenuAction) -> int {
    let col = cur % 12;
    let row = cur / 12;
    let c1 = if a.move_right && col < 11 { row * 12 + col + 1 } else { cur };
    let c2 = if a.move_left && col > 0 { row * 12 + col - 1 } else { c1 };
    let c3 = if a.move_down && row < 2 { (row + 1) * 12 + col } else { c2 };
    if a.move_up && row > 0 { (row - 1) * 12 + col } else { c3 }
}

/// What activating an inventory slot asks for.
#[derive(Debug, Clone, PartialEq, Eq)]
pub enum InventoryActivation {
    /// Nothing happens.
    Nothing,
    /// Equip this tool.
    Equip(ToolKind),
    /// Eat the item with this id.
    Eat(String),
    /// Show "Cannot use this item.".
    CannotUse,
}

/// The activation of the item under the cursor: tools are equipped, food is
/// eaten, anything else cannot be used. An empty or unknown slot does
/// nothing.
pub open spec fn activation_of(cur: int, slots: Seq<Option<InventorySlot>>, reg: ItemRegistry) -> InventoryActivation {
    if 0 <= cur < slots.len() && slots[cur] is Some {
        match reg.items.get_spec(slots[cur]->0.item_id@) {
            None => InventoryActivation::Nothing,
            Some(def) => match def.category {
                ItemCategory::Tool => match tool_of_item(def.id@) {
                    Some(t) => InventoryActivation::Equip(t),
                    None => InventoryActivation::CannotUse,
                },
                ItemCategory::Food => InventoryActivation::Eat(def.id),
                _ => InventoryActivation::CannotUse,
            },
        }
    } else {
        InventoryActivation::Nothing
    }
}

/// One frame of inventory navigation: moves the cursor, and on activate
/// says what to do with the item that was under the cursor before the move.
pub fn inventory_navigation(cursor: &mut usize, action: &MenuAction, inventory: &Inventory, item_registry: &ItemRegistry) -> (r: InventoryActivation)
    requires
        *old(cursor) < usize::MAX,
    ensures
        *final(cursor) == grid_move(*old(cursor) as int, *action),
        action.activate ==> r == activation_of(*old(cursor) as int, inventory.slots@, *item_registry),
        !action.activate ==> r == InventoryActivation::Nothing,
{
    let cur = *cursor;
    let col = cur % GRID_COLUMNS;
    let row = cur / GRID_COLUMNS;
    assert(row * 12 + col == cur);
    if action.move_right && col < 11 {
        *cursor = row * GRID_COLUMNS + col + 1;
    }
    if action.move_left && col > 0 {
        *cursor = row * GRID_COLUMNS + col - 1;
    }
    if action.move_down && row < 2 {
        *cursor = (row + 1) * GRID_COLUMNS + col;
    }
    if action.move_up && row > 0 {
        *cursor = (row - 1) * GRID_COLUMNS + col;
    }
    if !action.activate || cur >= inventory.slots.len() {
        return InventoryActivation::Nothing;
    }
    match &inventory.slots[cur] {
        None => InventoryActivation::Nothing,
        Some(slot) => match item_registry.get(slot.item_id.as_str()) {
            None => InventoryActivation::Nothing,
            Some(def) => match def.category {
                ItemCategory::Tool => match tool_kind_from_item_id(def.id.as_str()) {
                    Some(t) => InventoryActivation::Equip(t),
                    None => InventoryActivation::CannotUse,
                },
                ItemCategory::Food => InventoryActivation::Eat(def.id.clone()),
                _ => InventoryActivation::CannotUse,
            },
        },
    }
}

/// "EQUIPPED" on the slot of the tool in hand; nothing on any other slot.
pub open spec fn slot_status(slot: InventorySlot, reg: ItemRegistry, equipped: ToolKind) -> Seq<char> {
    match reg.items.get_spec(slot.item_id@) {
        Some(def) => match tool_of_item(def.id@) {
            Some(t) => if t == equipped { "EQUIPPED"@ } else { Seq::empty() },
            None => Seq::empty(),
        },
        None => Seq::empty(),
    }
}

pub fn slot_status_text(slot_data: &InventorySlot, item_registry: &ItemRegistry, player_state: &PlayerState) -> (r: String)
    ensures
        r@ == slot_status(*slot_data, *item_registry, player_state.equipped_tool),
{
    let def = match item_registry.get(slot_data.item_id.as_str()) {
        Some(d) => d,
        None => return String::new(),
    };
    match tool_kind_from_item_id(def.id.as_str()) {
        Some(tool) => {
            if tool == player_state.equipped_tool {
                string_of("EQUIPPED")
            } else {
                String::new()
            }
        },
        None => String::new(),
    }
}

/// Text shown for an empty slot.
pub open spec fn empty_slot_text() -> Seq<char> {
    "Empty slot.\nUse WASD or the arrow keys to inspect another item."@
}

/// The second line of an item's description: a tool's level (and whether
/// it is in hand), else the quantity held when it is not zero.
pub open spec fn detail_line(slot: InventorySlot, def_id: Seq<char>, player: PlayerState) -> Option<Seq<char>> {
    match tool_of_item(def_id) {
        Some(tool) => Some("Tool Level: "@ + tier_name(tier_or_basic(player.tools.view(), tool))@
            + (if tool == player.equipped_tool { " | Equipped"@ } else { ""@ })),
        None => if slot.quantity > 0 { Some("Quantity: "@ + decimal(slot.quantity as nat)) } else { None },
    }
}

/// Lines joined by newlines.
pub open spec fn then_line(text: Seq<char>, line: Option<Seq<char>>) -> Seq<char> {
    match line {
        Some(l) => text + "\n"@ + l,
        None => text,
    }
}

/// The description of the item under the cursor: its name, its detail
/// line, and its description when it has one.
pub open spec fn description_of(cur: int, slots: Seq<Option<InventorySlot>>, reg: ItemRegistry, player: PlayerState) -> Seq<char> {
    if 0 <= cur < slots.len() && slots[cur] is Some {
        let slot = slots[cur]->0;
        match reg.items.get_spec(slot.item_id@) {
            None => "Unknown item."@,
            Some(def) => then_line(
                then_line(def.name@, detail_line(slot, def.id@, player)),
                if def.description@.len() > 0 { Some(def.description@) } else { None },
            ),
        }
    } else {
        empty_slot_text()
    }
}

pub fn hovered_item_description(cursor: usize, inventory: &Inventory, item_registry: &ItemRegistry, player_state: &PlayerState) -> (r: String)
    ensures
        r@ == description_of(cursor as int, inventory.slots@, *item_registry, *player_state),
{
    if cursor >= inventory.slots.len() {
        return string_of("Empty slot.\nUse WASD or the arrow keys to inspect another item.");
    }
    let slot = match &inventory.slots[cursor] {
        Some(s) => s,
        None => return string_of("Empty slot.\nUse WASD or the arrow keys to inspect another item."),
    };
    let def = match item_registry.get(slot.item_id.as_str()) {
        Some(d) => d,
        None => return string_of("Unknown item."),
    };
    let mut text = def.name.clone();
    match tool_kind_from_item_id(def.id.as_str()) {
        Some(tool) => {
            let tier = player_state.tools.tier_of(tool);
            push_str(&mut text, "\n");
            push_str(&mut text, "Tool Level: ");
            push_str(&mut text, tool_tier_label(tier));
            if tool == player_state.equipped_tool {
                push_str(&mut text, " | Equipped");
            } else {
                push_str(&mut text, "");
            }
        },
        None => {
            if slot.quantity > 0 {
                push_str(&mut text, "\n");
                push_str(&mut text, "Quantity: ");
                push_decimal(&mut text, slot.quantity as u64);
            }
        },
    }
    if def.description.unicode_len() > 0 {
        push_str(&mut text, "\n");
        push_str(&mut text, def.description.as_str());
    }
    proof {
        assert(text@ == description_of(cursor as int, inventory.slots@, *item_registry, *player_state));
    }
    text
}

/// The name under an inventory slot: the item's compact name, or the first
/// six characters of its id when the registry does not know it; nothing
/// for an empty slot. `None` when the slot is past the inventory's end and
/// the text stays as it was.
pub open spec fn slot_name(cur: int, slots: Seq<Option<InventorySlot>>, reg: ItemRegistry) -> Option<Seq<char>> {
    if 0 <= cur < slots.len() {
        match slots[cur] {
            Some(slot) => Some(match reg.items.get_spec(slot.item_id@) {
                Some(def) => compact_name(def.name@),
                None => slot.item_id@.take(if slot.item_id@.len() < 6 { slot.item_id@.len() as int } else { 6 }),
            }),
            None => Some(Seq::empty()),
        }
    } else {
        None
    }
}

pub fn slot_name_text(index: usize, inventory: &Inventory, item_registry: &ItemRegistry) -> (r: Option<String>)
    ensures
        match r {
            Some(t) => slot_name(index as int, inventory.slots@, *item_registry) == Some(t@),
            None => slot_name(index as int, inventory.slots@, *item_registry) is None,
        },
{
    if index >= inventory.slots.len() {
        return None;
    }
    match &inventory.slots[index] {
        None => Some(String::new()),
        Some(slot) => match item_registry.get(slot.item_id.as_str()) {
            Some(def) => Some(compact_item_name(def.name.as_str())),
            None => {
                let n = slot.item_id.as_str().unicode_len();
                let k: usize = if n < 6 { n } else { 6 };
                Some(string_of(slot.item_id.as_str().substring_char(0, k)))
            },
        },
    }
}

/// The small text in a slot's corner: a tool's level when the player owns
/// that tool, else "x" and the quantity when it is not zero, else nothing.
/// `None` when the slot is past the inventory's end.
pub open spec fn slot_quantity(cur: int, slots: Seq<Option<InventorySlot>>, reg: ItemRegistry, player: PlayerState) -> Option<Seq<char>> {
    if 0 <= cur < slots.len() {
        match slots[cur] {
            Some(slot) => {
                let owned = match reg.items.get_spec(slot.item_id@) {
                    Some(def) => match tool_of_item(def.id@) {
                        Some(tool) => if player.tools.view().contains_key(tool) {
                            Some(player.tools.view()[tool])
                        } else {
                            None
                        },
                        None => None,
                    },
                    None => None,
                };
                Some(match owned {
                    Some(tier) => tier_name(tier)@,
                    None => if slot.quantity > 0 { "x"@ + decimal(slot.quantity as nat) } else { Seq::empty() },
                })
            },
            None => Some(Seq::empty()),
        }
    } else {
        None
    }
}

pub fn slot_quantity_text(index: usize, inventory: &Inventory, item_registry: &ItemRegistry, player_state: &PlayerState) -> (r: Option<String>)
    ensures
        match r {
            Some(t) => slot_quantity(index as int, inventory.slots@, *item_registry, *player_state) == Some(t@),
            None => slot_quantity(index as int, inventory.slots@, *item_registry, *player_state) is None,
        },
{
    if index >= inventory.slots.len() {
        return None;
    }
    match &inventory.slots[index] {
        None => Some(String::new()),
        Some(slot) => {
            let owned = match item_registry.get(slot.item_id.as_str()) {
                Some(def) => match tool_kind_from_item_id(def.id.as_str()) {
                    Some(tool) => player_state.tools.get(tool),
                    None => None,
                },
                None => None,
            };
            match owned {
                Some(tier) => Some(string_of(tool_tier_label(tier))),
                None => {
                    if slot.quantity > 0 {
                        let mut t = string_of("x");
                        push_decimal(&mut t, slot.quantity as u64);
                        Some(t)
                    } else {
                        Some(String::new())
                    }
                },
            }
        },
    }
}

} // verus!
