use vstd::prelude::*;
use crate::inventory::{Inventory, InventorySlot};
use crate::items::{ItemCategory, ItemRegistry};
use crate::text::{push_str, string_of};

verus! {

/// The keyboard keys the game binds or names.
#[derive(Debug, Clone, Copy, PartialEq, Eq, Hash, Structural)]
pub enum KeyCode {
    KeyA, KeyB, KeyC, KeyD, KeyE, KeyF, KeyG, KeyH, KeyI, KeyJ, KeyK, KeyL, KeyM,
    KeyN, KeyO, KeyP, KeyQ, KeyR, KeyS, KeyT, KeyU, KeyV, KeyW, KeyX, KeyY, KeyZ,
    Space,
    Tab,
    Escape,
    Enter,
    BracketLeft,
    BracketRight,
    ArrowUp,
    ArrowDown,
    ArrowLeft,
    ArrowRight,
    F5,
    F9,
}

/// How a key is written in prompts: letters as themselves, "Space", "Tab",
/// "Esc", and any other key by its name.
pub open spec fn key_label(code: KeyCode) -> &'static str {
    match code {
        KeyCode::KeyA => "A", KeyCode::KeyB => "B", KeyCode::KeyC => "C", KeyCode::KeyD => "D",
        KeyCode::KeyE => "E", KeyCode::KeyF => "F", KeyCode::KeyG => "G", KeyCode::KeyH => "H",
        KeyCode::KeyI => "I", KeyCode::KeyJ => "J", KeyCode::KeyK => "K", KeyCode::KeyL => "L",
        KeyCode::KeyM => "M", KeyCode::KeyN => "N", KeyCode::KeyO => "O", KeyCode::KeyP => "P",
        KeyCode::KeyQ => "Q", KeyCode::KeyR => "R", KeyCode::KeyS => "S", KeyCode::KeyT => "T",
        KeyCode::KeyU => "U", KeyCode::KeyV => "V", KeyCode::KeyW => "W", KeyCode::KeyX => "X",
        KeyCode::KeyY => "Y", KeyCode::KeyZ => "Z",
        KeyCode::Space => "Space",
        KeyCode::Tab => "Tab",
        KeyCode::Escape => "Esc",
        KeyCode::Enter => "Enter",
        KeyCode::BracketLeft => "BracketLeft",
        KeyCode::BracketRight => "BracketRight",
        KeyCode::ArrowUp => "ArrowUp",
        KeyCode::ArrowDown => "ArrowDown",
        KeyCode::ArrowLeft => "ArrowLeft",
        KeyCode::ArrowRight => "ArrowRight",
        KeyCode::F5 => "F5",
        KeyCode::F9 => "F9",
    }
}

pub fn key_display(code: KeyCode) -> (s: String)
    ensures
        s@ == key_label(code)@,
{
    let t: &'static str = match code {
        KeyCode::KeyA => "A", KeyCode::KeyB => "B", KeyCode::KeyC => "C", KeyCode::KeyD => "D",
        KeyCode::KeyE => "E", KeyCode::KeyF => "F", KeyCode::KeyG => "G", KeyCode::KeyH => "H",
        KeyCode::KeyI => "I", KeyCode::KeyJ => "J", KeyCode::KeyK => "K", KeyCode::KeyL => "L",
        KeyCode::KeyM => "M", KeyCode::KeyN => "N", KeyCode::KeyO => "O", KeyCode::KeyP => "P",
        KeyCode::KeyQ => "Q", KeyCode::KeyR => "R", KeyCode::KeyS => "S", KeyCode::KeyT => "T",
        KeyCode::KeyU => "U", KeyCode::KeyV => "V", KeyCode::KeyW => "W", KeyCode::KeyX => "X",
        KeyCode::KeyY => "Y", KeyCode::KeyZ => "Z",
        KeyCode::Space => "Space",
        KeyCode::Tab => "Tab",
        KeyCode::Escape => "Esc",
        KeyCode::Enter => "Enter",
        KeyCode::BracketLeft => "BracketLeft",
        KeyCode::BracketRight => "BracketRight",
        KeyCode::ArrowUp => "ArrowUp",
        KeyCode::ArrowDown => "ArrowDown",
        KeyCode::ArrowLeft => "ArrowLeft",
        KeyCode::ArrowRight => "ArrowRight",
        KeyCode::F5 => "F5",
        KeyCode::F9 => "F9",
    };
    string_of(t)
}

/// The keyboard binding table.
#[derive(Debug, Clone, Copy)]
pub struct KeyBindings {
    pub move_up: KeyCode,
    pub move_down: KeyCode,
    pub move_left: KeyCode,
    pub move_right: KeyCode,
    pub interact: KeyCode,
    pub tool_use: KeyCode,
    pub tool_secondary: KeyCode,
    pub open_inventory: KeyCode,
    pub open_crafting: KeyCode,
    pub open_map: KeyCode,
    pub open_journal: KeyCode,
    pub pause: KeyCode,
    pub tool_next: KeyCode,
    pub tool_prev: KeyCode,
    pub ui_confirm: KeyCode,
    pub ui_cancel: KeyCode,
    pub skip_cutscene: KeyCode,
}

impl Default for KeyBindings {
    /// WASD to move, F to interact, Space to use a tool, R for the
    /// secondary action, E/C/M/J for the inventory, crafting, map and
    /// journal, Escape to pause or cancel, brackets to cycle tools, Enter
    /// to confirm and Space to skip cutscenes.
    fn default() -> (b: Self)
        ensures
            b.move_up == KeyCode::KeyW,
            b.move_down == KeyCode::KeyS,
            b.move_left == KeyCode::KeyA,
            b.move_right == KeyCode::KeyD,
            b.interact == KeyCode::KeyF,
            b.tool_use == KeyCode::Space,
            b.tool_secondary == KeyCode::KeyR,
            b.open_inventory == KeyCode::KeyE,
            b.open_crafting == KeyCode::KeyC,
            b.open_map == KeyCode::KeyM,
            b.open_journal == KeyCode::KeyJ,
            b.pause == KeyCode::Escape,
            b.tool_next == KeyCode::BracketRight,
            b.tool_prev == KeyCode::BracketLeft,
            b.ui_confirm == KeyCode::Enter,
            b.ui_cancel == KeyCode::Escape,
            b.skip_cutscene == KeyCode::Space,
    {
        KeyBindings {
            move_up: KeyCode::KeyW,
            move_down: KeyCode::KeyS,
            move_left: KeyCode::KeyA,
            move_right: KeyCode::KeyD,
            interact: KeyCode::KeyF,
            tool_use: KeyCode::Space,
            tool_secondary: KeyCode::KeyR,
            open_inventory: KeyCode::KeyE,
            open_crafting: KeyCode::KeyC,
            open_map: KeyCode::KeyM,
            open_journal: KeyCode::KeyJ,
            pause: KeyCode::Escape,
            tool_next: KeyCode::BracketRight,
            tool_prev: KeyCode::BracketLeft,
            ui_confirm: KeyCode::Enter,
            ui_cancel: KeyCode::Escape,
            skip_cutscene: KeyCode::Space,
        }
    }
}

/// The player can offer a gift when the selected slot holds a known item
/// that is not a tool.
pub open spec fn can_gift(slots: Seq<Option<InventorySlot>>, selected: int, reg: ItemRegistry) -> bool {
    0 <= selected < slots.len() && slots[selected] is Some
        && match reg.items.get_spec(slots[selected]->0.item_id@) {
            Some(def) => def.category != ItemCategory::Tool,
            None => false,
        }
}

pub fn has_gift(inventory: &Inventory, item_registry: &ItemRegistry) -> (r: bool)
    ensures
        r == can_gift(inventory.slots@, inventory.selected_slot as int, *item_registry),
{
    if inventory.selected_slot >= inventory.slots.len() {
        return false;
    }
    match &inventory.slots[inventory.selected_slot] {
        None => false,
        Some(slot) => match item_registry.get(slot.item_id.as_str()) {
            Some(def) => def.category != ItemCategory::Tool,
            None => false,
        },
    }
}

/// "[<key>] <label>", the prompt of an interactable object.
pub fn object_prompt(bindings: &KeyBindings, label: &str) -> (s: String)
    ensures
        s@ == "["@ + key_label(bindings.interact)@ + "] "@ + label@,
{
    let mut s = string_of("[");
    let k = key_display(bindings.interact);
    push_str(&mut s, k.as_str());
    push_str(&mut s, "] ");
    push_str(&mut s, label);
    s
}

/// "[<key>] Storage", the prompt of a storage chest.
pub fn storage_prompt(bindings: &KeyBindings) -> (s: String)
    ensures
        s@ == "["@ + key_label(bindings.interact)@ + "] Storage"@,
{
    let mut s = string_of("[");
    let k = key_display(bindings.interact);
    push_str(&mut s, k.as_str());
    push_str(&mut s, "] Storage");
    s
}

/// The prompt near an NPC: talking, and giving a gift when the player
/// holds one.
pub open spec fn npc_prompt_text(b: KeyBindings, name: Seq<char>, gift: bool) -> Seq<char> {
    let talk = "["@ + key_label(b.interact)@ + "] Talk to "@ + name;
    if gift { talk + " | ["@ + key_label(b.tool_secondary)@ + "] Give Gift"@ } else { talk }
}

pub fn npc_prompt(bindings: &KeyBindings, name: &str, gift: bool) -> (s: String)
    ensures
        s@ == npc_prompt_text(*bindings, name@, gift),
{
    let mut s = string_of("[");
    let k = key_display(bindings.interact);
    push_str(&mut s, k.as_str());
    push_str(&mut s, "] Talk to ");
    push_str(&mut s, name);
    if gift {
        push_str(&mut s, " | [");
        let k2 = key_display(bindings.tool_secondary);
        push_str(&mut s, k2.as_str());
        push_str(&mut s, "] Give Gift");
    }
    s
}

/// A key's own name, as the settings screen lists it ("KeyW", "Escape").
pub open spec fn key_name(code: KeyCode) -> &'static str {
    match code {
        KeyCode::KeyA => "KeyA",
        KeyCode::KeyB => "KeyB",
        KeyCode::KeyC => "KeyC",
        KeyCode::KeyD => "KeyD",
        KeyCode::KeyE => "KeyE",
        KeyCode::KeyF => "KeyF",
        KeyCode::KeyG => "KeyG",
        KeyCode::KeyH => "KeyH",
        KeyCode::KeyI => "KeyI",
        KeyCode::KeyJ => "KeyJ",
        KeyCode::KeyK => "KeyK",
        KeyCode::KeyL => "KeyL",
        KeyCode::KeyM => "KeyM",
        KeyCode::KeyN => "KeyN",
        KeyCode::KeyO => "KeyO",
        KeyCode::KeyP => "KeyP",
        KeyCode::KeyQ => "KeyQ",
        KeyCode::KeyR => "KeyR",
        KeyCode::KeyS => "KeyS",
        KeyCode::KeyT => "KeyT",
        KeyCode::KeyU => "KeyU",
        KeyCode::KeyV => "KeyV",
        KeyCode::KeyW => "KeyW",
        KeyCode::KeyX => "KeyX",
        KeyCode::KeyY => "KeyY",
        KeyCode::KeyZ => "KeyZ",
        KeyCode::Space => "Space",
        KeyCode::Tab => "Tab",
        KeyCode::Escape => "Escape",
        KeyCode::Enter => "Enter",
        KeyCode::BracketLeft => "BracketLeft",
        KeyCode::BracketRight => "BracketRight",
        KeyCode::ArrowUp => "ArrowUp",
        KeyCode::ArrowDown => "ArrowDown",
        KeyCode::ArrowLeft => "ArrowLeft",
        KeyCode::ArrowRight => "ArrowRight",
        KeyCode::F5 => "F5",
        KeyCode::F9 => "F9",
    }
}

pub fn key_code_name(code: KeyCode) -> (s: &'static str)
    ensures
        s == key_name(code),
{
    match code {
        KeyCode::KeyA => "KeyA",
        KeyCode::KeyB => "KeyB",
        KeyCode::KeyC => "KeyC",
        KeyCode::KeyD => "KeyD",
        KeyCode::KeyE => "KeyE",
        KeyCode::KeyF => "KeyF",
        KeyCode::KeyG => "KeyG",
        KeyCode::KeyH => "KeyH",
        KeyCode::KeyI => "KeyI",
        KeyCode::KeyJ => "KeyJ",
        KeyCode::KeyK => "KeyK",
        KeyCode::KeyL => "KeyL",
        KeyCode::KeyM => "KeyM",
        KeyCode::KeyN => "KeyN",
        KeyCode::KeyO => "KeyO",
        KeyCode::KeyP => "KeyP",
        KeyCode::KeyQ => "KeyQ",
        KeyCode::KeyR => "KeyR",
        KeyCode::KeyS => "KeyS",
        KeyCode::KeyT => "KeyT",
        KeyCode::KeyU => "KeyU",
        KeyCode::KeyV => "KeyV",
        KeyCode::KeyW => "KeyW",
        KeyCode::KeyX => "KeyX",
        KeyCode::KeyY => "KeyY",
        KeyCode::KeyZ => "KeyZ",
        KeyCode::Space => "Space",
        KeyCode::Tab => "Tab",
        KeyCode::Escape => "Escape",
        KeyCode::Enter => "Enter",
        KeyCode::BracketLeft => "BracketLeft",
        KeyCode::BracketRight => "BracketRight",
        KeyCode::ArrowUp => "ArrowUp",
        KeyCode::ArrowDown => "ArrowDown",
        KeyCode::ArrowLeft => "ArrowLeft",
        KeyCode::ArrowRight => "ArrowRight",
        KeyCode::F5 => "F5",
        KeyCode::F9 => "F9",
    }
}

/// The rows of the settings screen's key list: each action with the name
/// of its key, in a fixed order. The binding table has no key for the
/// relationships screen, so the list has no row for it.
pub open spec fn keybind_table(b: KeyBindings) -> Seq<(&'static str, &'static str)> {
    seq![
        ("Move Up", key_name(b.move_up)),
        ("Move Down", key_name(b.move_down)),
        ("Move Left", key_name(b.move_left)),
        ("Move Right", key_name(b.move_right)),
        ("Interact", key_name(b.interact)),
        ("Tool Use", key_name(b.tool_use)),
        ("Inventory", key_name(b.open_inventory)),
        ("Crafting", key_name(b.open_crafting)),
        ("Map", key_name(b.open_map)),
        ("Journal", key_name(b.open_journal)),
        ("Pause", key_name(b.pause))
    ]
}

pub fn keybind_rows(bindings: &KeyBindings) -> (rows: Vec<(&'static str, String)>)
    ensures
        rows.len() == keybind_table(*bindings).len(),
        forall|i: int| 0 <= i < rows.len() ==> #[trigger] rows@[i].0 == keybind_table(*bindings)[i].0
            && rows@[i].1@ == keybind_table(*bindings)[i].1@,
{
    let mut rows: Vec<(&'static str, String)> = Vec::new();
    rows.push(("Move Up", string_of(key_code_name(bindings.move_up))));
    rows.push(("Move Down", string_of(key_code_name(bindings.move_down))));
    rows.push(("Move Left", string_of(key_code_name(bindings.move_left))));
    rows.push(("Move Right", string_of(key_code_name(bindings.move_right))));
    rows.push(("Interact", string_of(key_code_name(bindings.interact))));
    rows.push(("Tool Use", string_of(key_code_name(bindings.tool_use))));
    rows.push(("Inventory", string_of(key_code_name(bindings.open_inventory))));
    rows.push(("Crafting", string_of(key_code_name(bindings.open_crafting))));
    rows.push(("Map", string_of(key_code_name(bindings.open_map))));
    rows.push(("Journal", string_of(key_code_name(bindings.open_journal))));
    rows.push(("Pause", string_of(key_code_name(bindings.pause))));
    rows
}

} // verus!
