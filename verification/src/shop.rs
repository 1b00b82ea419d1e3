use vstd::prelude::*;
use crate::inventory::{Inventory, SlotView, slots_view, slot_view, count_view, try_add_result, try_remove_result, max_count_slots};
use crate::items::{ItemRegistry, max_stack_of};
use crate::player::PlayerState;
use crate::calendar::Season;
use crate::menu::MenuAction;
use crate::text::{decimal, push_decimal, push_str, spaced, string_of, underscores_to_spaces};
use crate::tools::{ToolKind, ToolTier, tool_tier_after, reach_cost, bars_needed, bar_item};

verus! {

#[derive(Debug, Clone, Copy, PartialEq, Eq, Hash, Structural)]
pub enum ShopId {
    GeneralStore,
    AnimalShop,
    Blacksmith,
}

/// Buys one of an item for `price`: only when the player has the gold and
/// the item fits in the inventory, and then the gold is paid. Returns
/// whether the purchase happened.
pub fn buy_item(gold: &mut u32, inventory: &mut Inventory, item_registry: &ItemRegistry, item_id: &str, price: u32) -> (bought: bool)
    ensures
        *old(gold) < price ==> !bought && *final(gold) == *old(gold) && final(inventory).slots@ == old(inventory).slots@,
        *old(gold) >= price ==> ({
            let (v, left) = try_add_result(slots_view(old(inventory).slots@), item_id@, 1, max_stack_of(*item_registry, item_id@) as nat);
            &&& slots_view(final(inventory).slots@) == v
            &&& bought == (left == 0)
            &&& *final(gold) == if left == 0 { *old(gold) - price } else { *old(gold) as int }
        }),
        bought ==> count_view(slots_view(final(inventory).slots@), item_id@)
            == count_view(slots_view(old(inventory).slots@), item_id@) + 1,
        final(inventory).selected_slot == old(inventory).selected_slot,
{
    if *gold < price {
        return false;
    }
    let max_stack = item_registry.max_stack(item_id);
    let overflow = inventory.try_add(item_id, 1, max_stack);
    if overflow == 0 {
        *gold = *gold - price;
        true
    } else {
        false
    }
}

/// Sells one of an item for `price`, if the inventory holds one. Returns
/// whether the sale happened.
pub fn sell_item(gold: &mut u32, inventory: &mut Inventory, item_id: &str, price: u32) -> (sold: bool)
    requires
        *old(gold) + price <= u32::MAX,
    ensures
        ({
            let (v, left) = try_remove_result(slots_view(old(inventory).slots@), item_id@, 1);
            &&& slots_view(final(inventory).slots@) == v
            &&& sold == (left == 0)
        }),
        sold == (count_view(slots_view(old(inventory).slots@), item_id@) >= 1),
        *final(gold) == if sold { *old(gold) + price } else { *old(gold) as int },
        sold ==> count_view(slots_view(final(inventory).slots@), item_id@)
            == count_view(slots_view(old(inventory).slots@), item_id@) - 1,
        final(inventory).selected_slot == old(inventory).selected_slot,
        final(inventory).slots.len() == old(inventory).slots.len(),
{
    let removed = inventory.try_remove(item_id, 1);
    if removed > 0 {
        *gold = *gold + price;
        true
    } else {
        false
    }
}

/// The shop's mode after the switch key: the blacksmith cycles buy, sell,
/// upgrade; other shops alternate buy and sell. Modes are (buying,
/// upgrading).
pub fn next_shop_mode(shop: ShopId, is_buy_mode: bool, upgrade_mode: bool) -> (r: (bool, bool))
    ensures
        r == if shop == ShopId::Blacksmith {
            if is_buy_mode && !upgrade_mode { (false, false) }
            else if !is_buy_mode && !upgrade_mode { (false, true) }
            else { (true, false) }
        } else {
            (!is_buy_mode, upgrade_mode)
        },
{
    if shop == ShopId::Blacksmith {
        if is_buy_mode && !upgrade_mode {
            (false, false)
        } else if !is_buy_mode && !upgrade_mode {
            (false, true)
        } else {
            (true, false)
        }
    } else {
        (!is_buy_mode, upgrade_mode)
    }
}

/// A list cursor moved by the arrows: down while below the last entry, up
/// while above the first.
pub fn list_cursor(cursor: usize, count: usize, up: bool, down: bool) -> (r: usize)
    ensures
        ({
            let c1: int = if down && count > 0 && cursor < count - 1 { cursor + 1 } else { cursor as int };
            r == if up && c1 > 0 { c1 - 1 } else { c1 }
        }),
{
    let mut c = cursor;
    if down && count > 0 && c < count - 1 {
        c += 1;
    }
    if up && c > 0 {
        c -= 1;
    }
    c
}

/// The item ids of the slots, each once, in the order of first appearance.
pub open spec fn sell_ids(v: Seq<SlotView>) -> Seq<Seq<char>>
    decreases v.len(),
{
    if v.len() == 0 {
        Seq::empty()
    } else {
        let prev = sell_ids(v.drop_last());
        match v.last() {
            Some((id, _)) => if prev.contains(id) { prev } else { prev.push(id) },
            None => prev,
        }
    }
}

/// The name a sell list shows for an item: its registered name, else its id.
pub open spec fn sell_name(reg: ItemRegistry, id: Seq<char>) -> Seq<char> {
    match reg.items.get_spec(id) {
        Some(d) => d.name@,
        None => id,
    }
}

/// The price a sell list offers for an item: its registered sell price, else 1.
pub open spec fn sell_price_of(reg: ItemRegistry, id: Seq<char>) -> u32 {
    match reg.items.get_spec(id) {
        Some(d) => d.sell_price,
        None => 1,
    }
}

/// A sell list matches the inventory: one entry per item kind held, in
/// slot order, with its name, sell price and quantity modulo 256.
pub open spec fn sell_list_ok(r: Seq<(String, String, u32, u8)>, v: Seq<SlotView>, reg: ItemRegistry) -> bool {
    &&& r.len() == sell_ids(v).len()
    &&& forall|i: int| 0 <= i < r.len() ==> {
        let id = #[trigger] sell_ids(v)[i];
        &&& r[i].0@ == id
        &&& r[i].1@ == sell_name(reg, id)
        &&& r[i].2 == sell_price_of(reg, id)
        &&& r[i].3 as int == count_view(v, id) % 256
    }
}

/// The sell list of a shop: one entry per item kind held, in slot order,
/// with its name, its sell price and the quantity held (kept in a byte, so
/// taken modulo 256).
pub fn build_sell_list(inventory: &Inventory, item_registry: &ItemRegistry) -> (r: Vec<(String, String, u32, u8)>)
    requires
        inventory.slots.len() <= max_count_slots(),
    ensures
        sell_list_ok(r@, slots_view(inventory.slots@), *item_registry),
{
    let ghost v = slots_view(inventory.slots@);
    let mut result: Vec<(String, String, u32, u8)> = Vec::new();
    let mut i: usize = 0;
    while i < inventory.slots.len()
        invariant
            v == slots_view(inventory.slots@),
            inventory.slots.len() <= max_count_slots(),
            i <= inventory.slots.len(),
            result.len() == sell_ids(v.take(i as int)).len(),
            forall|k: int| 0 <= k < result.len() ==> {
                let id = #[trigger] sell_ids(v.take(i as int))[k];
                &&& result[k].0@ == id
                &&& result[k].1@ == sell_name(*item_registry, id)
                &&& result[k].2 == sell_price_of(*item_registry, id)
                &&& result[k].3 as int == count_view(v, id) % 256
            },
        decreases inventory.slots.len() - i,
    {
        proof {
            assert(v.take(i as int + 1).drop_last() =~= v.take(i as int));
            assert(v.take(i as int + 1).last() == v[i as int]);
            assert(v[i as int] == slot_view(inventory.slots@[i as int]));
        }
        match &inventory.slots[i] {
            None => {},
            Some(s) => {
                let ghost prev = sell_ids(v.take(i as int));
                let mut seen = false;
                let mut j: usize = 0;
                while j < result.len()
                    invariant
                        j <= result.len(),
                        result.len() == prev.len(),
                        forall|k: int| 0 <= k < result.len() ==> (#[trigger] result[k]).0@ == prev[k],
                        seen == exists|k: int| 0 <= k < j && prev[k] == s.item_id@,
                    decreases result.len() - j,
                {
                    if result[j].0 == s.item_id {
                        seen = true;
                    }
                    j = j + 1;
                }
                proof {
                    if prev.contains(s.item_id@) {
                        let k = choose|k: int| 0 <= k < prev.len() && prev[k] == s.item_id@;
                        assert(seen);
                    }
                }
                if !seen {
                    let name = match item_registry.get(s.item_id.as_str()) {
                        Some(d) => d.name.clone(),
                        None => s.item_id.clone(),
                    };
                    let price = match item_registry.get(s.item_id.as_str()) {
                        Some(d) => d.sell_price,
                        None => 1,
                    };
                    let total = inventory.count(s.item_id.as_str());
                    let qty = (total % 256) as u8;
                    result.push((s.item_id.clone(), name, price, qty));
                }
            },
        }
        i = i + 1;
    }
    proof {
        assert(v.take(inventory.slots.len() as int) =~= v);
    }
    result
}

/// A tool upgrade offered at the blacksmith.
#[derive(Debug, Clone)]
pub struct ToolUpgradeDisplayEntry {
    pub tool: ToolKind,
    pub current_tier: ToolTier,
    pub target_tier: ToolTier,
    pub gold_cost: u32,
    pub bar_name: String,
    pub bar_qty: u8,
    pub can_afford: bool,
    pub has_bars: bool,
    pub is_upgrading: bool,
}

/// The tools the blacksmith upgrades, in the order listed.
pub open spec fn upgradeable(i: int) -> ToolKind {
    if i == 0 { ToolKind::Hoe }
    else if i == 1 { ToolKind::WateringCan }
    else if i == 2 { ToolKind::Axe }
    else if i == 3 { ToolKind::Pickaxe }
    else { ToolKind::FishingRod }
}

/// Whether a tool is offered: the player has it and it is below Iridium.
pub open spec fn offered(p: PlayerState, tool: ToolKind) -> bool {
    p.tools.view().contains_key(tool) && tool_tier_after(p.tools.view()[tool]) is Some
}

/// The offered tools among the first `n` upgradeable ones, in order.
pub open spec fn offered_tools(p: PlayerState, n: int) -> Seq<ToolKind>
    decreases n,
{
    if n <= 0 {
        Seq::empty()
    } else if offered(p, upgradeable(n - 1)) {
        offered_tools(p, n - 1).push(upgradeable(n - 1))
    } else {
        offered_tools(p, n - 1)
    }
}

/// The row shown for an offered tool.
pub open spec fn upgrade_row_ok(e: ToolUpgradeDisplayEntry, tool: ToolKind, p: PlayerState, slots: Seq<SlotView>, upgrading: Seq<ToolKind>) -> bool {
    let cur = p.tools.view()[tool];
    let target = tool_tier_after(cur)->0;
    &&& e.tool == tool
    &&& e.current_tier == cur
    &&& e.target_tier == target
    &&& e.gold_cost == reach_cost(target)
    &&& e.bar_name@ == spaced(bar_item(cur)->0@)
    &&& e.bar_qty == bars_needed(cur)
    &&& e.can_afford == (p.gold >= reach_cost(target))
    &&& e.has_bars == (count_view(slots, bar_item(cur)->0@) >= bars_needed(cur))
    &&& e.is_upgrading == upgrading.contains(tool)
}

/// An upgrade list matches the player's tools, gold and bars.
pub open spec fn upgrade_list_ok(r: Seq<ToolUpgradeDisplayEntry>, p: PlayerState, slots: Seq<SlotView>, upgrading: Seq<ToolKind>) -> bool {
    &&& r.len() == offered_tools(p, 5).len()
    &&& forall|i: int| 0 <= i < r.len() ==> upgrade_row_ok(#[trigger] r[i], offered_tools(p, 5)[i], p, slots, upgrading)
}

fn upgradeable_at(i: usize) -> (t: ToolKind)
    requires
        i < 5,
    ensures
        t == upgradeable(i as int),
{
    if i == 0 { ToolKind::Hoe }
    else if i == 1 { ToolKind::WateringCan }
    else if i == 2 { ToolKind::Axe }
    else if i == 3 { ToolKind::Pickaxe }
    else { ToolKind::FishingRod }
}

/// The blacksmith's upgrade list: for the hoe, watering can, axe, pickaxe
/// and fishing rod, when the player has the tool below Iridium, the next
/// tier, its price, the bars it takes, and whether the player can pay,
/// holds the bars, and already has the tool at the smithy (`upgrading`
/// lists the tools in the upgrade queue).
pub fn build_upgrade_entries(player: &PlayerState, inventory: &Inventory, upgrading: &Vec<ToolKind>) -> (r: Vec<ToolUpgradeDisplayEntry>)
    requires
        inventory.slots.len() <= max_count_slots(),
    ensures
        upgrade_list_ok(r@, *player, slots_view(inventory.slots@), upgrading@),
{
    let mut r: Vec<ToolUpgradeDisplayEntry> = Vec::new();
    let mut i: usize = 0;
    while i < 5
        invariant
            i <= 5,
                inventory.slots.len() <= max_count_slots(),
            r.len() == offered_tools(*player, i as int).len(),
            forall|k: int| 0 <= k < r.len() ==> upgrade_row_ok(#[trigger] r[k], offered_tools(*player, i as int)[k], *player, slots_view(inventory.slots@), upgrading@),
        decreases 5 - i,
    {
        let tool = upgradeable_at(i);
        let ghost before = r@;
        match player.tools.get(tool) {
            None => {},
            Some(cur) => {
                match cur.next() {
                    None => {},
                    Some(target) => {
                        let bar_id = match cur.upgrade_bar_item() {
                            Some(b) => b,
                            None => "",
                        };
                        let bar_qty = cur.upgrade_bars_needed();
                        let gold_cost = target.upgrade_cost();
                        let mut is_upgrading = false;
                        let mut j: usize = 0;
                        while j < upgrading.len()
                            invariant
                                j <= upgrading.len(),
                                is_upgrading == exists|k: int| 0 <= k < j && upgrading@[k] == tool,
                            decreases upgrading.len() - j,
                        {
                            if upgrading[j] == tool {
                                is_upgrading = true;
                            }
                            j = j + 1;
                        }
                        proof {
                            if upgrading@.contains(tool) {
                                let k = choose|k: int| 0 <= k < upgrading@.len() && upgrading@[k] == tool;
                                assert(is_upgrading);
                            }
                        }
                        let e = ToolUpgradeDisplayEntry {
                            tool,
                            current_tier: cur,
                            target_tier: target,
                            gold_cost,
                            bar_name: underscores_to_spaces(bar_id),
                            bar_qty,
                            can_afford: player.gold >= gold_cost,
                            has_bars: inventory.has(bar_id, bar_qty),
                            is_upgrading,
                        };
                        r.push(e);
                    },
                }
            },
        }
        proof {
            assert forall|k: int| 0 <= k < r.len() implies upgrade_row_ok(#[trigger] r[k], offered_tools(*player, i as int + 1)[k], *player, slots_view(inventory.slots@), upgrading@) by {
                if k < before.len() {
                    assert(r[k] == before[k]);
                }
            }
        }
        i = i + 1;
    }
    r
}

/// An item a shop sells, its price, and the season it is sold in (every
/// season when none).
#[derive(Debug, Clone)]
pub struct ShopListing {
    pub item_id: String,
    pub price: u32,
    pub season_available: Option<Season>,
}

/// The open shop: which one, the cursor, the mode and the three lists.
#[derive(Debug)]
pub struct ShopUiState {
    pub shop_id: ShopId,
    pub cursor: usize,
    pub is_buy_mode: bool,
    pub upgrade_mode: bool,
    pub buy_items: Vec<ShopListing>,
    /// Item id, name, sell price, quantity held.
    pub sell_items: Vec<(String, String, u32, u8)>,
    pub upgrade_entries: Vec<ToolUpgradeDisplayEntry>,
}

/// A completed purchase or sale of one item.
#[derive(Debug, Clone)]
pub struct ShopTransactionEvent {
    pub shop_id: ShopId,
    pub item_id: String,
    pub quantity: u8,
    pub total_cost: u32,
    pub is_purchase: bool,
}

/// What a frame of shop input leads to besides the state changes.
#[derive(Debug)]
pub enum ShopOutcome {
    Nothing,
    Transaction(ShopTransactionEvent),
    /// Ask the blacksmith to upgrade this tool.
    UpgradeRequest(ToolKind),
}

/// Entries of the list the mode shows.
pub open spec fn shown_count(s: ShopUiState) -> int {
    if s.upgrade_mode { s.upgrade_entries.len() as int }
    else if s.is_buy_mode { s.buy_items.len() as int }
    else { s.sell_items.len() as int }
}

pub open spec fn shop_mode_after(shop: ShopId, buy: bool, upgrade: bool) -> (bool, bool) {
    if shop == ShopId::Blacksmith {
        if buy && !upgrade { (false, false) }
        else if !buy && !upgrade { (false, true) }
        else { (true, false) }
    } else {
        (!buy, upgrade)
    }
}

pub open spec fn list_moved(cursor: int, count: int, up: bool, down: bool) -> int {
    let c1 = if down && count > 0 && cursor < count - 1 { cursor + 1 } else { cursor };
    if up && c1 > 0 { c1 - 1 } else { c1 }
}

/// The mode switch rebuilds the sell list when it enters selling.
pub open spec fn enters_sell(s: ShopUiState, switch: bool) -> bool {
    switch && (if s.shop_id == ShopId::Blacksmith { s.is_buy_mode && !s.upgrade_mode } else { s.is_buy_mode })
}

/// The mode switch rebuilds the upgrade list when it enters upgrading.
pub open spec fn enters_upgrade(s: ShopUiState, switch: bool) -> bool {
    switch && s.shop_id == ShopId::Blacksmith && !s.is_buy_mode && !s.upgrade_mode
}

/// The cursor after navigation and the mode switch.
pub open spec fn shop_cursor(s: ShopUiState, a: MenuAction, switch: bool) -> int {
    if switch { 0 } else { list_moved(s.cursor as int, shown_count(s), a.move_up, a.move_down) }
}

/// The lists after the mode switch: rebuilt where the switch enters a mode,
/// kept otherwise.
pub open spec fn lists_after_switch(
    fin: ShopUiState, s: ShopUiState, switch: bool, p: PlayerState, slots: Seq<SlotView>,
    reg: ItemRegistry, upgrading: Seq<ToolKind>,
) -> bool {
    &&& enters_sell(s, switch) ==> sell_list_ok(fin.sell_items@, slots, reg)
    &&& !enters_sell(s, switch) ==> fin.sell_items@ == s.sell_items@
    &&& enters_upgrade(s, switch) ==> upgrade_list_ok(fin.upgrade_entries@, p, slots, upgrading)
    &&& !enters_upgrade(s, switch) ==> fin.upgrade_entries@ == s.upgrade_entries@
}

/// Length of the sell list after the switch.
pub open spec fn sell_len_after(s: ShopUiState, switch: bool, slots: Seq<SlotView>) -> int {
    if enters_sell(s, switch) { sell_ids(slots).len() as int } else { s.sell_items.len() as int }
}

/// Item id and price of a sell list row after the switch.
pub open spec fn sell_row_after(s: ShopUiState, switch: bool, slots: Seq<SlotView>, reg: ItemRegistry, c: int) -> (Seq<char>, u32) {
    if enters_sell(s, switch) {
        (sell_ids(slots)[c], sell_price_of(reg, sell_ids(slots)[c]))
    } else {
        (s.sell_items@[c].0@, s.sell_items@[c].2)
    }
}

/// Length of the upgrade list after the switch.
pub open spec fn upgrade_len_after(s: ShopUiState, switch: bool, p: PlayerState) -> int {
    if enters_upgrade(s, switch) { offered_tools(p, 5).len() as int } else { s.upgrade_entries.len() as int }
}

/// The tool of an upgrade list row after the switch.
pub open spec fn upgrade_tool_after(s: ShopUiState, switch: bool, p: PlayerState, c: int) -> ToolKind {
    if enters_upgrade(s, switch) { offered_tools(p, 5)[c] } else { s.upgrade_entries@[c].tool }
}

/// The price of the row this frame sells, if it sells one, fits beside the
/// player's gold.
pub open spec fn sale_fits(s: ShopUiState, a: MenuAction, switch: bool, gold: u32, slots: Seq<SlotView>, reg: ItemRegistry) -> bool {
    let (b, u) = if switch { shop_mode_after(s.shop_id, s.is_buy_mode, s.upgrade_mode) } else { (s.is_buy_mode, s.upgrade_mode) };
    let c = shop_cursor(s, a, switch);
    a.activate && !u && !b && 0 <= c < sell_len_after(s, switch, slots)
        ==> gold + sell_row_after(s, switch, slots, reg, c).1 <= u32::MAX
}

/// One frame of the shop screen. The arrows move the cursor over the list
/// the mode shows; the switch key changes mode (rebuilding the list it
/// enters) and puts the cursor on the first row; confirming buys, sells or
/// asks for an upgrade of the row under the cursor. After a sale the sell
/// list is rebuilt, and a cursor past its end steps back one row.
pub fn shop_navigation(
    state: &mut ShopUiState,
    action: &MenuAction,
    switch_mode: bool,
    player: &mut PlayerState,
    inventory: &mut Inventory,
    item_registry: &ItemRegistry,
    upgrading: &Vec<ToolKind>,
) -> (r: ShopOutcome)
    requires
        old(inventory).slots.len() <= max_count_slots(),
        sale_fits(*old(state), *action, switch_mode, old(player).gold, slots_view(old(inventory).slots@), *item_registry),
    ensures
        ({
            let s0 = *old(state);
            let (b, u) = if switch_mode { shop_mode_after(s0.shop_id, s0.is_buy_mode, s0.upgrade_mode) } else { (s0.is_buy_mode, s0.upgrade_mode) };
            let c = shop_cursor(s0, *action, switch_mode);
            let slots0 = slots_view(old(inventory).slots@);
            let slots1 = slots_view(final(inventory).slots@);
            &&& final(state).shop_id == s0.shop_id
            &&& final(state).is_buy_mode == b
            &&& final(state).upgrade_mode == u
            &&& final(state).buy_items@ == s0.buy_items@
            &&& final(player).equipped_tool == old(player).equipped_tool
            &&& final(player).tools == old(player).tools
            &&& final(player).current_map == old(player).current_map
            &&& final(inventory).selected_slot == old(inventory).selected_slot
            // nothing confirmed
            &&& !action.activate ==> {
                &&& r is Nothing
                &&& final(state).cursor == c
                &&& final(player).gold == old(player).gold
                &&& final(inventory).slots@ == old(inventory).slots@
                &&& lists_after_switch(*final(state), s0, switch_mode, *old(player), slots0, *item_registry, upgrading@)
            }
            // upgrading
            &&& action.activate && u ==> {
                &&& final(state).cursor == c
                &&& final(player).gold == old(player).gold
                &&& final(inventory).slots@ == old(inventory).slots@
                &&& final(state).sell_items@ == (if enters_sell(s0, switch_mode) { final(state).sell_items@ } else { s0.sell_items@ })
                &&& enters_sell(s0, switch_mode) ==> sell_list_ok(final(state).sell_items@, slots0, *item_registry)
                &&& if c < upgrade_len_after(s0, switch_mode, *old(player)) {
                    &&& r == ShopOutcome::UpgradeRequest(upgrade_tool_after(s0, switch_mode, *old(player), c))
                    &&& upgrade_list_ok(final(state).upgrade_entries@, *old(player), slots0, upgrading@)
                } else {
                    &&& r is Nothing
                    &&& lists_after_switch(*final(state), s0, switch_mode, *old(player), slots0, *item_registry, upgrading@)
                }
            }
            // buying
            &&& action.activate && !u && b ==> {
                &&& final(state).cursor == c
                &&& lists_after_switch(*final(state), s0, switch_mode, *old(player), slots0, *item_registry, upgrading@)
                &&& if c < s0.buy_items.len() {
                    let l = s0.buy_items@[c];
                    let (v, left) = try_add_result(slots0, l.item_id@, 1, max_stack_of(*item_registry, l.item_id@) as nat);
                    let bought = old(player).gold >= l.price && left == 0;
                    &&& old(player).gold >= l.price ==> slots1 == v
                    &&& old(player).gold < l.price ==> final(inventory).slots@ == old(inventory).slots@
                    &&& final(player).gold == if bought { old(player).gold - l.price } else { old(player).gold as int }
                    &&& match r {
                        ShopOutcome::Transaction(ev) => bought && ev.shop_id == s0.shop_id && ev.item_id@ == l.item_id@
                            && ev.quantity == 1 && ev.total_cost == l.price && ev.is_purchase,
                        ShopOutcome::Nothing => !bought,
                        _ => false,
                    }
                } else {
                    &&& r is Nothing
                    &&& final(player).gold == old(player).gold
                    &&& final(inventory).slots@ == old(inventory).slots@
                }
            }
            // selling
            &&& action.activate && !u && !b ==> {
                &&& final(state).upgrade_entries@ == s0.upgrade_entries@
                &&& if c < sell_len_after(s0, switch_mode, slots0) {
                    let (id, price) = sell_row_after(s0, switch_mode, slots0, *item_registry, c);
                    let (v, left) = try_remove_result(slots0, id, 1);
                    let sold = left == 0;
                    &&& slots1 == v
                    &&& sold == (count_view(slots0, id) >= 1)
                    &&& final(player).gold == if sold { old(player).gold + price } else { old(player).gold as int }
                    &&& sold ==> sell_list_ok(final(state).sell_items@, slots1, *item_registry)
                        && final(state).cursor == (if c >= final(state).sell_items.len() && c > 0 { c - 1 } else { c })
                    &&& !sold ==> final(state).cursor == c
                        && lists_after_switch(*final(state), s0, switch_mode, *old(player), slots0, *item_registry, upgrading@)
                    &&& match r {
                        ShopOutcome::Transaction(ev) => sold && ev.shop_id == s0.shop_id && ev.item_id@ == id
                            && ev.quantity == 1 && ev.total_cost == price && !ev.is_purchase,
                        ShopOutcome::Nothing => !sold,
                        _ => false,
                    }
                } else {
                    &&& r is Nothing
                    &&& final(state).cursor == c
                    &&& final(player).gold == old(player).gold
                    &&& final(inventory).slots@ == old(inventory).slots@
                    &&& lists_after_switch(*final(state), s0, switch_mode, *old(player), slots0, *item_registry, upgrading@)
                }
            }
        }),
{
    let ghost s0 = *state;
    let ghost slots0 = slots_view(inventory.slots@);
    let max_items = if state.upgrade_mode {
        state.upgrade_entries.len()
    } else if state.is_buy_mode {
        state.buy_items.len()
    } else {
        state.sell_items.len()
    };
    state.cursor = list_cursor(state.cursor, max_items, action.move_up, action.move_down);

    if switch_mode {
        let (b, u) = next_shop_mode(state.shop_id, state.is_buy_mode, state.upgrade_mode);
        let rebuild_sell = if state.shop_id == ShopId::Blacksmith {
            state.is_buy_mode && !state.upgrade_mode
        } else {
            state.is_buy_mode
        };
        let rebuild_upgrade = state.shop_id == ShopId::Blacksmith && !state.is_buy_mode && !state.upgrade_mode;
        state.is_buy_mode = b;
        state.upgrade_mode = u;
        if rebuild_sell {
            state.sell_items = build_sell_list(inventory, item_registry);
        }
        if rebuild_upgrade {
            state.upgrade_entries = build_upgrade_entries(player, inventory, upgrading);
        }
        state.cursor = 0;
    }

    if !action.activate {
        return ShopOutcome::Nothing;
    }

    let c = state.cursor;
    if state.upgrade_mode {
        if c < state.upgrade_entries.len() {
            let tool = state.upgrade_entries[c].tool;
            state.upgrade_entries = build_upgrade_entries(player, inventory, upgrading);
            return ShopOutcome::UpgradeRequest(tool);
        }
        ShopOutcome::Nothing
    } else if state.is_buy_mode {
        if c < state.buy_items.len() {
            let price = state.buy_items[c].price;
            let bought = buy_item(&mut player.gold, inventory, item_registry, state.buy_items[c].item_id.as_str(), price);
            if bought {
                return ShopOutcome::Transaction(ShopTransactionEvent {
                    shop_id: state.shop_id,
                    item_id: state.buy_items[c].item_id.clone(),
                    quantity: 1,
                    total_cost: price,
                    is_purchase: true,
                });
            }
        }
        ShopOutcome::Nothing
    } else {
        if c < state.sell_items.len() {
            let item_id = state.sell_items[c].0.clone();
            let price = state.sell_items[c].2;
            proof {
                if enters_sell(s0, switch_mode) {
                    assert(state.sell_items@[c as int].2 == sell_price_of(*item_registry, sell_ids(slots0)[c as int]));
                } else {
                    assert(state.sell_items@[c as int] == s0.sell_items@[c as int]);
                }
            }
            let sold = sell_item(&mut player.gold, inventory, item_id.as_str(), price);
            if sold {
                state.sell_items = build_sell_list(inventory, item_registry);
                if state.cursor >= state.sell_items.len() && state.cursor > 0 {
                    state.cursor = state.cursor - 1;
                }
                return ShopOutcome::Transaction(ShopTransactionEvent {
                    shop_id: state.shop_id,
                    item_id,
                    quantity: 1,
                    total_cost: price,
                    is_purchase: false,
                });
            }
        }
        ShopOutcome::Nothing
    }
}

/// The listings of a shop that are on sale in a season, in order.
pub open spec fn in_season(listings: Seq<ShopListing>, season: Season) -> Seq<ShopListing>
    decreases listings.len(),
{
    if listings.len() == 0 {
        Seq::empty()
    } else {
        let prev = in_season(listings.drop_last(), season);
        let l = listings.last();
        if l.season_available is None || l.season_available == Some(season) { prev.push(l) } else { prev }
    }
}

/// Listings as plain values.
pub open spec fn listings_view(s: Seq<ShopListing>) -> Seq<(Seq<char>, u32, Option<Season>)> {
    s.map_values(|l: ShopListing| (l.item_id@, l.price, l.season_available))
}

/// Opens a shop in buy mode on the first row: its listings for the season,
/// the sell list of the inventory, and at the blacksmith the upgrade list.
pub fn open_shop(shop_id: ShopId, listings: &Vec<ShopListing>, season: Season, player: &PlayerState, inventory: &Inventory, item_registry: &ItemRegistry, upgrading: &Vec<ToolKind>) -> (s: ShopUiState)
    requires
        inventory.slots.len() <= max_count_slots(),
    ensures
        s.shop_id == shop_id,
        s.cursor == 0,
        s.is_buy_mode,
        !s.upgrade_mode,
        listings_view(s.buy_items@) == listings_view(in_season(listings@, season)),
        sell_list_ok(s.sell_items@, slots_view(inventory.slots@), *item_registry),
        shop_id == ShopId::Blacksmith ==> upgrade_list_ok(s.upgrade_entries@, *player, slots_view(inventory.slots@), upgrading@),
        shop_id != ShopId::Blacksmith ==> s.upgrade_entries.len() == 0,
{
    let mut buy_items: Vec<ShopListing> = Vec::new();
    let mut i: usize = 0;
    while i < listings.len()
        invariant
            i <= listings.len(),
            listings_view(buy_items@) == listings_view(in_season(listings@.take(i as int), season)),
        decreases listings.len() - i,
    {
        proof {
            assert(listings@.take(i as int + 1).drop_last() =~= listings@.take(i as int));
            assert(listings@.take(i as int + 1).last() == listings@[i as int]);
        }
        let keep = match listings[i].season_available {
            None => true,
            Some(x) => x == season,
        };
        if keep {
            let l = ShopListing {
                item_id: listings[i].item_id.clone(),
                price: listings[i].price,
                season_available: listings[i].season_available,
            };
            let ghost before = buy_items@;
            buy_items.push(l);
            proof {
                assert(listings_view(buy_items@) =~= listings_view(before).push((listings@[i as int].item_id@, listings@[i as int].price, listings@[i as int].season_available)));
                assert(listings_view(in_season(listings@.take(i as int + 1), season))
                    =~= listings_view(in_season(listings@.take(i as int), season)).push((listings@[i as int].item_id@, listings@[i as int].price, listings@[i as int].season_available)));
            }
        }
        i = i + 1;
    }
    proof {
        assert(listings@.take(listings.len() as int) =~= listings@);
    }
    let sell_items = build_sell_list(inventory, item_registry);
    let upgrade_entries = if shop_id == ShopId::Blacksmith {
        build_upgrade_entries(player, inventory, upgrading)
    } else {
        Vec::new()
    };
    ShopUiState { shop_id, cursor: 0, is_buy_mode: true, upgrade_mode: false, buy_items, sell_items, upgrade_entries }
}

/// The mode line of the shop screen.
pub fn shop_mode_text(state: &ShopUiState) -> (r: &'static str)
    ensures
        r == if state.upgrade_mode { "[Tab] Mode: UPGRADE" } else if state.is_buy_mode { "[Tab] Mode: BUY" } else { "[Tab] Mode: SELL" },
{
    if state.upgrade_mode {
        "[Tab] Mode: UPGRADE"
    } else if state.is_buy_mode {
        "[Tab] Mode: BUY"
    } else {
        "[Tab] Mode: SELL"
    }
}

/// A price as shown: "<price> G".
pub fn price_text(price: u32) -> (s: String)
    ensures
        s@ == decimal(price as nat) + " G"@,
{
    let mut s = String::new();
    push_decimal(&mut s, price as u64);
    push_str(&mut s, " G");
    s
}

/// A sell list row: "<name> (x<quantity>)".
pub fn sell_row_text(name: &str, quantity: u8) -> (s: String)
    ensures
        s@ == name@ + " (x"@ + decimal(quantity as nat) + ")"@,
{
    let mut s = string_of(name);
    push_str(&mut s, " (x");
    push_decimal(&mut s, quantity as u64);
    push_str(&mut s, ")");
    s
}

/// The name a tool goes by in the upgrade list.
pub open spec fn tool_kind_name(t: ToolKind) -> &'static str {
    match t {
        ToolKind::Hoe => "Hoe",
        ToolKind::WateringCan => "WateringCan",
        ToolKind::Axe => "Axe",
        ToolKind::Pickaxe => "Pickaxe",
        ToolKind::FishingRod => "FishingRod",
        ToolKind::Scythe => "Scythe",
    }
}

fn tool_kind_str(t: ToolKind) -> (r: &'static str)
    ensures
        r == tool_kind_name(t),
{
    match t {
        ToolKind::Hoe => "Hoe",
        ToolKind::WateringCan => "WateringCan",
        ToolKind::Axe => "Axe",
        ToolKind::Pickaxe => "Pickaxe",
        ToolKind::FishingRod => "FishingRod",
        ToolKind::Scythe => "Scythe",
    }
}

/// An upgrade list row: "<tool>: <tier> → <next tier>", marked
/// " [IN PROGRESS]" while the tool is at the smithy.
pub fn upgrade_row_text(entry: &ToolUpgradeDisplayEntry) -> (s: String)
    ensures
        s@ == tool_kind_name(entry.tool)@ + ": "@ + crate::tools::tier_name(entry.current_tier)@ + " → "@
            + crate::tools::tier_name(entry.target_tier)@ + (if entry.is_upgrading { " [IN PROGRESS]"@ } else { ""@ }),
{
    let mut s = string_of(tool_kind_str(entry.tool));
    push_str(&mut s, ": ");
    push_str(&mut s, crate::tools::tool_tier_label(entry.current_tier));
    push_str(&mut s, " → ");
    push_str(&mut s, crate::tools::tool_tier_label(entry.target_tier));
    if entry.is_upgrading {
        push_str(&mut s, " [IN PROGRESS]");
    } else {
        push_str(&mut s, "");
    }
    s
}

/// An upgrade's price line: "<gold>G + <bars>x <bar name>".
pub fn upgrade_price_text(entry: &ToolUpgradeDisplayEntry) -> (s: String)
    ensures
        s@ == decimal(entry.gold_cost as nat) + "G + "@ + decimal(entry.bar_qty as nat) + "x "@ + entry.bar_name@,
{
    let mut s = String::new();
    push_decimal(&mut s, entry.gold_cost as u64);
    push_str(&mut s, "G + ");
    push_decimal(&mut s, entry.bar_qty as u64);
    push_str(&mut s, "x ");
    push_str(&mut s, entry.bar_name.as_str());
    s
}

} // verus!
