use hearthfield::calendar::Season;
use hearthfield::inventory::Inventory;
use hearthfield::items::{ItemCategory, ItemDef, ItemRegistry};
use hearthfield::menu::MenuAction;
use hearthfield::player::PlayerState;
use hearthfield::shop::{
    build_sell_list, build_upgrade_entries, buy_item, list_cursor, next_shop_mode, open_shop,
    price_text, sell_item, sell_row_text, shop_mode_text, shop_navigation, upgrade_price_text,
    upgrade_row_text, ShopId, ShopListing, ShopOutcome,
};
use hearthfield::tools::{ToolKind, ToolTier};

fn item(id: &str, name: &str, sell_price: u32, stack: u8) -> ItemDef {
    ItemDef {
        id: id.to_string(),
        name: name.to_string(),
        description: String::new(),
        category: ItemCategory::Crop,
        sell_price,
        buy_price: None,
        stack_size: stack,
        edible: false,
        sprite_index: 0,
    }
}

fn registry() -> ItemRegistry {
    let mut reg = ItemRegistry::new();
    reg.items.insert("turnip".to_string(), item("turnip", "Turnip", 35, 99));
    reg.items.insert("copper_bar".to_string(), item("copper_bar", "Copper Bar", 60, 99));
    reg
}

#[test]
fn sell_list_has_one_row_per_item_with_totals() {
    let reg = registry();
    let mut inv = Inventory::default();
    inv.try_add("turnip", 99, 99);
    inv.try_add("turnip", 5, 99);
    inv.try_add("mystery", 2, 99);
    let list = build_sell_list(&inv, &reg);
    assert_eq!(list.len(), 2);
    assert_eq!(list[0], ("turnip".to_string(), "Turnip".to_string(), 35, 104));
    assert_eq!(list[1], ("mystery".to_string(), "mystery".to_string(), 1, 2));
}

#[test]
fn sell_list_quantity_wraps_past_a_byte() {
    let reg = registry();
    let mut inv = Inventory::default();
    inv.try_add("turnip", 99, 99);
    inv.try_add("turnip", 99, 99);
    inv.try_add("turnip", 99, 99);
    let list = build_sell_list(&inv, &reg);
    assert_eq!(list[0].3, (297u32 % 256) as u8);
}

#[test]
fn buying_needs_gold_and_room() {
    let reg = registry();
    let mut inv = Inventory::default();
    let mut gold = 30u32;
    assert!(!buy_item(&mut gold, &mut inv, &reg, "turnip", 40));
    assert_eq!(gold, 30);
    assert_eq!(inv.count("turnip"), 0);
    assert!(buy_item(&mut gold, &mut inv, &reg, "turnip", 20));
    assert_eq!(gold, 10);
    assert_eq!(inv.count("turnip"), 1);
}

#[test]
fn selling_pays_only_when_held() {
    let mut inv = Inventory::default();
    let mut gold = 0u32;
    assert!(!sell_item(&mut gold, &mut inv, "turnip", 35));
    assert_eq!(gold, 0);
    inv.try_add("turnip", 2, 99);
    assert!(sell_item(&mut gold, &mut inv, "turnip", 35));
    assert_eq!(gold, 35);
    assert_eq!(inv.count("turnip"), 1);
}

#[test]
fn shop_modes_cycle() {
    assert_eq!(next_shop_mode(ShopId::Blacksmith, true, false), (false, false));
    assert_eq!(next_shop_mode(ShopId::Blacksmith, false, false), (false, true));
    assert_eq!(next_shop_mode(ShopId::Blacksmith, false, true), (true, false));
    assert_eq!(next_shop_mode(ShopId::GeneralStore, true, false), (false, false));
    assert_eq!(next_shop_mode(ShopId::GeneralStore, false, false), (true, false));
}

#[test]
fn list_cursor_stays_in_range() {
    assert_eq!(list_cursor(0, 3, false, true), 1);
    assert_eq!(list_cursor(2, 3, false, true), 2);
    assert_eq!(list_cursor(0, 3, true, false), 0);
    assert_eq!(list_cursor(0, 0, false, true), 0);
}

#[test]
fn blacksmith_offers_next_tier_of_each_tool() {
    let mut player = PlayerState::default();
    player.gold = 2500;
    player.tools.insert(ToolKind::Axe, ToolTier::Iridium);
    let mut inv = Inventory::default();
    inv.try_add("copper_bar", 5, 99);
    let entries = build_upgrade_entries(&player, &inv, &vec![ToolKind::Pickaxe]);
    // Hoe, watering can, pickaxe and fishing rod; the axe is maxed out.
    assert_eq!(entries.len(), 4);
    let hoe = &entries[0];
    assert_eq!(hoe.tool, ToolKind::Hoe);
    assert_eq!(hoe.target_tier, ToolTier::Copper);
    assert_eq!(hoe.gold_cost, 2000);
    assert_eq!(hoe.bar_name, "copper bar");
    assert_eq!(hoe.bar_qty, 5);
    assert!(hoe.can_afford && hoe.has_bars && !hoe.is_upgrading);
    assert_eq!(entries[2].tool, ToolKind::Pickaxe);
    assert!(entries[2].is_upgrading);
    assert_eq!(upgrade_row_text(hoe), "Hoe: Basic → Copper");
    assert_eq!(upgrade_row_text(&entries[2]), "Pickaxe: Basic → Copper [IN PROGRESS]");
    assert_eq!(upgrade_price_text(hoe), "2000G + 5x copper bar");
}

#[test]
fn open_shop_filters_listings_by_season() {
    let reg = registry();
    let player = PlayerState::default();
    let inv = Inventory::default();
    let listings = vec![
        ShopListing { item_id: "turnip_seeds".to_string(), price: 20, season_available: Some(Season::Spring) },
        ShopListing { item_id: "melon_seeds".to_string(), price: 80, season_available: Some(Season::Summer) },
        ShopListing { item_id: "fertilizer".to_string(), price: 100, season_available: None },
    ];
    let state = open_shop(ShopId::GeneralStore, &listings, Season::Spring, &player, &inv, &reg, &vec![]);
    assert_eq!(state.buy_items.len(), 2);
    assert_eq!(state.buy_items[0].item_id, "turnip_seeds");
    assert_eq!(state.buy_items[1].item_id, "fertilizer");
    assert!(state.is_buy_mode && !state.upgrade_mode);
    assert_eq!(state.cursor, 0);
    assert!(state.upgrade_entries.is_empty());
    assert_eq!(shop_mode_text(&state), "[Tab] Mode: BUY");
}

#[test]
fn shop_navigation_buys_then_sells() {
    let reg = registry();
    let mut player = PlayerState::default();
    let mut inv = Inventory::default();
    let listings = vec![ShopListing { item_id: "turnip".to_string(), price: 20, season_available: None }];
    let mut state = open_shop(ShopId::GeneralStore, &listings, Season::Spring, &player, &inv, &reg, &vec![]);
    let buy = MenuAction { activate: true, ..Default::default() };
    match shop_navigation(&mut state, &buy, false, &mut player, &mut inv, &reg, &vec![]) {
        ShopOutcome::Transaction(ev) => {
            assert!(ev.is_purchase);
            assert_eq!(ev.item_id, "turnip");
            assert_eq!(ev.total_cost, 20);
        }
        _ => panic!("expected a purchase"),
    }
    assert_eq!(player.gold, 480);
    assert_eq!(inv.count("turnip"), 1);
    // Switch to selling: the sell list is rebuilt and the cursor reset.
    let idle = MenuAction::default();
    match shop_navigation(&mut state, &idle, true, &mut player, &mut inv, &reg, &vec![]) {
        ShopOutcome::Nothing => {}
        _ => panic!("switching modes does nothing else"),
    }
    assert!(!state.is_buy_mode);
    assert_eq!(state.sell_items.len(), 1);
    assert_eq!(shop_mode_text(&state), "[Tab] Mode: SELL");
    match shop_navigation(&mut state, &buy, false, &mut player, &mut inv, &reg, &vec![]) {
        ShopOutcome::Transaction(ev) => {
            assert!(!ev.is_purchase);
            assert_eq!(ev.total_cost, 35);
        }
        _ => panic!("expected a sale"),
    }
    assert_eq!(player.gold, 515);
    assert_eq!(inv.count("turnip"), 0);
    assert!(state.sell_items.is_empty());
    assert_eq!(state.cursor, 0);
}

#[test]
fn shop_row_texts() {
    assert_eq!(price_text(350), "350 G");
    assert_eq!(sell_row_text("Turnip", 12), "Turnip (x12)");
}
