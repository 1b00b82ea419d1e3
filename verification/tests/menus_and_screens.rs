use hearthfield::building_menu::{
    build_entries, building_upgrade_navigation, entry_row_text, format_cost, BuildingUpgradeMenuState, UpgradeCost,
    UpgradeMenuOutcome,
};
use hearthfield::crafting::{
    crafting_navigation, featured_materials, materials_text, open_crafting_screen, CraftingOutcome, CraftingUiState,
    Recipe,
    RecipeRegistry,
};
use hearthfield::farm::{BuildingKind, BuildingLevels, BuildingTier, HouseState, HouseTier};
use hearthfield::inventory::{Inventory, InventorySlot};
use hearthfield::inventory_screen::{
    hovered_item_description, inventory_navigation, slot_name_text, slot_quantity_text, slot_status_text,
    InventoryActivation,
};
use hearthfield::items::{ItemCategory, ItemDef, ItemRegistry};
use hearthfield::menu::MenuAction;
use hearthfield::names::NameMap;
use hearthfield::player::PlayerState;
use hearthfield::quest::{
    journal_navigation, quest_detail_lines, quest_list_rows, JournalUiState, Quest, QuestLog, QuestObjective,
};
use hearthfield::tools::{ToolKind, ToolTier};

fn def(id: &str, name: &str, category: ItemCategory, description: &str) -> ItemDef {
    ItemDef {
        id: id.to_string(),
        name: name.to_string(),
        description: description.to_string(),
        category,
        sell_price: 10,
        buy_price: None,
        stack_size: 99,
        edible: false,
        sprite_index: 0,
    }
}

fn registry() -> ItemRegistry {
    let mut reg = ItemRegistry::new();
    reg.items.insert("hoe".to_string(), def("hoe", "Hoe", ItemCategory::Tool, "Tills soil."));
    reg.items.insert("bread".to_string(), def("bread", "Bread", ItemCategory::Food, ""));
    reg.items.insert("wood".to_string(), def("wood", "Wood", ItemCategory::CraftingMaterial, "Sturdy."));
    reg.items.insert("stone".to_string(), def("stone", "Stone", ItemCategory::CraftingMaterial, ""));
    reg
}

fn act() -> MenuAction {
    MenuAction { activate: true, ..Default::default() }
}

#[test]
fn format_cost_joins_gold_and_materials() {
    assert_eq!(format_cost(4000, &vec![]), "4000g");
    assert_eq!(
        format_cost(4000, &vec![("wood".to_string(), 150), ("stone".to_string(), 50)]),
        "4000g + 150 wood + 50 stone"
    );
}

fn levels(in_progress: Option<(BuildingKind, BuildingTier, u8)>) -> BuildingLevels {
    BuildingLevels {
        coop_tier: BuildingTier::Basic,
        barn_tier: BuildingTier::Deluxe,
        silo_built: false,
        upgrade_in_progress: in_progress,
    }
}

fn costs() -> Vec<UpgradeCost> {
    vec![
        UpgradeCost { building: BuildingKind::Coop, to_tier: BuildingTier::Big, gold: 10000, materials: vec![("wood".to_string(), 200)] },
        UpgradeCost { building: BuildingKind::House, to_tier: BuildingTier::Big, gold: 10000, materials: vec![] },
        UpgradeCost { building: BuildingKind::Silo, to_tier: BuildingTier::Basic, gold: 100, materials: vec![("stone".to_string(), 100)] },
    ]
}

#[test]
fn upgrade_menu_rows() {
    let house = HouseState { tier: HouseTier::Basic, has_kitchen: false, has_nursery: false };
    let rows = build_entries(&levels(None), &house, &costs());
    assert_eq!(rows.len(), 4);
    assert_eq!(rows[0].building, BuildingKind::Coop);
    assert_eq!(rows[0].to_tier, Some(BuildingTier::Big));
    assert!(rows[0].available);
    assert_eq!(rows[0].status_line, "10000g + 200 wood");
    // The barn is at the top tier.
    assert_eq!(rows[1].status_line, "MAX");
    assert!(!rows[1].available);
    assert_eq!(rows[2].label, "House");
    assert_eq!(rows[2].status_line, "10000g");
    assert_eq!(rows[3].from_tier, BuildingTier::Unbuilt);
    assert_eq!(rows[3].status_line, "100g + 100 stone");
    assert_eq!(entry_row_text(&rows[0]), "Coop: Basic -> Big");
    assert_eq!(entry_row_text(&rows[1]), "Barn: Deluxe (MAX)");
    assert_eq!(entry_row_text(&rows[3]), "Silo: None -> Basic");

    let busy = build_entries(&levels(Some((BuildingKind::Coop, BuildingTier::Big, 3))), &house, &costs());
    assert_eq!(busy[0].status_line, "BUILDING (3 days left)");
    assert_eq!(busy[2].status_line, "Another upgrade in progress");
    assert!(!busy[2].available);
}

#[test]
fn upgrade_menu_orders_or_explains() {
    let house = HouseState { tier: HouseTier::Basic, has_kitchen: false, has_nursery: false };
    let mut state = BuildingUpgradeMenuState { cursor: 0, entries: build_entries(&levels(None), &house, &costs()), status_message: String::new() };
    match building_upgrade_navigation(&mut state, &act(), 500) {
        UpgradeMenuOutcome::ShowStatus(ms) => assert_eq!(ms, 2500),
        _ => panic!("not enough gold"),
    }
    assert_eq!(state.status_message, "Not enough gold! Need 10000g, have 500g.");
    let down = MenuAction { move_down: true, activate: true, ..Default::default() };
    match building_upgrade_navigation(&mut state, &down, 50000) {
        UpgradeMenuOutcome::ShowStatus(ms) => assert_eq!(ms, 2000),
        _ => panic!("the barn is maxed"),
    }
    assert_eq!(state.cursor, 1);
    assert_eq!(state.status_message, "Already at max tier!");
    let up = MenuAction { move_up: true, activate: true, ..Default::default() };
    match building_upgrade_navigation(&mut state, &up, 50000) {
        UpgradeMenuOutcome::Order(ev, ms) => {
            assert_eq!(ms, 2000);
            assert_eq!(ev.building, BuildingKind::Coop);
            assert_eq!(ev.to_tier, BuildingTier::Big);
            assert_eq!(ev.cost_gold, 10000);
            assert_eq!(ev.cost_materials, vec![("wood".to_string(), 200)]);
        }
        _ => panic!("expected an order"),
    }
    assert_eq!(state.status_message, "Upgrade requested for Coop!");
    let cancel = MenuAction { cancel: true, ..Default::default() };
    assert!(matches!(building_upgrade_navigation(&mut state, &cancel, 0), UpgradeMenuOutcome::Close));
}

fn inventory_with(items: &[(usize, &str, u8)]) -> Inventory {
    let mut inv = Inventory::default();
    for (i, id, q) in items {
        inv.slots[*i] = Some(InventorySlot { item_id: id.to_string(), quantity: *q });
    }
    inv
}

#[test]
fn inventory_grid_navigation() {
    let reg = registry();
    let inv = inventory_with(&[(0, "hoe", 1), (1, "bread", 3), (2, "wood", 10)]);
    let mut cursor = 11usize;
    let right = MenuAction { move_right: true, ..Default::default() };
    assert_eq!(inventory_navigation(&mut cursor, &right, &inv, &reg), InventoryActivation::Nothing);
    assert_eq!(cursor, 11);
    let down = MenuAction { move_down: true, ..Default::default() };
    inventory_navigation(&mut cursor, &down, &inv, &reg);
    assert_eq!(cursor, 23);
    inventory_navigation(&mut cursor, &down, &inv, &reg);
    assert_eq!(cursor, 35);
    inventory_navigation(&mut cursor, &down, &inv, &reg);
    assert_eq!(cursor, 35);
    let mut c = 0usize;
    assert_eq!(inventory_navigation(&mut c, &act(), &inv, &reg), InventoryActivation::Equip(ToolKind::Hoe));
    let mut c = 1usize;
    assert_eq!(inventory_navigation(&mut c, &act(), &inv, &reg), InventoryActivation::Eat("bread".to_string()));
    let mut c = 2usize;
    assert_eq!(inventory_navigation(&mut c, &act(), &inv, &reg), InventoryActivation::CannotUse);
    let mut c = 5usize;
    assert_eq!(inventory_navigation(&mut c, &act(), &inv, &reg), InventoryActivation::Nothing);
}

#[test]
fn inventory_descriptions() {
    let reg = registry();
    let inv = inventory_with(&[(0, "hoe", 1), (1, "wood", 10), (2, "bread", 0), (3, "gizmo", 1)]);
    let mut player = PlayerState::default();
    player.tools.insert(ToolKind::Hoe, ToolTier::Copper);
    assert_eq!(hovered_item_description(0, &inv, &reg, &player), "Hoe\nTool Level: Copper | Equipped\nTills soil.");
    assert_eq!(hovered_item_description(1, &inv, &reg, &player), "Wood\nQuantity: 10\nSturdy.");
    assert_eq!(hovered_item_description(2, &inv, &reg, &player), "Bread");
    assert_eq!(hovered_item_description(3, &inv, &reg, &player), "Unknown item.");
    assert_eq!(
        hovered_item_description(4, &inv, &reg, &player),
        "Empty slot.\nUse WASD or the arrow keys to inspect another item."
    );
    let hoe_slot = InventorySlot { item_id: "hoe".to_string(), quantity: 1 };
    assert_eq!(slot_status_text(&hoe_slot, &reg, &player), "EQUIPPED");
    player.equipped_tool = ToolKind::Axe;
    assert_eq!(slot_status_text(&hoe_slot, &reg, &player), "");
}

#[test]
fn inventory_slot_names_and_counts() {
    let mut reg = registry();
    reg.items.insert(
        "mayo".to_string(),
        def("mayo", "Extra Fancy Mayonnaise Jar", ItemCategory::ArtisanGood, ""),
    );
    reg.items.insert("axe".to_string(), def("axe", "Axe", ItemCategory::Tool, ""));
    let inv = inventory_with(&[(0, "hoe", 1), (1, "wood", 10), (2, "mystery_box", 2), (3, "mayo", 0), (4, "axe", 1)]);
    let mut player = PlayerState::default();
    player.tools = hearthfield::player::ToolTiers::new();
    player.tools.insert(ToolKind::Hoe, ToolTier::Iron);
    assert_eq!(slot_name_text(0, &inv, &reg), Some("Hoe".to_string()));
    assert_eq!(slot_name_text(2, &inv, &reg), Some("myster".to_string()));
    assert_eq!(slot_name_text(3, &inv, &reg), Some("Extra Fancy…".to_string()));
    assert_eq!(slot_name_text(5, &inv, &reg), Some(String::new()));
    assert_eq!(slot_name_text(36, &inv, &reg), None);
    assert_eq!(slot_quantity_text(0, &inv, &reg, &player), Some("Iron".to_string()));
    assert_eq!(slot_quantity_text(1, &inv, &reg, &player), Some("x10".to_string()));
    assert_eq!(slot_quantity_text(3, &inv, &reg, &player), Some(String::new()));
    // A tool the player does not own shows its count.
    assert_eq!(slot_quantity_text(4, &inv, &reg, &player), Some("x1".to_string()));
    assert_eq!(slot_quantity_text(5, &inv, &reg, &player), Some(String::new()));
    assert_eq!(slot_quantity_text(40, &inv, &reg, &player), None);
}

fn recipes() -> RecipeRegistry {
    let mut recipes = NameMap::new();
    recipes.insert(
        "chest".to_string(),
        Recipe {
            id: "chest".to_string(),
            name: "Chest".to_string(),
            ingredients: vec![("wood".to_string(), 50)],
            result: "chest".to_string(),
            result_quantity: 1,
            is_cooking: false,
            unlocked_by_default: true,
        },
    );
    RecipeRegistry { recipes }
}

#[test]
fn crafting_screen_crafts_when_materials_are_there() {
    let reg = registry();
    let recipes = recipes();
    let mut state = CraftingUiState { cursor: 0, scroll_offset: 0, visible_recipes: vec!["chest".to_string()], status_message: String::new() };
    let poor = inventory_with(&[(0, "wood", 10)]);
    assert_eq!(crafting_navigation(&mut state, &act(), &recipes, &poor), CraftingOutcome::MissingMaterials);
    assert_eq!(state.status_message, "Not enough materials!");
    let rich = inventory_with(&[(0, "wood", 60)]);
    assert_eq!(crafting_navigation(&mut state, &act(), &recipes, &rich), CraftingOutcome::Craft("chest".to_string()));
    assert_eq!(state.status_message, "Crafting...");
    let recipe = recipes.recipes.get("chest").unwrap();
    assert_eq!(materials_text(recipe, &poor, &reg), "Wood (10/50)");
    assert_eq!(featured_materials(recipe, &poor, &reg), "Materials: Wood (10/50)");
}

#[test]
fn crafting_screen_lists_unlocked_known_recipes_sorted() {
    let mut recipes = recipes();
    let mut furnace = recipes.recipes.get("chest").unwrap().clone();
    furnace.id = "furnace".to_string();
    furnace.name = "Furnace".to_string();
    recipes.recipes.insert("furnace".to_string(), furnace);
    let st = open_crafting_screen(
        &recipes,
        &vec!["furnace".to_string(), "ghost".to_string(), "chest".to_string(), "furnace".to_string()],
    );
    // An id unlocked twice is listed twice.
    assert_eq!(st.visible_recipes, vec!["chest".to_string(), "furnace".to_string(), "furnace".to_string()]);
    assert_eq!((st.cursor, st.scroll_offset), (0, 0));
    assert_eq!(st.status_message, "");
    let only = open_crafting_screen(&recipes, &vec!["furnace".to_string()]);
    assert_eq!(only.visible_recipes, vec!["furnace".to_string()]);
    let all = open_crafting_screen(&recipes, &vec![]).visible_recipes;
    assert_eq!(all, vec!["chest".to_string(), "furnace".to_string()]);
}

fn quest(days: Option<u8>) -> Quest {
    Quest {
        id: "q1".to_string(),
        title: "Fresh Fish".to_string(),
        description: "Bring me a fish.".to_string(),
        giver: "Elena".to_string(),
        objective: QuestObjective::Catch { fish_id: "bass".to_string(), delivered: false },
        reward_gold: 250,
        reward_items: vec![],
        reward_friendship: 50,
        days_remaining: days,
        accepted_day: (1, 0, 1),
    }
}

#[test]
fn journal_details_and_navigation() {
    assert_eq!(
        quest_detail_lines(Some(&quest(Some(3)))),
        vec!["Bring me a fish.".to_string(), "Reward: 250g".to_string(), "Days remaining: 3".to_string()]
    );
    assert_eq!(quest_detail_lines(Some(&quest(None))).len(), 2);
    assert_eq!(quest_detail_lines(None), vec!["Select a quest to see details.".to_string()]);
    let log = QuestLog { active: vec![quest(None), quest(Some(1))], completed: vec![] };
    let mut st = JournalUiState { cursor: 0 };
    let down = MenuAction { move_down: true, ..Default::default() };
    assert!(journal_navigation(&mut st, &down, &log));
    assert_eq!(st.cursor, 1);
    assert!(!journal_navigation(&mut st, &down, &log));
    assert_eq!(st.cursor, 1);
}

#[test]
fn journal_lists_active_quests() {
    let empty = QuestLog { active: vec![], completed: vec![] };
    assert_eq!(quest_list_rows(&empty), None);
    let mut harvest = quest(None);
    harvest.title = "Harvest Help".to_string();
    harvest.giver = "Tom".to_string();
    harvest.objective = QuestObjective::Harvest { crop_id: "turnip".to_string(), quantity: 5, harvested: 2 };
    let log = QuestLog { active: vec![quest(None), harvest], completed: vec![] };
    let rows = quest_list_rows(&log).unwrap();
    assert_eq!(rows.len(), 2);
    assert_eq!(rows[0], ("Fresh Fish".to_string(), "From: Elena".to_string(), "Catch: bass".to_string()));
    assert_eq!(rows[1], ("Harvest Help".to_string(), "From: Tom".to_string(), "Harvest: 2/5 turnip".to_string()));
}
