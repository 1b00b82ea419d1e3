use hearthfield::actions::MapTransitionEvent;
use hearthfield::actions::{
    day_end_plan, end_day, exhaustion_check, grant_starter_items, harvest_request, interaction_outcome, pickup_item,
    tile_blocked, tool_use_event, CollisionMap, FarmObjectKind, InteractionKind, InteractionOutcome, PickupOutcome,
};
use hearthfield::calendar::{planner_cells, planner_header, planner_summaries, season_birthdays, Calendar, Season};
use hearthfield::dialogue::{DialogueStep, DialogueUiState};
use hearthfield::hud::{gold_popup_text, objective_display};
use hearthfield::input::InputBlocks;
use hearthfield::inventory::{Inventory, InventorySlot};
use hearthfield::items::{ItemCategory, ItemDef, ItemRegistry};
use hearthfield::keys::{
    has_gift, key_display, keybind_rows, npc_prompt, object_prompt, storage_prompt, KeyBindings, KeyCode,
};
use hearthfield::menu::GameState;
use hearthfield::player::PlayerState;
use hearthfield::save::{
    check_save_version, completion_event, empty_slot_info, quicksave_requests, refresh_slot_cache,
    reload_placeholder_map, scan_save_slots, tick_session_timer, SaveHeader,
};
use hearthfield::social::{birthday_line, friendship_line, npc_row_text, relationships_navigation, Relationships, RelationshipsUiState};
use hearthfield::text::underscores_to_spaces;
use hearthfield::tool_sprites::tool_sprite_pixels;
use hearthfield::tools::{Facing, ToolKind, ToolTier};
use hearthfield::world::{edge_transition_hardcoded, GridPosition, MapId};

fn reg_with(id: &str, name: &str, category: ItemCategory, stack: u8) -> ItemRegistry {
    let mut reg = ItemRegistry::new();
    reg.items.insert(
        id.to_string(),
        ItemDef {
            id: id.to_string(),
            name: name.to_string(),
            description: String::new(),
            category,
            sell_price: 1,
            buy_price: None,
            stack_size: stack,
            edible: false,
            sprite_index: 0,
        },
    );
    reg
}

#[test]
fn planner_texts() {
    assert_eq!(planner_header(Season::Summer, 2), "Summer — Year 2");
    let npcs = vec![
        (Season::Spring, 8, "Elena".to_string()),
        (Season::Fall, 3, "Rex".to_string()),
        (Season::Spring, 20, "Mira".to_string()),
    ];
    let birthdays = season_birthdays(&npcs, Season::Spring);
    assert_eq!(birthdays, vec![(8, "Elena".to_string()), (20, "Mira".to_string())]);
    let mut cal = Calendar::default();
    cal.day = 12;
    let s = planner_summaries(&cal, &birthdays);
    assert_eq!(s[0], ("Yesterday", "Thu 11".to_string()));
    assert_eq!(s[1], ("Today", "Fri 12".to_string()));
    assert_eq!(s[2], ("Tomorrow", "Sat 13 • Egg Fest".to_string()));
    assert_eq!(s[3], ("Next festival", "Tomorrow • Egg Fest".to_string()));
    cal.day = 1;
    let first = planner_summaries(&cal, &birthdays);
    assert_eq!(first[0], ("Yesterday", "Season edge".to_string()));
    assert_eq!(first[1], ("Today", "Mon 1".to_string()));
    let cells = planner_cells(Season::Spring, 12, &birthdays);
    assert_eq!(cells.len(), 28);
    assert_eq!(cells[0], (1, None));
    assert_eq!(cells[7], (8, Some("Birthday")));
    assert_eq!(cells[10], (11, Some("Yesterday")));
    assert_eq!(cells[11], (12, Some("Today")));
    assert_eq!(cells[12], (13, Some("Tomorrow")));
    assert_eq!(cells[19], (20, Some("Birthday")));
    let later = planner_cells(Season::Spring, 2, &vec![]);
    assert_eq!(later[12], (13, Some("Festival Soon")));
}

#[test]
fn key_names_and_prompts() {
    let b = KeyBindings::default();
    assert_eq!(b.interact, KeyCode::KeyF);
    assert_eq!(b.tool_next, KeyCode::BracketRight);
    assert_eq!(key_display(KeyCode::KeyF), "F");
    assert_eq!(key_display(KeyCode::Escape), "Esc");
    assert_eq!(key_display(KeyCode::Enter), "Enter");
    assert_eq!(object_prompt(&b, "Shipping Bin"), "[F] Shipping Bin");
    assert_eq!(storage_prompt(&b), "[F] Storage");
    assert_eq!(npc_prompt(&b, "Elena", false), "[F] Talk to Elena");
    assert_eq!(npc_prompt(&b, "Elena", true), "[F] Talk to Elena | [R] Give Gift");
    let reg = reg_with("turnip", "Turnip", ItemCategory::Crop, 99);
    let mut inv = Inventory::default();
    assert!(!has_gift(&inv, &reg));
    inv.slots[0] = Some(InventorySlot { item_id: "turnip".to_string(), quantity: 1 });
    assert!(has_gift(&inv, &reg));
}

#[test]
fn pickups_fill_or_report_full() {
    let reg = reg_with("hoe", "Hoe", ItemCategory::Tool, 1);
    let mut inv = Inventory::default();
    assert_eq!(pickup_item(&mut inv, &reg, "hoe", 1), PickupOutcome::PickedUp);
    let mut full = Inventory::default();
    for s in full.slots.iter_mut() {
        *s = Some(InventorySlot { item_id: "stone".to_string(), quantity: 99 });
    }
    assert_eq!(
        pickup_item(&mut full, &reg, "hoe", 1),
        PickupOutcome::InventoryFull("Inventory full! Couldn't pick up Hoe.".to_string())
    );
    assert_eq!(
        pickup_item(&mut full, &reg, "gem", 1),
        PickupOutcome::InventoryFull("Inventory full! Couldn't pick up gem.".to_string())
    );
}

#[test]
fn starter_kit_only_for_empty_inventory() {
    let reg = ItemRegistry::new();
    let mut inv = Inventory::default();
    grant_starter_items(&mut inv, &reg);
    assert_eq!(inv.count("hoe"), 1);
    assert_eq!(inv.count("turnip_seeds"), 15);
    assert_eq!(inv.count("potato_seeds"), 5);
    assert_eq!(inv.count("wood"), 20);
    assert_eq!(inv.count("stone"), 15);
    assert_eq!(inv.count("bread"), 3);
    grant_starter_items(&mut inv, &reg);
    assert_eq!(inv.count("hoe"), 1);
}

#[test]
fn day_end_and_exhaustion() {
    let p = day_end_plan(MapId::Mine);
    assert!(!p.wake_at_home && !p.load_house);
    let p = day_end_plan(MapId::Town);
    assert!(p.wake_at_home && p.load_house);
    let p = day_end_plan(MapId::PlayerHouse);
    assert!(p.wake_at_home && !p.load_house);
    let mut latch = false;
    assert!(!exhaustion_check(true, false, 23, &mut latch));
    assert!(exhaustion_check(true, false, 24, &mut latch));
    assert!(latch);
    assert!(!exhaustion_check(true, false, 25, &mut latch));
    assert!(!exhaustion_check(false, true, 6, &mut latch));
    assert!(!latch);
}

#[test]
fn tool_use_targets_the_faced_tile() {
    let mut player = PlayerState::default();
    player.equipped_tool = ToolKind::Axe;
    player.tools.insert(ToolKind::Axe, ToolTier::Gold);
    let e = tool_use_event(&player, 5, 5, Facing::Left);
    assert_eq!((e.tool, e.tier, e.target_x, e.target_y), (ToolKind::Axe, ToolTier::Gold, 4, 5));
    let e = tool_use_event(&player, 5, 5, Facing::Up);
    assert_eq!((e.target_x, e.target_y), (5, 6));
}

#[test]
fn interactions() {
    let mut inv = Inventory::default();
    assert_eq!(interaction_outcome(InteractionKind::ShippingBin, &inv, None), InteractionOutcome::NothingToShip);
    inv.slots[0] = Some(InventorySlot { item_id: "turnip".to_string(), quantity: 3 });
    assert_eq!(interaction_outcome(InteractionKind::ShippingBin, &inv, None), InteractionOutcome::Ship("turnip".to_string()));
    assert_eq!(interaction_outcome(InteractionKind::Machine, &inv, Some(true)), InteractionOutcome::CollectOutput);
    assert_eq!(interaction_outcome(InteractionKind::Machine, &inv, Some(false)), InteractionOutcome::InsertInput("turnip".to_string()));
    assert_eq!(interaction_outcome(InteractionKind::CraftingBench, &inv, None), InteractionOutcome::OpenCrafting);
    assert_eq!(interaction_outcome(InteractionKind::BuildingUpgrade, &inv, None), InteractionOutcome::OpenBuildingUpgrade);
    assert_eq!(harvest_request(false, true, false, MapId::Farm, Some(("parsnip", false))), Some(("parsnip".to_string(), 1)));
    assert_eq!(harvest_request(false, true, false, MapId::Farm, Some(("parsnip", true))), None);
    assert_eq!(harvest_request(false, true, true, MapId::Farm, Some(("parsnip", false))), None);
    assert_eq!(harvest_request(false, true, false, MapId::Town, Some(("parsnip", false))), None);
}

#[test]
fn collision() {
    let c = CollisionMap { initialised: true, solid_tiles: vec![(3, 4)], bounds: (0, 31, 0, 23) };
    assert!(tile_blocked(3, 4, &c, MapId::Town, None));
    assert!(tile_blocked(-1, 4, &c, MapId::Town, None));
    assert!(!tile_blocked(5, 5, &c, MapId::Town, None));
    assert!(tile_blocked(5, 5, &c, MapId::Farm, Some(FarmObjectKind::Rock)));
    assert!(!tile_blocked(5, 5, &c, MapId::Farm, Some(FarmObjectKind::Other)));
    assert!(!tile_blocked(5, 5, &c, MapId::Town, Some(FarmObjectKind::Tree)));
    let unloaded = CollisionMap { initialised: false, solid_tiles: vec![(3, 4)], bounds: (0, 0, 0, 0) };
    assert!(!tile_blocked(3, 4, &unloaded, MapId::Town, None));
}

#[test]
fn save_flow() {
    assert!(check_save_version(0, 1).is_ok());
    assert!(check_save_version(0, 2).is_ok());
    assert_eq!(
        check_save_version(1, 3),
        Err("Save slot 1 uses version 3 but this game only supports up to version 2. Please update the game.".to_string())
    );
    let ok = completion_event(2, Ok(()));
    assert!(ok.success && ok.error_message.is_none() && ok.slot == 2);
    let bad = completion_event(2, Err("disk full".to_string()));
    assert!(!bad.success);
    assert_eq!(bad.error_message, Some("disk full".to_string()));
    assert_eq!(reload_placeholder_map(MapId::Mine), MapId::Farm);
    assert_eq!(reload_placeholder_map(MapId::Town), MapId::Mine);
    assert_eq!(quicksave_requests(true, false, 1), (Some(1), None));
    let header = SaveHeader {
        version: 2,
        slot: 1,
        save_timestamp: 99,
        play_time_seconds: 3600,
        farm_name: "Sunny".to_string(),
        day: 5,
        season: Season::Fall,
        year: 2,
        gold: 1234,
    };
    let info = header.to_save_slot_info();
    assert!(info.exists);
    assert_eq!((info.slot, info.day, info.season, info.year, info.gold), (1, 5, Season::Fall, 2, 1234));
    let slots = scan_save_slots(&vec![None, Some(info.clone()), None]);
    assert_eq!(slots.len(), 3);
    assert!(!slots[0].exists && slots[0].slot == 0);
    assert_eq!(slots[1].farm_name, "Sunny");
    assert!(!slots[2].exists && slots[2].slot == 2);
    let mut cache = vec![empty_slot_info(0), empty_slot_info(1)];
    refresh_slot_cache(&mut cache, 1, Some(info));
    assert!(cache[1].exists);
    refresh_slot_cache(&mut cache, 5, Some(empty_slot_info(5)));
    assert_eq!(cache.len(), 2);
    assert_eq!(tick_session_timer(900_000_000, 200_000_000, 10), (100_000_000, 11));
    assert_eq!(tick_session_timer(0, 5, 10), (5, 10));
}

#[test]
fn hoe_sprite_has_handle_and_blade() {
    let px = tool_sprite_pixels(ToolKind::Hoe);
    assert_eq!(px.len(), 1024);
    let at = |x: usize, y: usize| -> [u8; 4] {
        let i = (y * 16 + x) * 4;
        [px[i], px[i + 1], px[i + 2], px[i + 3]]
    };
    assert_eq!(at(6, 0), [101, 67, 33, 255]);
    assert_eq!(at(7, 11), [101, 67, 33, 255]);
    assert_eq!(at(2, 12), [120, 120, 120, 255]);
    assert_eq!(at(8, 14), [120, 120, 120, 255]);
    assert_eq!(at(0, 0), [0, 0, 0, 0]);
    assert_eq!(at(9, 14), [0, 0, 0, 0]);
    let rod = tool_sprite_pixels(ToolKind::FishingRod);
    assert_eq!(&rod[(15 * 16 + 8) * 4..(15 * 16 + 8) * 4 + 4], &[240, 240, 240, 255]);
}

#[test]
fn dialogue_typewriter() {
    let mut d = DialogueUiState::open("elena".to_string(), vec!["Hello!".to_string(), "Bye.".to_string()], None);
    d.reveal_chars(3);
    assert_eq!(d.revealed_text(), "Hel");
    d.reveal_chars(10);
    assert_eq!(d.revealed_text(), "Hello!");
    assert_eq!(d.advance(true, false), DialogueStep::NextLine(true));
    assert_eq!(d.revealed_text(), "");
    assert_eq!(d.advance(true, false), DialogueStep::RevealedLine);
    assert_eq!(d.advance(true, true), DialogueStep::Ended(GameState::Cutscene));
}

#[test]
fn relationship_texts() {
    let mut rel = Relationships::default();
    rel.add_friendship("elena", 350);
    assert_eq!(friendship_line(&rel, "elena"), "Friendship: 350 pts (3/10 hearts)");
    assert_eq!(friendship_line(&rel, "rex"), "Friendship: 0 pts (0/10 hearts)");
    assert_eq!(npc_row_text("Elena", 3), format!("{:<16} {}  {}/10", "Elena", "♥♥♥♡♡♡♡♡♡♡", 3));
    assert_eq!(npc_row_text("Maximilian Fairweather", 10), format!("{:<16} {}  {}/10", "Maximilian Fairweather", "♥♥♥♥♥♥♥♥♥♥", 10));
    assert_eq!(birthday_line(Season::Winter, 7), "Birthday: Winter 7");
    let mut st = RelationshipsUiState { cursor: 0, npc_ids: vec!["a".to_string(), "b".to_string()] };
    let up = hearthfield::menu::MenuAction { move_up: true, ..Default::default() };
    assert!(!relationships_navigation(&mut st, &up));
    let down = hearthfield::menu::MenuAction { move_down: true, ..Default::default() };
    assert!(relationships_navigation(&mut st, &down));
    assert_eq!(st.cursor, 1);
}

#[test]
fn hud_texts() {
    assert_eq!(gold_popup_text(25), Some("+25g".to_string()));
    assert_eq!(gold_popup_text(0), None);
    assert_eq!(gold_popup_text(-5), None);
    let objectives = vec![("till".to_string(), "Till a patch of soil".to_string())];
    assert_eq!(objective_display(Some("till"), &objectives), "> Till a patch of soil");
    assert_eq!(objective_display(Some("fish"), &objectives), "> ...");
    assert_eq!(objective_display(None, &objectives), "");
    assert_eq!(underscores_to_spaces("iridium_bar"), "iridium bar");
}

#[test]
fn landing_tiles_do_not_trigger_again() {
    let cases = [
        (MapId::Farm, 0, 10),
        (MapId::Farm, 31, 12),
        (MapId::Farm, 15, 2),
        (MapId::Town, 22, 13),
        (MapId::Beach, 19, 5),
        (MapId::Forest, 0, 3),
        (MapId::MineEntrance, 7, 0),
        (MapId::Blacksmith, 4, 11),
    ];
    for (m, x, y) in cases {
        let (m2, x2, y2) = edge_transition_hardcoded(&m, x, y).expect("a transition");
        assert_eq!(edge_transition_hardcoded(&m2, x2, y2), None);
    }
}

#[test]
fn input_blocks_survive_partial_unblock() {
    struct Menu;
    struct Dialog;
    let mut b = InputBlocks::default();
    b.block::<Menu>();
    b.block::<Dialog>();
    b.unblock::<Dialog>();
    b.unblock::<Dialog>();
    assert!(b.is_blocked());
    b.unblock::<Menu>();
    assert!(!b.is_blocked());
}

#[test]
fn settings_lists_each_action_with_its_key_name() {
    let mut bindings = KeyBindings::default();
    bindings.interact = KeyCode::ArrowUp;
    let rows = keybind_rows(&bindings);
    assert_eq!(rows.len(), 11);
    assert_eq!(rows[0], ("Move Up", "KeyW".to_string()));
    assert_eq!(rows[4], ("Interact", "ArrowUp".to_string()));
    assert_eq!(rows[5], ("Tool Use", "Space".to_string()));
    assert_eq!(rows[10], ("Pause", "Escape".to_string()));
}

#[test]
fn day_end_wakes_the_player_in_bed() {
    let mut map = MapId::Town;
    let mut grid = GridPosition::new(30, 7);
    assert_eq!(
        end_day(&mut map, &mut grid),
        Some(MapTransitionEvent { to_map: MapId::PlayerHouse, to_x: 12, to_y: 4 })
    );
    assert_eq!((map, grid), (MapId::PlayerHouse, GridPosition::new(12, 4)));
    let mut grid = GridPosition::new(3, 3);
    assert_eq!(end_day(&mut map, &mut grid), None);
    assert_eq!(grid, GridPosition::new(12, 4));
    let mut mine = MapId::Mine;
    let mut deep = GridPosition::new(5, 9);
    assert_eq!(end_day(&mut mine, &mut deep), None);
    assert_eq!((mine, deep), (MapId::Mine, GridPosition::new(5, 9)));
}
