use hearthfield::audio::{game_music_on_start, play_music, MusicState};
use hearthfield::calendar::Season;
use hearthfield::chest::{chest_inv_slot_text, chest_slot_text, handle_chest_input, ChestUiState, QualityStack, StorageChest};
use hearthfield::farm::ItemQuality;
use hearthfield::hud::hotbar_item_label;
use hearthfield::inventory::{Inventory, InventorySlot};
use hearthfield::items::{ItemCategory, ItemDef, ItemRegistry};
use hearthfield::menu::PlayerInput;
use hearthfield::names::NameMap;
use hearthfield::save::empty_slot_info;
use hearthfield::title::{menu_option_label_at, MainMenuMode};
use hearthfield::tool_sprites::tool_sprite_pixels;
use hearthfield::tools::ToolKind;
use hearthfield::world::GridPosition;

fn registry() -> ItemRegistry {
    let mut reg = ItemRegistry::new();
    for (id, name) in [("parsnip_seeds", "Parsnip Seeds"), ("wood", "Wood")] {
        reg.items.insert(
            id.to_string(),
            ItemDef {
                id: id.to_string(),
                name: name.to_string(),
                description: String::new(),
                category: ItemCategory::Seed,
                sell_price: 1,
                buy_price: None,
                stack_size: 99,
                edible: false,
                sprite_index: 0,
            },
        );
    }
    reg
}

#[test]
fn hotbar_labels() {
    let reg = registry();
    let slot = |id: &str| InventorySlot { item_id: id.to_string(), quantity: 1 };
    assert_eq!(hotbar_item_label(&slot("parsnip_seeds"), &reg), "Parsn.");
    assert_eq!(hotbar_item_label(&slot("wood"), &reg), "Wood");
    assert_eq!(hotbar_item_label(&slot("turnip_seeds"), &reg), "turnip");
    assert_eq!(hotbar_item_label(&slot("gem"), &reg), "gem");
}

#[test]
fn main_menu_labels() {
    assert_eq!(menu_option_label_at(MainMenuMode::Root, 0, None, 0), Some(("New Game".to_string(), true)));
    assert_eq!(menu_option_label_at(MainMenuMode::Root, 5, None, 0), Some(("Quit".to_string(), true)));
    assert_eq!(menu_option_label_at(MainMenuMode::Root, 6, None, 0), None);
    assert_eq!(menu_option_label_at(MainMenuMode::LoadSlots, 3, None, 0), Some(("Back".to_string(), true)));
    assert_eq!(
        menu_option_label_at(MainMenuMode::LoadSlots, 0, None, 0),
        Some(("Slot ?  (Unavailable)".to_string(), false))
    );
    let cache = vec![empty_slot_info(0)];
    assert_eq!(
        menu_option_label_at(MainMenuMode::LoadSlots, 0, Some(&cache), 0),
        Some(("Slot 1  (Empty)\nStart a new farm here".to_string(), false))
    );
}

#[test]
fn music_requests() {
    assert_eq!(game_music_on_start(true, Season::Fall), None);
    assert_eq!(game_music_on_start(false, Season::Fall), Some("fall"));
    let mut state = MusicState { current_track_id: String::new(), playing: false };
    assert!(play_music(&mut state, "spring").is_some());
    assert!(state.playing);
    assert_eq!(state.current_track_id, "spring");
    assert_eq!(play_music(&mut state, "no_such_track"), None);
    assert!(!state.playing);
    assert_eq!(state.current_track_id, "");
}

#[test]
fn name_map_lists_its_names() {
    let mut m: NameMap<u32> = NameMap::new();
    m.insert("elena".to_string(), 1);
    m.insert("rex".to_string(), 2);
    m.insert("elena".to_string(), 3);
    let mut names = m.names();
    names.sort();
    names.dedup();
    assert_eq!(names, vec!["elena".to_string(), "rex".to_string()]);
    assert_eq!(m.get("elena"), Some(&3));
}

#[test]
fn grid_position_holds_its_coordinates() {
    let p = GridPosition::new(-3, 7);
    assert_eq!((p.x, p.y), (-3, 7));
}

#[test]
fn chest_screen_moves_stacks_both_ways() {
    let reg = ItemRegistry::new();
    let mut inv = Inventory::default();
    inv.slots[0] = Some(InventorySlot { item_id: "wood".to_string(), quantity: 30 });
    let mut chest = StorageChest::new(24, 4, 5);
    let mut ui = ChestUiState { on_chest_side: false, cursor: 0 };
    let confirm = PlayerInput { ui_confirm: true, ..Default::default() };
    assert!(handle_chest_input(&mut ui, &confirm, &mut inv, &mut chest, &reg));
    assert_eq!(inv.count("wood"), 0);
    let switch = PlayerInput { ui_left: true, ..Default::default() };
    assert!(!handle_chest_input(&mut ui, &switch, &mut inv, &mut chest, &reg));
    assert!(ui.on_chest_side && ui.cursor == 0);
    assert!(handle_chest_input(&mut ui, &confirm, &mut inv, &mut chest, &reg));
    assert_eq!(inv.count("wood"), 30);
    let down = PlayerInput { ui_down: true, ..Default::default() };
    for _ in 0..20 {
        handle_chest_input(&mut ui, &down, &mut inv, &mut chest, &reg);
    }
    assert_eq!(ui.cursor, 11);
}

#[test]
fn sprites_of_every_tool_are_complete() {
    for tool in [ToolKind::Hoe, ToolKind::WateringCan, ToolKind::Axe, ToolKind::Pickaxe, ToolKind::FishingRod, ToolKind::Scythe] {
        let px = tool_sprite_pixels(tool);
        assert_eq!(px.len(), 16 * 16 * 4);
        // Every pixel is either clear or opaque.
        for p in px.chunks(4) {
            assert!(p[3] == 0 || p[3] == 255);
        }
    }
    let can = tool_sprite_pixels(ToolKind::WateringCan);
    let at = |x: usize, y: usize| (y * 16 + x) * 4;
    assert_eq!(&can[at(3, 6)..at(3, 6) + 4], &[90, 120, 160, 255]);
    assert_eq!(&can[at(5, 3)..at(5, 3) + 4], &[101, 67, 33, 255]);
    let axe = tool_sprite_pixels(ToolKind::Axe);
    assert_eq!(&axe[at(3, 12)..at(3, 12) + 4], &[120, 120, 120, 255]);
    assert_eq!(&axe[at(3, 11)..at(3, 11) + 4], &[0, 0, 0, 0]);
}

#[test]
fn adding_then_removing_restores_totals() {
    let mut inv = Inventory::default();
    inv.try_add("stone", 40, 99);
    inv.try_add("wood", 150, 99);
    inv.try_remove("wood", 150);
    assert_eq!(inv.count("wood"), 0);
    assert_eq!(inv.count("stone"), 40);
}

#[test]
fn four_seasons_make_a_year() {
    for s in [Season::Spring, Season::Summer, Season::Fall, Season::Winter] {
        assert_eq!(s.next().next().next().next(), s);
        assert_eq!(s.next().index(), (s.index() + 1) % 4);
    }
}

use hearthfield::animation::{advance_tool_frame, anim_state_after_move, impact_due, walk_frame_advance, walk_sheet_index, PlayerAnimState};
use hearthfield::tools::Facing;

#[test]
fn player_animation_rules() {
    let swing = PlayerAnimState::ToolUse { tool: ToolKind::Axe, frame: 1, total_frames: 4 };
    assert_eq!(anim_state_after_move(swing, true), swing);
    assert_eq!(anim_state_after_move(PlayerAnimState::Idle, true), PlayerAnimState::Walk);
    assert_eq!(anim_state_after_move(PlayerAnimState::Walk, false), PlayerAnimState::Idle);
    assert_eq!(walk_sheet_index(Facing::Up, 0), 12);
    assert_eq!(walk_sheet_index(Facing::Up, 2), 14);
    assert_eq!(walk_sheet_index(Facing::Left, 1), 5);
    assert_eq!(walk_sheet_index(Facing::Right, 3), 11);
    assert_eq!(walk_sheet_index(Facing::Down, 0), 0);
    assert_eq!(walk_frame_advance(3, 4, 1), 0);
    assert_eq!(walk_frame_advance(1, 4, 6), 3);
    assert!(impact_due(2, false));
    assert!(!impact_due(2, true));
    assert!(!impact_due(1, false));
    assert_eq!(
        advance_tool_frame(ToolKind::Axe, 1, 4, Facing::Left, false),
        (PlayerAnimState::ToolUse { tool: ToolKind::Axe, frame: 2, total_frames: 4 }, 4 + 3)
    );
    assert_eq!(advance_tool_frame(ToolKind::Axe, 3, 4, Facing::Up, true), (PlayerAnimState::Walk, 12));
    assert_eq!(advance_tool_frame(ToolKind::Axe, 3, 4, Facing::Up, false), (PlayerAnimState::Idle, 12));
}

use hearthfield::calendar::Calendar;
use hearthfield::farm::HouseTier;
use hearthfield::save::{new_game_state, restore_loaded, GameStatistics, SaveHeader};
use hearthfield::tools::ToolTier;
use hearthfield::world::MapId;

#[test]
fn new_game_starts_fresh() {
    let g = new_game_state("Sunny Acres".to_string());
    assert_eq!((g.calendar.year, g.calendar.season, g.calendar.day, g.calendar.hour), (1, Season::Spring, 1, 6));
    assert_eq!(g.player.gold, 500);
    assert_eq!(g.player.current_map, MapId::Farm);
    assert_eq!(g.player.tools.tier_of(ToolKind::Scythe), ToolTier::Basic);
    assert!(g.inventory.slots.iter().all(|s| s.is_none()));
    assert_eq!(g.statistics.farm_name, "Sunny Acres");
    assert_eq!(g.house.tier, HouseTier::Basic);
}

#[test]
fn loading_resumes_the_clock_and_fixes_the_selection() {
    let mut cal = Calendar::default();
    cal.time_paused = true;
    let mut inv = Inventory::default();
    inv.selected_slot = 99;
    let mut stats = GameStatistics::new("old".to_string());
    let header = SaveHeader {
        version: 2,
        slot: 0,
        save_timestamp: 1,
        play_time_seconds: 77,
        farm_name: "Saved Farm".to_string(),
        day: 1,
        season: Season::Spring,
        year: 1,
        gold: 0,
    };
    restore_loaded(&mut cal, &mut inv, &mut stats, &header, 1000, 12);
    assert!(!cal.time_paused);
    assert_eq!(inv.selected_slot, 0);
    assert_eq!((stats.total_gold_earned, stats.total_items_shipped, stats.play_time_seconds), (1000, 12, 77));
    assert_eq!(stats.farm_name, "Saved Farm");
}

use hearthfield::menu::{fish_encyclopedia_navigation, overlay_lifecycle, GameState, OverlayAction};

#[test]
fn overlays_and_encyclopedia() {
    assert_eq!(overlay_lifecycle(true, false), OverlayAction::Spawn);
    assert_eq!(overlay_lifecycle(false, true), OverlayAction::Despawn);
    assert_eq!(overlay_lifecycle(true, true), OverlayAction::Keep);
    assert_eq!(overlay_lifecycle(false, false), OverlayAction::Keep);
    assert_eq!(fish_encyclopedia_navigation(true, false), Some(GameState::MainMenu));
    assert_eq!(fish_encyclopedia_navigation(false, false), None);
}

#[test]
fn chest_screen_slot_lines() {
    let mut reg = registry();
    let mut long = reg.items.get("wood").unwrap().clone();
    long.id = "ancient_fruit_wine".to_string();
    long.name = "Ancient Fruit Wine Deluxe".to_string();
    reg.items.insert("ancient_fruit_wine".to_string(), long);
    let mut chest = StorageChest::new(4, 0, 0);
    chest.slots[0] = Some(QualityStack { item_id: "wood".to_string(), quantity: 12, quality: ItemQuality::Normal });
    chest.slots[1] = Some(QualityStack { item_id: "ancient_fruit_wine".to_string(), quantity: 2, quality: ItemQuality::Gold });
    chest.slots[2] = Some(QualityStack { item_id: "mystery".to_string(), quantity: 1, quality: ItemQuality::Iridium });
    assert_eq!(chest_slot_text(&chest, 0, &reg), "Wood x12");
    assert_eq!(chest_slot_text(&chest, 1, &reg), "Ancient Fruit Win... [G] x2");
    assert_eq!(chest_slot_text(&chest, 2, &reg), "mystery [I] x1");
    assert_eq!(chest_slot_text(&chest, 3, &reg), "---");
    assert_eq!(chest_slot_text(&chest, 9, &reg), "---");
    let mut inv = Inventory::default();
    inv.slots[0] = Some(InventorySlot { item_id: "parsnip_seeds".to_string(), quantity: 5 });
    inv.slots[1] = Some(InventorySlot { item_id: "ancient_fruit_wine".to_string(), quantity: 1 });
    assert_eq!(chest_inv_slot_text(&inv, 0, &reg), "Parsnip Seeds x5");
    assert_eq!(chest_inv_slot_text(&inv, 1, &reg), "Ancient Fruit Win... x1");
    assert_eq!(chest_inv_slot_text(&inv, 2, &reg), "---");
    assert_eq!(chest_inv_slot_text(&inv, 99, &reg), "---");
}

use hearthfield::menu::MenuAction;
use hearthfield::title::{main_menu_navigation, MainMenuRequest, MainMenuState};

#[test]
fn main_menu_load_and_cancel() {
    let slots = vec![true, false, false];
    let mut st = MainMenuState {
        mode: MainMenuMode::Root,
        cursor: 1,
        status_message: String::new(),
        pending_load_slot: None,
    };
    let activate = MenuAction { activate: true, ..Default::default() };
    assert!(matches!(main_menu_navigation(&mut st, &activate, &slots), MainMenuRequest::Nothing));
    assert_eq!(st.mode, MainMenuMode::LoadSlots);
    assert_eq!(st.cursor, 0);
    assert!(matches!(main_menu_navigation(&mut st, &activate, &slots), MainMenuRequest::Load(0)));
    assert_eq!(st.pending_load_slot, Some(0));
    assert_eq!(st.status_message, "Loading Slot 1...");
    // While the load is under way, activate plus cancel does nothing at all.
    let both = MenuAction { activate: true, cancel: true, ..Default::default() };
    assert!(matches!(main_menu_navigation(&mut st, &both, &slots), MainMenuRequest::Nothing));
    assert_eq!(st.mode, MainMenuMode::LoadSlots);
    assert_eq!(st.pending_load_slot, Some(0));
    // A plain cancel leaves the load menu and forgets the pending slot.
    let cancel = MenuAction { cancel: true, ..Default::default() };
    main_menu_navigation(&mut st, &cancel, &slots);
    assert_eq!(st.mode, MainMenuMode::Root);
    assert_eq!(st.pending_load_slot, None);
}
