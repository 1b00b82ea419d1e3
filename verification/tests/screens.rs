use hearthfield::inventory_screen::compact_item_name;
use hearthfield::title::{LOAD_MENU_OPTION_COUNT, MAIN_MENU_MAX_ITEMS, ROOT_MENU_OPTION_COUNT};
use hearthfield::tools::{tool_bob_frame, tool_tier_label, ToolTier};

#[test]
fn tool_bob_uses_walk_frame_cycle() {
    assert_eq!(tool_bob_frame(1), 2);
    assert_eq!(tool_bob_frame(2), 3);
    assert_eq!(tool_bob_frame(3), 0);
}

#[test]
fn compact_item_name_preserves_short_names() {
    assert_eq!(compact_item_name("Turnip"), "Turnip");
}

#[test]
fn compact_item_name_truncates_long_names() {
    assert_eq!(compact_item_name("Deluxe Fertilizer"), "Deluxe Fert…");
}

#[test]
fn tool_tier_label_matches_expected_copy() {
    assert_eq!(tool_tier_label(ToolTier::Iridium), "Iridium");
}

#[test]
fn menu_button_pool_covers_root_and_load_menus() {
    assert!(MAIN_MENU_MAX_ITEMS >= ROOT_MENU_OPTION_COUNT);
    assert!(MAIN_MENU_MAX_ITEMS >= LOAD_MENU_OPTION_COUNT);
}
