use hearthfield::calendar::{Calendar, Season};
use hearthfield::farm::{BuildingTier, ItemQuality, SprinklerKind};
use hearthfield::input::InputBlocks;
use hearthfield::inventory::Inventory;
use hearthfield::social::Relationships;
use hearthfield::tools::ToolTier;

struct BlockerA;
struct BlockerB;

#[test]
fn test_input_blocks_default_not_blocked() {
    let blocks = InputBlocks::default();
    assert!(!blocks.is_blocked());
}

#[test]
fn test_input_blocks_block_unblock_lifecycle() {
    let mut blocks = InputBlocks::default();
    blocks.block::<BlockerA>();
    assert!(blocks.is_blocked());
    blocks.unblock::<BlockerA>();
    assert!(!blocks.is_blocked());
}

#[test]
fn test_input_blocks_multiple_blockers() {
    let mut blocks = InputBlocks::default();
    blocks.block::<BlockerA>();
    blocks.block::<BlockerB>();
    assert!(blocks.is_blocked());
    blocks.unblock::<BlockerA>();
    assert!(blocks.is_blocked(), "Still blocked by BlockerB");
    blocks.unblock::<BlockerB>();
    assert!(!blocks.is_blocked());
}

#[test]
fn test_input_blocks_double_block_same_type() {
    let mut blocks = InputBlocks::default();
    blocks.block::<BlockerA>();
    blocks.block::<BlockerA>();
    assert!(blocks.is_blocked());
    blocks.unblock::<BlockerA>();
    assert!(!blocks.is_blocked());
}

#[test]
fn test_building_tier_next_full_chain() {
    let mut tier = BuildingTier::Unbuilt;
    tier = tier.next().unwrap();
    assert_eq!(tier, BuildingTier::Basic);
    tier = tier.next().unwrap();
    assert_eq!(tier, BuildingTier::Big);
    tier = tier.next().unwrap();
    assert_eq!(tier, BuildingTier::Deluxe);
    assert_eq!(tier.next(), None);
}

#[test]
fn test_building_tier_capacity_increases() {
    let none_cap = BuildingTier::Unbuilt.capacity();
    let basic_cap = BuildingTier::Basic.capacity();
    let big_cap = BuildingTier::Big.capacity();
    let deluxe_cap = BuildingTier::Deluxe.capacity();
    assert!(none_cap < basic_cap);
    assert!(basic_cap < big_cap);
    assert!(big_cap < deluxe_cap);
}

#[test]
fn test_season_next_wraps_winter_to_spring() {
    assert_eq!(Season::Winter.next(), Season::Spring);
}

#[test]
fn test_season_full_cycle() {
    let mut season = Season::Spring;
    season = season.next();
    assert_eq!(season, Season::Summer);
    season = season.next();
    assert_eq!(season, Season::Fall);
    season = season.next();
    assert_eq!(season, Season::Winter);
    season = season.next();
    assert_eq!(season, Season::Spring);
}

#[test]
fn test_season_index_ordering() {
    assert_eq!(Season::Spring.index(), 0);
    assert_eq!(Season::Summer.index(), 1);
    assert_eq!(Season::Fall.index(), 2);
    assert_eq!(Season::Winter.index(), 3);
}

#[test]
fn test_tool_tier_next_chain() {
    assert_eq!(ToolTier::Basic.next(), Some(ToolTier::Copper));
    assert_eq!(ToolTier::Copper.next(), Some(ToolTier::Iron));
    assert_eq!(ToolTier::Iron.next(), Some(ToolTier::Gold));
    assert_eq!(ToolTier::Gold.next(), Some(ToolTier::Iridium));
    assert_eq!(ToolTier::Iridium.next(), None);
}

#[test]
fn test_tool_tier_upgrade_cost_increases() {
    let basic = ToolTier::Basic.upgrade_cost_gold();
    let copper = ToolTier::Copper.upgrade_cost_gold();
    let iron = ToolTier::Iron.upgrade_cost_gold();
    let gold = ToolTier::Gold.upgrade_cost_gold();
    assert!(basic < copper);
    assert!(copper < iron);
    assert!(iron < gold);
}

#[test]
fn test_tool_tier_iridium_no_upgrade() {
    assert_eq!(ToolTier::Iridium.next(), None);
    assert_eq!(ToolTier::Iridium.upgrade_cost_gold(), 0);
    assert_eq!(ToolTier::Iridium.upgrade_bars_needed(), 0);
    assert_eq!(ToolTier::Iridium.upgrade_bar_item(), None);
}

#[test]
fn test_inventory_has_empty() {
    let inv = Inventory::default();
    assert!(!inv.has("turnip", 1));
    assert_eq!(inv.count("turnip"), 0);
}

#[test]
fn test_inventory_try_add_and_has() {
    let mut inv = Inventory::default();
    let leftover = inv.try_add("turnip", 5, 99);
    assert_eq!(leftover, 0);
    assert!(inv.has("turnip", 5));
    assert!(inv.has("turnip", 1));
    assert!(!inv.has("turnip", 6));
}

#[test]
fn test_inventory_try_remove() {
    let mut inv = Inventory::default();
    inv.try_add("turnip", 10, 99);
    let removed = inv.try_remove("turnip", 3);
    assert_eq!(removed, 3);
    assert_eq!(inv.count("turnip"), 7);
}

#[test]
fn test_inventory_try_remove_more_than_available() {
    let mut inv = Inventory::default();
    inv.try_add("turnip", 2, 99);
    let removed = inv.try_remove("turnip", 5);
    assert_eq!(removed, 2);
    assert_eq!(inv.count("turnip"), 0);
    assert!(!inv.has("turnip", 1));
}

#[test]
fn test_inventory_try_remove_nonexistent() {
    let mut inv = Inventory::default();
    let removed = inv.try_remove("turnip", 1);
    assert_eq!(removed, 0);
}

#[test]
fn test_inventory_slot_cleared_when_empty() {
    let mut inv = Inventory::default();
    inv.try_add("turnip", 1, 99);
    assert!(inv.slots.iter().any(|s| s.is_some()));
    inv.try_remove("turnip", 1);
    let turnip_slots: Vec<_> = inv
        .slots
        .iter()
        .filter(|s| s.as_ref().map_or(false, |s| s.item_id == "turnip"))
        .collect();
    assert!(turnip_slots.is_empty());
}

#[test]
fn test_item_quality_next() {
    assert_eq!(ItemQuality::Normal.next(), Some(ItemQuality::Silver));
    assert_eq!(ItemQuality::Silver.next(), Some(ItemQuality::Gold));
    assert_eq!(ItemQuality::Gold.next(), Some(ItemQuality::Iridium));
    assert_eq!(ItemQuality::Iridium.next(), None);
}

#[test]
fn test_relationships_hearts_calculation() {
    let mut rel = Relationships::default();
    rel.friendship.insert("elena".to_string(), 500);
    assert_eq!(rel.hearts("elena"), 5);
}

#[test]
fn test_relationships_add_friendship_clamps() {
    let mut rel = Relationships::default();
    rel.add_friendship("elena", 2000);
    assert_eq!(*rel.friendship.get("elena").unwrap(), 1000);
}

#[test]
fn test_relationships_add_friendship_negative_clamps_to_zero() {
    let mut rel = Relationships::default();
    rel.add_friendship("elena", 50);
    rel.add_friendship("elena", -100);
    assert_eq!(*rel.friendship.get("elena").unwrap(), 0);
}

#[test]
fn test_sprinkler_kind_range() {
    assert_eq!(SprinklerKind::Basic.range(), 1);
    assert_eq!(SprinklerKind::Quality.range(), 1);
    assert_eq!(SprinklerKind::Iridium.range(), 2);
}

#[test]
fn test_sprinkler_kind_diagonals() {
    assert!(!SprinklerKind::Basic.includes_diagonals());
    assert!(SprinklerKind::Quality.includes_diagonals());
    assert!(SprinklerKind::Iridium.includes_diagonals());
}

#[test]
fn test_calendar_default() {
    let cal = Calendar::default();
    assert_eq!(cal.year, 1);
    assert_eq!(cal.season, Season::Spring);
    assert_eq!(cal.day, 1);
    assert_eq!(cal.hour, 6);
    assert_eq!(cal.minute, 0);
}

#[test]
fn inventory_stacks_stay_tidy() {
    let mut inv = Inventory::default();
    assert_eq!(inv.try_add("stone", 5, 10), 0);
    assert_eq!(inv.try_add("wood", 25, 10), 0);
    // Stone stays in slot 0; wood fills slots 1-3 in stacks of at most 10.
    let qty = |inv: &Inventory, i: usize| inv.slots[i].as_ref().map(|s| (s.item_id.clone(), s.quantity));
    assert_eq!(qty(&inv, 0), Some(("stone".to_string(), 5)));
    assert_eq!(qty(&inv, 1), Some(("wood".to_string(), 10)));
    assert_eq!(qty(&inv, 2), Some(("wood".to_string(), 10)));
    assert_eq!(qty(&inv, 3), Some(("wood".to_string(), 5)));
    // Filling the rest leaves every slot taken and every wood stack full.
    assert_eq!(inv.try_add("wood", 255, 10), 0);
    let left = inv.try_add("wood", 255, 10);
    assert_eq!(left, 185);
    assert!(inv.slots.iter().all(|s| s.is_some()));
    assert_eq!(qty(&inv, 0), Some(("stone".to_string(), 5)));
    assert!(inv.slots.iter().flatten().filter(|s| s.item_id == "wood").all(|s| s.quantity == 10));
    // Taking wood out clears emptied slots and leaves the stone alone.
    assert_eq!(inv.try_remove("wood", 25), 25);
    assert_eq!(qty(&inv, 0), Some(("stone".to_string(), 5)));
    assert_eq!(qty(&inv, 1), None);
    assert_eq!(qty(&inv, 2), None);
    assert_eq!(qty(&inv, 3), Some(("wood".to_string(), 5)));
    assert!(inv.slots.iter().flatten().all(|s| s.quantity > 0));
}
