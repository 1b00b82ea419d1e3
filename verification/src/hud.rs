use vstd::prelude::*;
use crate::calendar::{Calendar, Weather, season_label, season_name};
use crate::text::{decimal, push_decimal, push_str, string_of};
use crate::tools::{ToolKind, ToolTier};
use crate::world::MapId;
use crate::inventory::InventorySlot;
use crate::items::ItemRegistry;
use vstd::utf8::{encode_utf8, is_char_boundary};

verus! {

/// The name shown when the player arrives on a map.
pub open spec fn map_title(map: MapId) -> &'static str {
    match map {
        MapId::Farm => "Hearthfield Farm",
        MapId::Town => "Willowbrook",
        MapId::Beach => "Tide Pool Beach",
        MapId::Forest => "Briarwood Forest",
        MapId::DeepForest => "Deep Forest",
        MapId::MineEntrance => "The Mines",
        MapId::Mine => "Mine Floor",
        MapId::PlayerHouse => "Home",
        MapId::TownHouseWest => "Town House West",
        MapId::TownHouseEast => "Town House East",
        MapId::GeneralStore => "General Store",
        MapId::AnimalShop => "Animal Shop",
        MapId::Blacksmith => "Elena's Forge",
        MapId::Library => "Library",
        MapId::Tavern => "Tavern",
        MapId::CoralIsland => "Coral Island",
    }
}

pub fn map_display_name(map: MapId) -> (r: &'static str)
    ensures
        r == map_title(map),
{
    match map {
        MapId::Farm => "Hearthfield Farm",
        MapId::Town => "Willowbrook",
        MapId::Beach => "Tide Pool Beach",
        MapId::Forest => "Briarwood Forest",
        MapId::DeepForest => "Deep Forest",
        MapId::MineEntrance => "The Mines",
        MapId::Mine => "Mine Floor",
        MapId::PlayerHouse => "Home",
        MapId::TownHouseWest => "Town House West",
        MapId::TownHouseEast => "Town House East",
        MapId::GeneralStore => "General Store",
        MapId::AnimalShop => "Animal Shop",
        MapId::Blacksmith => "Elena's Forge",
        MapId::Library => "Library",
        MapId::Tavern => "Tavern",
        MapId::CoralIsland => "Coral Island",
    }
}

/// The name a map carries on the world map screen.
pub open spec fn map_label(map: MapId) -> &'static str {
    match map {
        MapId::Farm => "Farm",
        MapId::Town => "Town",
        MapId::Beach => "Beach",
        MapId::Forest => "Forest",
        MapId::DeepForest => "Deep Forest",
        MapId::MineEntrance => "Mine",
        MapId::Mine => "Mine (Deep)",
        MapId::PlayerHouse => "Player House",
        MapId::TownHouseWest => "Town House West",
        MapId::TownHouseEast => "Town House East",
        MapId::GeneralStore => "General Store",
        MapId::AnimalShop => "Animal Shop",
        MapId::Blacksmith => "Blacksmith",
        MapId::Library => "Library",
        MapId::Tavern => "Tavern",
        MapId::CoralIsland => "Coral Island",
    }
}

pub fn map_id_display_name(map: MapId) -> (r: &'static str)
    ensures
        r == map_label(map),
{
    match map {
        MapId::Farm => "Farm",
        MapId::Town => "Town",
        MapId::Beach => "Beach",
        MapId::Forest => "Forest",
        MapId::DeepForest => "Deep Forest",
        MapId::MineEntrance => "Mine",
        MapId::Mine => "Mine (Deep)",
        MapId::PlayerHouse => "Player House",
        MapId::TownHouseWest => "Town House West",
        MapId::TownHouseEast => "Town House East",
        MapId::GeneralStore => "General Store",
        MapId::AnimalShop => "Animal Shop",
        MapId::Blacksmith => "Blacksmith",
        MapId::Library => "Library",
        MapId::Tavern => "Tavern",
        MapId::CoralIsland => "Coral Island",
    }
}

/// A map's label on the world map: "[Town]", or "[★ Town]" where the
/// player is.
pub fn map_cell_label(map: MapId, current: MapId) -> (s: String)
    ensures
        s@ == if map == current { "[★ "@ + map_label(map)@ + "]"@ } else { "["@ + map_label(map)@ + "]"@ },
{
    let mut s = if map == current { string_of("[★ ") } else { string_of("[") };
    push_str(&mut s, map_id_display_name(map));
    push_str(&mut s, "]");
    s
}

/// The 12-hour clock reading of an hour of the game day (hours 24 and 25
/// are midnight and 1 AM of the next day).
pub open spec fn clock_of(hour: nat) -> (nat, &'static str) {
    if hour == 0 || hour == 24 {
        (12, "AM")
    } else if hour < 12 {
        (hour, "AM")
    } else if hour == 12 {
        (12, "PM")
    } else if hour < 24 {
        ((hour - 12) as nat, "PM")
    } else {
        ((hour - 24) as nat, "AM")
    }
}

pub fn clock_hour(hour: u8) -> (r: (u8, &'static str))
    ensures
        (r.0 as nat, r.1) == clock_of(hour as nat),
{
    if hour == 0 || hour == 24 {
        (12, "AM")
    } else if hour < 12 {
        (hour, "AM")
    } else if hour == 12 {
        (12, "PM")
    } else if hour < 24 {
        (hour - 12, "PM")
    } else {
        (hour - 24, "AM")
    }
}

/// A number written with at least two digits.
pub open spec fn two_digits(n: nat) -> Seq<char> {
    if n < 10 { seq!['0'] + decimal(n) } else { decimal(n) }
}

/// The HUD clock: "Spring 3, Year 1 - 2:05 PM".
pub open spec fn time_text(c: Calendar) -> Seq<char> {
    season_label(c.season)@ + " "@ + decimal(c.day as nat) + ", Year "@ + decimal(c.year as nat) + " - "@
        + decimal(clock_of(c.hour as nat).0) + ":"@ + two_digits(c.minute as nat) + " "@ + clock_of(c.hour as nat).1@
}

pub fn time_display_text(calendar: &Calendar) -> (s: String)
    ensures
        s@ == time_text(*calendar),
{
    let (display_hour, am_pm) = clock_hour(calendar.hour);
    let mut s = string_of(season_name(calendar.season));
    push_str(&mut s, " ");
    push_decimal(&mut s, calendar.day as u64);
    push_str(&mut s, ", Year ");
    push_decimal(&mut s, calendar.year as u64);
    push_str(&mut s, " - ");
    push_decimal(&mut s, display_hour as u64);
    push_str(&mut s, ":");
    if calendar.minute < 10 {
        push_str(&mut s, "0");
        proof { reveal_strlit("0"); }
    }
    push_decimal(&mut s, calendar.minute as u64);
    push_str(&mut s, " ");
    push_str(&mut s, am_pm);
    proof {
        reveal_strlit("0");
        assert(s@ =~= time_text(*calendar));
    }
    s
}

pub open spec fn weather_name(w: Weather) -> &'static str {
    match w {
        Weather::Sunny => "Sunny",
        Weather::Rainy => "Rainy",
        Weather::Stormy => "Stormy",
        Weather::Snowy => "Snowy",
    }
}

pub fn weather_label(w: Weather) -> (r: &'static str)
    ensures
        r == weather_name(w),
{
    match w {
        Weather::Sunny => "Sunny",
        Weather::Rainy => "Rainy",
        Weather::Stormy => "Stormy",
        Weather::Snowy => "Snowy",
    }
}

/// The frame of the weather icon sheet (four icons per row: sun, cloud,
/// rain, storm, snow rows).
pub fn weather_icon_index(w: Weather) -> (r: usize)
    ensures
        r == match w {
            Weather::Sunny => 0usize,
            Weather::Rainy => 8usize,
            Weather::Stormy => 12usize,
            Weather::Snowy => 16usize,
        },
{
    match w {
        Weather::Sunny => 0,
        Weather::Rainy => 8,
        Weather::Stormy => 12,
        Weather::Snowy => 16,
    }
}

/// The HUD gold counter: "500 G".
pub fn gold_text(gold: u32) -> (s: String)
    ensures
        s@ == decimal(gold as nat) + " G"@,
{
    let mut s = String::new();
    push_decimal(&mut s, gold as u64);
    push_str(&mut s, " G");
    s
}

pub open spec fn tool_title(t: ToolKind) -> &'static str {
    match t {
        ToolKind::Hoe => "Hoe",
        ToolKind::WateringCan => "Watering Can",
        ToolKind::Axe => "Axe",
        ToolKind::Pickaxe => "Pickaxe",
        ToolKind::FishingRod => "Fishing Rod",
        ToolKind::Scythe => "Scythe",
    }
}

pub open spec fn tier_prefix(t: ToolTier) -> &'static str {
    match t {
        ToolTier::Basic => "",
        ToolTier::Copper => "Copper ",
        ToolTier::Iron => "Iron ",
        ToolTier::Gold => "Gold ",
        ToolTier::Iridium => "Iridium ",
    }
}

/// The HUD's equipped-tool line: the tier (unless basic) and the tool,
/// as in "Copper Watering Can".
pub fn tool_display_text(tool: ToolKind, tier: ToolTier) -> (s: String)
    ensures
        s@ == tier_prefix(tier)@ + tool_title(tool)@,
{
    let prefix = match tier {
        ToolTier::Basic => "",
        ToolTier::Copper => "Copper ",
        ToolTier::Iron => "Iron ",
        ToolTier::Gold => "Gold ",
        ToolTier::Iridium => "Iridium ",
    };
    let name = match tool {
        ToolKind::Hoe => "Hoe",
        ToolKind::WateringCan => "Watering Can",
        ToolKind::Axe => "Axe",
        ToolKind::Pickaxe => "Pickaxe",
        ToolKind::FishingRod => "Fishing Rod",
        ToolKind::Scythe => "Scythe",
    };
    let mut s = string_of(prefix);
    push_str(&mut s, name);
    s
}

/// The hotbar's quantity badge: "x12" for stacks of more than one.
pub fn quantity_badge(quantity: u8) -> (s: String)
    ensures
        s@ == if quantity > 1 { "x"@ + decimal(quantity as nat) } else { Seq::<char>::empty() },
{
    if quantity > 1 {
        let mut s = string_of("x");
        push_decimal(&mut s, quantity as u64);
        s
    } else {
        String::new()
    }
}

pub const ITEM_ATLAS_COLUMNS: usize = 13;
pub const ITEM_ATLAS_ROWS: usize = 20;

/// The item atlas frame of a sprite index; indices past the atlas show
/// frame 0.
pub fn item_icon_index(sprite_index: u32) -> (r: usize)
    ensures
        r == if sprite_index < 260 { sprite_index as usize } else { 0 },
{
    let idx = sprite_index as usize;
    let max = ITEM_ATLAS_COLUMNS * ITEM_ATLAS_ROWS;
    if idx < max { idx } else { 0 }
}

/// Whether the controls hint belongs on screen: only on the first day.
pub fn is_first_day(calendar: &Calendar) -> (r: bool)
    ensures
        r == (calendar.day == 1 && calendar.year == 1),
{
    calendar.day == 1 && calendar.year == 1
}

/// The floating text shown for gold earned: "+<amount>g"; nothing for a
/// loss or no change.
pub fn gold_popup_text(amount: i32) -> (r: Option<String>)
    ensures
        match r {
            Some(t) => amount > 0 && t@ == "+"@ + decimal(amount as nat) + "g"@,
            None => amount <= 0,
        },
{
    if amount <= 0 {
        return None;
    }
    let mut s = string_of("+");
    push_decimal(&mut s, amount as u64);
    push_str(&mut s, "g");
    Some(s)
}

/// The text listed for an objective id: the first matching entry, "..."
/// when none matches.
pub open spec fn objective_entry(objectives: Seq<(String, String)>, id: Seq<char>) -> Seq<char>
    decreases objectives.len(),
{
    if objectives.len() == 0 {
        "..."@
    } else if objectives[0].0@ == id {
        objectives[0].1@
    } else {
        objective_entry(objectives.drop_first(), id)
    }
}

/// The tutorial objective line: "> " and the objective's text, or nothing
/// when there is no current objective.
pub fn objective_display(current: Option<&str>, objectives: &Vec<(String, String)>) -> (s: String)
    ensures
        s@ == match current {
            Some(id) => "> "@ + objective_entry(objectives@, id@),
            None => Seq::<char>::empty(),
        },
{
    match current {
        None => String::new(),
        Some(id) => {
            let mut s = string_of("> ");
            let mut i: usize = 0;
            proof {
                assert(objectives@.skip(0) =~= objectives@);
            }
            while i < objectives.len()
                invariant
                    current == Some(id),
                    i <= objectives.len(),
                    s@ == "> "@,
                    objective_entry(objectives@, id@) == objective_entry(objectives@.skip(i as int), id@),
                decreases objectives.len() - i,
            {
                proof {
                    assert(objectives@.skip(i as int)[0] == objectives@[i as int]);
                    assert(objectives@.skip(i as int).drop_first() =~= objectives@.skip(i as int + 1));
                }
                if crate::text::str_eq(objectives[i].0.as_str(), id) {
                    push_str(&mut s, objectives[i].1.as_str());
                    return s;
                }
                i = i + 1;
            }
            push_str(&mut s, "...");
            s
        },
    }
}

/// UTF-8 encoding distributes over concatenation.
proof fn lemma_encode_concat(a: Seq<char>, b: Seq<char>)
    ensures
        encode_utf8(a + b) == encode_utf8(a) + encode_utf8(b),
    decreases a.len(),
{
    if a.len() == 0 {
        assert(a + b =~= b);
        assert(encode_utf8(a) + encode_utf8(b) =~= encode_utf8(b));
    } else {
        assert((a + b)[0] == a[0]);
        assert((a + b).drop_first() =~= a.drop_first() + b);
        lemma_encode_concat(a.drop_first(), b);
        assert(encode_utf8(a + b) =~= encode_utf8(a) + encode_utf8(b));
    }
}

/// The hotbar's short name of an item: a registered name longer than six
/// bytes is cut after its fifth byte and given a dot; an unregistered item
/// shows the first six characters of its id. (Cutting inside a character
/// would fail, so such names are left out.)
pub open spec fn hotbar_label_ok(label: Seq<char>, slot: InventorySlot, reg: ItemRegistry) -> bool {
    match reg.items.get_spec(slot.item_id@) {
        Some(d) => if encode_utf8(d.name@).len() > 6 {
            encode_utf8(label) == encode_utf8(d.name@).subrange(0, 5) + encode_utf8("."@)
        } else {
            label == d.name@
        },
        None => label == if slot.item_id@.len() <= 6 { slot.item_id@ } else { slot.item_id@.take(6) },
    }
}

pub fn hotbar_item_label(slot: &InventorySlot, item_registry: &ItemRegistry) -> (s: String)
    requires
        match item_registry.items.get_spec(slot.item_id@) {
            Some(d) => encode_utf8(d.name@).len() > 6 ==> is_char_boundary(encode_utf8(d.name@), 5),
            None => true,
        },
    ensures
        hotbar_label_ok(s@, *slot, *item_registry),
{
    match item_registry.get(slot.item_id.as_str()) {
        Some(def) => {
            let name = def.name.as_str();
            if name.as_bytes().len() > 6 {
                let (head, _) = name.split_at(5);
                let mut s = string_of(head);
                push_str(&mut s, ".");
                proof {
                    lemma_encode_concat(head@, "."@);
                    assert(encode_utf8(head@) == encode_utf8(def.name@).subrange(0, 5));
                    assert(s@ == head@ + "."@);
                    assert(encode_utf8(s@) == encode_utf8(def.name@).subrange(0, 5) + encode_utf8("."@));
                }
                s
            } else {
                string_of(name)
            }
        },
        None => {
            let id = slot.item_id.as_str();
            let n = id.unicode_len();
            let k: usize = if n <= 6 { n } else { 6 };
            let part = id.substring_char(0, k);
            proof {
                if n <= 6 {
                    assert(id@.subrange(0, k as int) =~= id@);
                } else {
                    assert(id@.subrange(0, 6) =~= id@.take(6));
                }
            }
            string_of(part)
        },
    }
}

} // verus!
