use vstd::prelude::*;
use crate::calendar::Season;
use crate::inventory::Inventory;
use crate::text::{decimal, push_decimal, push_str, string_of};
use crate::world::MapId;
use crate::calendar::Calendar;
use crate::farm::HouseState;
use crate::player::PlayerState;
use crate::social::Relationships;
use crate::tools::ToolKind;

verus! {

pub const SAVE_VERSION: u32 = 2;
pub const NUM_SAVE_SLOTS: usize = 3;

/// What the load screen shows of a save slot.
#[derive(Debug)]
pub struct SaveSlotInfo {
    pub slot: u8,
    pub exists: bool,
    pub day: u8,
    pub season: Season,
    pub year: u32,
    pub gold: u32,
    pub farm_name: String,
    pub play_time_seconds: u64,
    pub save_timestamp: u64,
}

impl Clone for SaveSlotInfo {
    fn clone(&self) -> (c: Self)
        ensures
            c == *self,
    {
        SaveSlotInfo {
            slot: self.slot,
            exists: self.exists,
            day: self.day,
            season: self.season,
            year: self.year,
            gold: self.gold,
            farm_name: self.farm_name.clone(),
            play_time_seconds: self.play_time_seconds,
            save_timestamp: self.save_timestamp,
        }
    }
}

impl Default for SaveSlotInfo {
    fn default() -> (i: Self)
        ensures
            i.slot == 0,
            !i.exists,
            i.day == 1,
            i.season == Season::Spring,
            i.year == 1,
            i.gold == 0,
            i.farm_name@ == "Hearthfield Farm"@,
            i.play_time_seconds == 0,
            i.save_timestamp == 0,
    {
        SaveSlotInfo {
            slot: 0,
            exists: false,
            day: 1,
            season: Season::Spring,
            year: 1,
            gold: 0,
            farm_name: string_of("Hearthfield Farm"),
            play_time_seconds: 0,
            save_timestamp: 0,
        }
    }
}

/// The slot info shown for a slot that holds no readable save.
pub fn empty_slot_info(slot: u8) -> (i: SaveSlotInfo)
    ensures
        i.slot == slot,
        !i.exists,
        i.day == 1,
        i.season == Season::Spring,
        i.year == 1,
        i.gold == 0,
        i.farm_name@ == "Hearthfield Farm"@,
        i.play_time_seconds == 0,
        i.save_timestamp == 0,
{
    let mut info = SaveSlotInfo::default();
    info.slot = slot;
    info
}

/// The slot info of a save that was read: what the file holds, or the empty
/// slot info when it could not be read.
pub fn peek_result(slot: u8, read: Result<SaveSlotInfo, String>) -> (i: SaveSlotInfo)
    ensures
        match read {
            Ok(info) => i == info,
            Err(_) => i.slot == slot && !i.exists && i.farm_name@ == "Hearthfield Farm"@,
        },
{
    match read {
        Ok(info) => info,
        Err(_) => empty_slot_info(slot),
    }
}

/// Statistics kept in the save file header.
#[derive(Debug, Clone)]
pub struct GameStatistics {
    pub total_gold_earned: u64,
    pub total_items_shipped: u64,
    pub play_time_seconds: u64,
    pub farm_name: String,
}

impl GameStatistics {
    pub fn new(farm_name: String) -> (s: Self)
        ensures
            s.total_gold_earned == 0,
            s.total_items_shipped == 0,
            s.play_time_seconds == 0,
            s.farm_name == farm_name,
    {
        GameStatistics { total_gold_earned: 0, total_items_shipped: 0, play_time_seconds: 0, farm_name }
    }
}

pub open spec fn sat_add(a: nat, b: nat) -> nat {
    if a + b <= u64::MAX { a + b } else { u64::MAX as nat }
}

/// Gold earned accumulates the positive gold changes, saturating.
pub fn track_gold_earned(total: u64, amount: i32) -> (r: u64)
    ensures
        r == if amount > 0 { sat_add(total as nat, amount as nat) } else { total as nat },
{
    if amount > 0 {
        total.saturating_add(amount as u64)
    } else {
        total
    }
}

/// Items shipped accumulates the quantities sold, saturating.
pub fn track_items_shipped(total: u64, is_purchase: bool, quantity: u8) -> (r: u64)
    ensures
        r == if !is_purchase { sat_add(total as nat, quantity as nat) } else { total as nat },
{
    if !is_purchase {
        total.saturating_add(quantity as u64)
    } else {
        total
    }
}

/// Play-time bookkeeping for one frame: the frame's time (in nanoseconds)
/// is added to the running remainder, and the whole seconds in it move into
/// the total play time. Returns the new remainder and total.
pub fn tick_session_timer(elapsed_nanos: u64, delta_nanos: u64, play_time_seconds: u64) -> (r: (u64, u64))
    requires
        elapsed_nanos + delta_nanos <= u64::MAX,
    ensures
        ({
            let e = elapsed_nanos + delta_nanos;
            let secs = e / 1_000_000_000;
            &&& r.0 == e % 1_000_000_000
            &&& r.1 == if secs > 0 { sat_add(play_time_seconds as nat, secs as nat) } else { play_time_seconds as nat }
        }),
{
    let e = elapsed_nanos + delta_nanos;
    let secs = e / 1_000_000_000;
    if secs > 0 {
        (e % 1_000_000_000, play_time_seconds.saturating_add(secs))
    } else {
        (e, play_time_seconds)
    }
}

/// The message refusing a save written by a newer version of the game.
pub open spec fn future_version_message(slot: nat, version: nat) -> Seq<char> {
    "Save slot "@ + decimal(slot) + " uses version "@ + decimal(version)
        + " but this game only supports up to version "@ + decimal(SAVE_VERSION as nat)
        + ". Please update the game."@
}

/// Saves from future versions are refused; older saves load with defaults
/// for the fields they lack.
pub fn check_save_version(slot: u8, version: u32) -> (r: Result<(), String>)
    ensures
        match r {
            Ok(()) => version <= SAVE_VERSION,
            Err(e) => version > SAVE_VERSION && e@ == future_version_message(slot as nat, version as nat),
        },
{
    if version > SAVE_VERSION {
        let mut msg = string_of("Save slot ");
        push_decimal(&mut msg, slot as u64);
        push_str(&mut msg, " uses version ");
        push_decimal(&mut msg, version as u64);
        push_str(&mut msg, " but this game only supports up to version ");
        push_decimal(&mut msg, SAVE_VERSION as u64);
        push_str(&mut msg, ". Please update the game.");
        Err(msg)
    } else {
        Ok(())
    }
}

/// A loaded inventory whose selected slot is out of range selects slot 0.
pub fn clamp_selected_slot(inventory: &mut Inventory)
    ensures
        final(inventory).slots == old(inventory).slots,
        final(inventory).selected_slot == if old(inventory).selected_slot >= old(inventory).slots.len() {
            0
        } else {
            old(inventory).selected_slot
        },
{
    if inventory.selected_slot >= inventory.slots.len() {
        inventory.selected_slot = 0;
    }
}

/// What a save file's header holds of the game: what the load screen shows.
#[derive(Debug, Clone)]
pub struct SaveHeader {
    pub version: u32,
    pub slot: u8,
    pub save_timestamp: u64,
    pub play_time_seconds: u64,
    pub farm_name: String,
    pub day: u8,
    pub season: Season,
    pub year: u32,
    pub gold: u32,
}

impl SaveHeader {
    /// The load screen's view of a save that exists.
    pub fn to_save_slot_info(&self) -> (i: SaveSlotInfo)
        ensures
            i.slot == self.slot,
            i.exists,
            i.day == self.day,
            i.season == self.season,
            i.year == self.year,
            i.gold == self.gold,
            i.farm_name@ == self.farm_name@,
            i.play_time_seconds == self.play_time_seconds,
            i.save_timestamp == self.save_timestamp,
    {
        SaveSlotInfo {
            slot: self.slot,
            exists: true,
            day: self.day,
            season: self.season,
            year: self.year,
            gold: self.gold,
            farm_name: self.farm_name.clone(),
            play_time_seconds: self.play_time_seconds,
            save_timestamp: self.save_timestamp,
        }
    }
}

/// The end of a save or a load: the slot, whether it worked, and the error.
#[derive(Debug, Clone)]
pub struct CompletionEvent {
    pub slot: u8,
    pub success: bool,
    pub error_message: Option<String>,
}

/// The completion reported for a save or load of `slot` that ended with
/// `result`.
pub fn completion_event(slot: u8, result: Result<(), String>) -> (e: CompletionEvent)
    ensures
        e.slot == slot,
        e.success == result is Ok,
        match result {
            Ok(()) => e.error_message is None,
            Err(m) => e.error_message == Some(m),
        },
{
    match result {
        Ok(()) => CompletionEvent { slot, success: true, error_message: None },
        Err(m) => CompletionEvent { slot, success: false, error_message: Some(m) },
    }
}

/// After a save, the cached slot list takes the new slot info at the
/// slot's place, when the slot is listed and its info could be read.
pub fn refresh_slot_cache(cache: &mut Vec<SaveSlotInfo>, slot: u8, info: Option<SaveSlotInfo>)
    ensures
        final(cache).len() == old(cache).len(),
        match info {
            Some(i) => if (slot as int) < old(cache).len() {
                final(cache)@ == old(cache)@.update(slot as int, i)
            } else {
                final(cache)@ == old(cache)@
            },
            None => final(cache)@ == old(cache)@,
        },
{
    match info {
        Some(i) => {
            if (slot as usize) < cache.len() {
                cache.set(slot as usize, i);
            }
        },
        None => {},
    }
}

/// After a load, the map the world believes it shows is set to one that
/// differs from the player's map, so the saved map is loaded afresh: the
/// farm for a player in the mine, else the mine.
pub fn reload_placeholder_map(player_map: MapId) -> (m: MapId)
    ensures
        m != player_map,
        m == if player_map == MapId::Mine { MapId::Farm } else { MapId::Mine },
{
    if player_map == MapId::Mine { MapId::Farm } else { MapId::Mine }
}

/// F5 saves and F9 loads the active slot: the slots to save to and load from.
pub fn quicksave_requests(quicksave: bool, quickload: bool, active_slot: u8) -> (r: (Option<u8>, Option<u8>))
    ensures
        r.0 == if quicksave { Some(active_slot) } else { None::<u8> },
        r.1 == if quickload { Some(active_slot) } else { None::<u8> },
{
    (if quicksave { Some(active_slot) } else { None }, if quickload { Some(active_slot) } else { None })
}

/// The slot list shown on the load screen: the info read for each of the
/// three slots, or an empty slot where none could be read.
pub fn scan_save_slots(read: &Vec<Option<SaveSlotInfo>>) -> (r: Vec<SaveSlotInfo>)
    requires
        read.len() == NUM_SAVE_SLOTS,
    ensures
        r.len() == NUM_SAVE_SLOTS,
        forall|i: int| 0 <= i < NUM_SAVE_SLOTS ==> match read@[i] {
            Some(info) => #[trigger] r@[i] == info,
            None => r@[i].slot == i && !r@[i].exists && r@[i].farm_name@ == "Hearthfield Farm"@,
        },
{
    let mut r: Vec<SaveSlotInfo> = Vec::new();
    let mut i: usize = 0;
    while i < NUM_SAVE_SLOTS
        invariant
            i <= NUM_SAVE_SLOTS,
            read.len() == NUM_SAVE_SLOTS,
            r.len() == i,
            forall|k: int| 0 <= k < i ==> match read@[k] {
                Some(info) => #[trigger] r@[k] == info,
                None => r@[k].slot == k && !r@[k].exists && r@[k].farm_name@ == "Hearthfield Farm"@,
            },
        decreases NUM_SAVE_SLOTS - i,
    {
        let info = match &read[i] {
            Some(x) => x.clone(),
            None => empty_slot_info(i as u8),
        };
        r.push(info);
        i = i + 1;
    }
    r
}

/// The state a new game starts from.
#[derive(Debug)]
pub struct NewGameState {
    pub calendar: Calendar,
    pub player: PlayerState,
    pub inventory: Inventory,
    pub relationships: Relationships,
    pub statistics: GameStatistics,
    pub house: HouseState,
}

/// A new game: Spring 1 of year 1 at six in the morning, a player with the
/// basic tools, the hoe in hand, 500 gold, on the farm, an empty inventory,
/// no friendships, fresh statistics under the chosen farm name, and the
/// basic house. (The starter kit comes with the first frame of play.)
pub fn new_game_state(farm_name: String) -> (g: NewGameState)
    ensures
        g.calendar.year == 1 && g.calendar.season == Season::Spring && g.calendar.day == 1,
        g.calendar.hour == 6 && g.calendar.minute == 0 && !g.calendar.time_paused,
        forall|k: ToolKind| #[trigger] g.player.tools.view().contains_key(k),
        forall|k: ToolKind| #[trigger] g.player.tools.view()[k] == crate::tools::ToolTier::Basic,
        g.player.equipped_tool == ToolKind::Hoe,
        g.player.gold == 500,
        g.player.current_map == MapId::Farm,
        g.inventory.slots.len() == crate::inventory::TOTAL_INVENTORY_SLOTS,
        forall|j: int| 0 <= j < g.inventory.slots.len() ==> #[trigger] g.inventory.slots@[j] is None,
        g.inventory.selected_slot == 0,
        forall|k: Seq<char>| #[trigger] g.relationships.friendship.get_spec(k) is None,
        g.relationships.spouse is None,
        g.statistics.total_gold_earned == 0 && g.statistics.total_items_shipped == 0,
        g.statistics.play_time_seconds == 0,
        g.statistics.farm_name == farm_name,
        g.house.tier == crate::farm::HouseTier::Basic,
{
    let player = PlayerState::default();
    proof {
        assert forall|k: ToolKind| #[trigger] player.tools.view().contains_key(k) && player.tools.view()[k] == crate::tools::ToolTier::Basic by {
            assert(player.tools.view().contains_key(k));
        }
    }
    let state = NewGameState {
        calendar: Calendar::default(),
        player,
        inventory: Inventory::default(),
        relationships: Relationships::default(),
        statistics: GameStatistics::new(farm_name),
        house: HouseState::default(),
    };
    proof {
        assert forall|k: ToolKind| #[trigger] state.player.tools.view().contains_key(k) by {
            assert(player.tools.view().contains_key(k));
        }
        assert forall|k: ToolKind| #[trigger] state.player.tools.view()[k] == crate::tools::ToolTier::Basic by {
            assert(player.tools.view().contains_key(k));
        }
    }
    state
}

/// Restoring a loaded game: the calendar runs again (a pause is not kept
/// across sessions), an out-of-range selected slot falls back to slot 0,
/// and the statistics take the saved totals, play time and farm name.
pub fn restore_loaded(calendar: &mut Calendar, inventory: &mut Inventory, statistics: &mut GameStatistics,
    header: &SaveHeader, total_gold_earned: u64, total_items_shipped: u64)
    ensures
        final(calendar).year == old(calendar).year && final(calendar).season == old(calendar).season,
        final(calendar).day == old(calendar).day && final(calendar).hour == old(calendar).hour,
        final(calendar).minute == old(calendar).minute && final(calendar).weather == old(calendar).weather,
        !final(calendar).time_paused,
        final(inventory).slots == old(inventory).slots,
        final(inventory).selected_slot == if old(inventory).selected_slot >= old(inventory).slots.len() { 0 } else { old(inventory).selected_slot },
        final(statistics).total_gold_earned == total_gold_earned,
        final(statistics).total_items_shipped == total_items_shipped,
        final(statistics).play_time_seconds == header.play_time_seconds,
        final(statistics).farm_name@ == header.farm_name@,
{
    calendar.time_paused = false;
    clamp_selected_slot(inventory);
    statistics.total_gold_earned = total_gold_earned;
    statistics.total_items_shipped = total_items_shipped;
    statistics.play_time_seconds = header.play_time_seconds;
    statistics.farm_name = header.farm_name.clone();
}

} // verus!
