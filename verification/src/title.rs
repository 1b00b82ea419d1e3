use vstd::prelude::*;
use crate::calendar::{season_label, season_name};
use crate::menu::{GameState, MenuAction};
use crate::save::{SaveSlotInfo, NUM_SAVE_SLOTS};
use crate::text::{decimal, push_decimal, push_str, string_of};

verus! {

#[derive(Debug, Clone, Copy, PartialEq, Eq, Structural)]
pub enum MainMenuMode {
    Root,
    LoadSlots,
}

/// Main menu selection, status line and the slot being loaded, if any.
#[derive(Debug, Clone)]
pub struct MainMenuState {
    pub mode: MainMenuMode,
    pub cursor: usize,
    pub status_message: String,
    pub pending_load_slot: Option<u8>,
}

pub const ROOT_MENU_OPTION_COUNT: usize = 6;
pub const LOAD_MENU_BACK_INDEX: usize = 3;
pub const LOAD_MENU_OPTION_COUNT: usize = 4;
pub const MAIN_MENU_MAX_ITEMS: usize = 6;

/// The root menu entries.
pub open spec fn root_option(i: nat) -> &'static str {
    if i == 0 { "New Game" }
    else if i == 1 { "Load Game" }
    else if i == 2 { "Fishing Encyclopedia" }
    else if i == 3 { "Skywarden" }
    else if i == 4 { "City Office" }
    else { "Quit" }
}

pub fn main_menu_option(i: usize) -> (r: &'static str)
    requires
        i < ROOT_MENU_OPTION_COUNT,
    ensures
        r == root_option(i as nat),
{
    if i == 0 { "New Game" }
    else if i == 1 { "Load Game" }
    else if i == 2 { "Fishing Encyclopedia" }
    else if i == 3 { "Skywarden" }
    else if i == 4 { "City Office" }
    else { "Quit" }
}

/// Number of entries the menu shows in a mode.
pub fn current_option_count(mode: MainMenuMode) -> (r: usize)
    ensures
        r == (if mode == MainMenuMode::Root { ROOT_MENU_OPTION_COUNT } else { MAIN_MENU_MAX_ITEMS }),
{
    match mode {
        MainMenuMode::Root => ROOT_MENU_OPTION_COUNT,
        MainMenuMode::LoadSlots => MAIN_MENU_MAX_ITEMS,
    }
}

/// The entry pool is large enough for both menus.
pub proof fn law_menu_pool_covers_both_menus()
    ensures
        MAIN_MENU_MAX_ITEMS >= ROOT_MENU_OPTION_COUNT,
        MAIN_MENU_MAX_ITEMS >= LOAD_MENU_OPTION_COUNT,
        LOAD_MENU_OPTION_COUNT == NUM_SAVE_SLOTS + 1,
{
}

/// Play time as hours and minutes ("2h 5m"), or minutes alone under an
/// hour ("7m").
pub open spec fn play_time_text(seconds: nat) -> Seq<char> {
    let h = seconds / 3600;
    let m = (seconds % 3600) / 60;
    if h > 0 { decimal(h) + "h "@ + decimal(m) + "m"@ } else { decimal(m) + "m"@ }
}

pub fn format_play_time(seconds: u64) -> (s: String)
    ensures
        s@ == play_time_text(seconds as nat),
{
    let h = seconds / 3600;
    let m = (seconds % 3600) / 60;
    let mut s = String::new();
    if h > 0 {
        push_decimal(&mut s, h);
        push_str(&mut s, "h ");
        push_decimal(&mut s, m);
        push_str(&mut s, "m");
    } else {
        push_decimal(&mut s, m);
        push_str(&mut s, "m");
    }
    s
}

/// How long ago a save was written, as seen at time `now` (both in Unix
/// seconds): "Never" for no timestamp, "Just now" within a minute or when
/// the clock is behind, else whole minutes, hours or days.
pub open spec fn saved_ago_text(now: nat, timestamp: nat) -> Seq<char> {
    if timestamp == 0 {
        "Never"@
    } else if now <= timestamp {
        "Just now"@
    } else {
        let diff = (now - timestamp) as nat;
        if diff < 60 {
            "Just now"@
        } else if diff < 3600 {
            decimal(diff / 60) + "m ago"@
        } else if diff < 86400 {
            decimal(diff / 3600) + "h ago"@
        } else {
            decimal(diff / 86400) + "d ago"@
        }
    }
}

pub fn format_saved_ago(now: u64, timestamp: u64) -> (s: String)
    ensures
        s@ == saved_ago_text(now as nat, timestamp as nat),
{
    if timestamp == 0 {
        return string_of("Never");
    }
    if now <= timestamp {
        return string_of("Just now");
    }
    let diff = now - timestamp;
    if diff < 60 {
        string_of("Just now")
    } else if diff < 3600 {
        let mut s = String::new();
        push_decimal(&mut s, diff / 60);
        push_str(&mut s, "m ago");
        s
    } else if diff < 86400 {
        let mut s = String::new();
        push_decimal(&mut s, diff / 3600);
        push_str(&mut s, "h ago");
        s
    } else {
        let mut s = String::new();
        push_decimal(&mut s, diff / 86400);
        push_str(&mut s, "d ago");
        s
    }
}

/// The machine's wall clock reading, `std::time::SystemTime`.
#[verifier::external_type_specification]
#[verifier::external_body]
pub struct ExSystemTime(std::time::SystemTime);

/// Calls `std::time::SystemTime::now`. Nothing is claimed of the result:
/// it is the machine's clock.
#[verifier::external_body]
fn clock_now() -> std::time::SystemTime {
    std::time::SystemTime::now()
}

/// Calls `SystemTime::duration_since(UNIX_EPOCH)`; the error it gives for a
/// clock before 1970 becomes `None`. Nothing more is claimed: the reading
/// is opaque here.
#[verifier::external_body]
fn since_epoch(t: &std::time::SystemTime) -> Option<std::time::Duration> {
    t.duration_since(std::time::UNIX_EPOCH).ok()
}

/// Calls `Duration::as_secs`. Nothing is claimed of the result: the
/// duration is opaque here.
#[verifier::external_body]
fn duration_secs(d: &std::time::Duration) -> u64 {
    d.as_secs()
}

/// The current time in whole Unix seconds, 0 when the clock reads before 1970.
fn unix_now() -> u64 {
    let now = clock_now();
    match since_epoch(&now) {
        Some(d) => duration_secs(&d),
        None => 0,
    }
}

/// How long ago a save was written, by the machine's clock.
pub fn format_last_saved(timestamp: u64) -> (s: String)
    ensures
        exists|now: nat| s@ == #[trigger] saved_ago_text(now, timestamp as nat),
{
    let now = unix_now();
    format_saved_ago(now, timestamp)
}

pub open spec fn deref_info(o: Option<&SaveSlotInfo>) -> Option<SaveSlotInfo> {
    match o {
        Some(i) => Some(*i),
        None => None,
    }
}

/// The load-menu entry of a slot, as seen at time `now`.
pub open spec fn slot_label_text(info: Option<SaveSlotInfo>, now: nat) -> Seq<char> {
    match info {
        Some(i) => {
            if i.exists {
                "Slot "@ + decimal((i.slot + 1) as nat) + "  "@ + i.farm_name@
                    + "\nDay "@ + decimal(i.day as nat) + " "@ + season_label(i.season)@ + " Y"@ + decimal(i.year as nat)
                    + "  "@ + decimal(i.gold as nat) + "g"@
                    + "\nPlayed "@ + play_time_text(i.play_time_seconds as nat)
                    + "  Saved "@ + saved_ago_text(now, i.save_timestamp as nat)
            } else {
                "Slot "@ + decimal((i.slot + 1) as nat) + "  (Empty)\nStart a new farm here"@
            }
        }
        None => "Slot ?  (Unavailable)"@,
    }
}

pub fn load_slot_label_at(slot_info: Option<&SaveSlotInfo>, now: u64) -> (s: String)
    ensures
        s@ == slot_label_text(deref_info(slot_info), now as nat),
{
    match slot_info {
        Some(info) => {
            if info.exists {
                let mut s = string_of("Slot ");
                push_decimal(&mut s, info.slot as u64 + 1);
                push_str(&mut s, "  ");
                push_str(&mut s, info.farm_name.as_str());
                push_str(&mut s, "\nDay ");
                push_decimal(&mut s, info.day as u64);
                push_str(&mut s, " ");
                push_str(&mut s, season_name(info.season));
                push_str(&mut s, " Y");
                push_decimal(&mut s, info.year as u64);
                push_str(&mut s, "  ");
                push_decimal(&mut s, info.gold as u64);
                push_str(&mut s, "g");
                push_str(&mut s, "\nPlayed ");
                let played = format_play_time(info.play_time_seconds);
                push_str(&mut s, played.as_str());
                push_str(&mut s, "  Saved ");
                let ago = format_saved_ago(now, info.save_timestamp);
                push_str(&mut s, ago.as_str());
                s
            } else {
                let mut s = string_of("Slot ");
                push_decimal(&mut s, info.slot as u64 + 1);
                push_str(&mut s, "  (Empty)\nStart a new farm here");
                s
            }
        }
        None => string_of("Slot ?  (Unavailable)"),
    }
}

/// The load-menu entry of a slot, by the machine's clock.
pub fn load_slot_label(slot_info: Option<&SaveSlotInfo>) -> (s: String)
    ensures
        exists|now: nat| s@ == #[trigger] slot_label_text(deref_info(slot_info), now),
{
    let now = unix_now();
    load_slot_label_at(slot_info, now)
}

/// The entry `index` of a menu and whether it can be chosen: the root
/// menu's entries; in the load menu, "Back" and each slot's entry, which can
/// be chosen when the slot holds a save (`cache` is the slot list, if read).
pub open spec fn option_label(mode: MainMenuMode, index: nat, cache: Option<Seq<SaveSlotInfo>>, now: nat) -> Option<(Seq<char>, bool)> {
    match mode {
        MainMenuMode::Root => if index < ROOT_MENU_OPTION_COUNT { Some((root_option(index)@, true)) } else { None },
        MainMenuMode::LoadSlots => if index == LOAD_MENU_BACK_INDEX {
            Some(("Back"@, true))
        } else {
            let info: Option<SaveSlotInfo> = match cache {
                Some(c) => if index < c.len() { Some(c[index as int]) } else { None },
                None => None,
            };
            Some((slot_label_text(info, now), match info { Some(i) => i.exists, None => false }))
        },
    }
}

pub open spec fn strings_pair(r: Option<(String, bool)>) -> Option<(Seq<char>, bool)> {
    match r {
        Some((s, b)) => Some((s@, b)),
        None => None,
    }
}

pub open spec fn cache_view(c: Option<&Vec<SaveSlotInfo>>) -> Option<Seq<SaveSlotInfo>> {
    match c {
        Some(v) => Some(v@),
        None => None,
    }
}

pub fn menu_option_label_at(mode: MainMenuMode, index: usize, cache: Option<&Vec<SaveSlotInfo>>, now: u64) -> (r: Option<(String, bool)>)
    ensures
        strings_pair(r) == option_label(mode, index as nat, cache_view(cache), now as nat),
{
    match mode {
        MainMenuMode::Root => {
            if index < ROOT_MENU_OPTION_COUNT {
                Some((string_of(main_menu_option(index)), true))
            } else {
                None
            }
        },
        MainMenuMode::LoadSlots => {
            if index == LOAD_MENU_BACK_INDEX {
                Some((string_of("Back"), true))
            } else {
                let info: Option<&SaveSlotInfo> = match cache {
                    Some(c) => if index < c.len() { Some(&c[index]) } else { None },
                    None => None,
                };
                let exists = match info {
                    Some(i) => i.exists,
                    None => false,
                };
                Some((load_slot_label_at(info, now), exists))
            }
        },
    }
}

/// A menu entry as labelled by the machine's clock.
pub fn menu_option_label(mode: MainMenuMode, index: usize, cache: Option<&Vec<SaveSlotInfo>>) -> (r: Option<(String, bool)>)
    ensures
        exists|now: nat| strings_pair(r) == #[trigger] option_label(mode, index as nat, cache_view(cache), now),
{
    let now = unix_now();
    menu_option_label_at(mode, index, cache, now)
}

/// A DLC program that the main menu can start.
#[derive(Debug, Clone, Copy)]
pub struct DlcLaunchTarget {
    pub menu_label: &'static str,
    pub binary_stem: &'static str,
    pub working_dir: &'static str,
    pub build_command: &'static str,
}

pub fn skywarden_target() -> (t: DlcLaunchTarget)
    ensures
        t.menu_label == "Skywarden",
        t.binary_stem == "skywarden",
        t.working_dir == "dlc/pilot",
        t.build_command == "cargo build -p skywarden",
{
    DlcLaunchTarget {
        menu_label: "Skywarden",
        binary_stem: "skywarden",
        working_dir: "dlc/pilot",
        build_command: "cargo build -p skywarden",
    }
}

pub fn city_office_target() -> (t: DlcLaunchTarget)
    ensures
        t.menu_label == "City Office",
        t.binary_stem == "city_office_worker_dlc",
        t.working_dir == "dlc/city",
        t.build_command == "cargo build -p city_office_worker_dlc",
{
    DlcLaunchTarget {
        menu_label: "City Office",
        binary_stem: "city_office_worker_dlc",
        working_dir: "dlc/city",
        build_command: "cargo build -p city_office_worker_dlc",
    }
}

/// What a frame of main-menu input asks of the game.
#[derive(Debug, Clone, Copy)]
pub enum MainMenuRequest {
    Nothing,
    NewGame,
    OpenEncyclopedia,
    LaunchDlc(DlcLaunchTarget),
    Quit,
    Load(u8),
}

/// The cursor after the pointer and arrow moves of one frame (both menus
/// have six entries).
pub open spec fn moved_cursor(cursor: int, action: MenuAction) -> int {
    let c1: int = match action.set_cursor {
        Some(i) => if i < 6 { i as int } else { cursor },
        None => cursor,
    };
    let c2: int = if action.move_down && c1 + 1 < 6 { c1 + 1 } else { c1 };
    if action.move_up && c2 > 0 { c2 - 1 } else { c2 }
}

pub open spec fn slot_listed(slot_exists: Seq<bool>, c: int) -> bool {
    0 <= c < slot_exists.len() && slot_exists[c]
}

pub open spec fn menu_request(mode: MainMenuMode, c: int, busy: bool, action: MenuAction, slot_exists: Seq<bool>) -> MainMenuRequest {
    if !action.activate || busy {
        MainMenuRequest::Nothing
    } else if mode == MainMenuMode::Root {
        if c == 0 { MainMenuRequest::NewGame }
        else if c == 2 { MainMenuRequest::OpenEncyclopedia }
        else if c == 3 { MainMenuRequest::LaunchDlc(skywarden_target_spec()) }
        else if c == 4 { MainMenuRequest::LaunchDlc(city_office_target_spec()) }
        else if c == 5 { MainMenuRequest::Quit }
        else { MainMenuRequest::Nothing }
    } else if c != 3 && slot_listed(slot_exists, c) {
        MainMenuRequest::Load(c as u8)
    } else {
        MainMenuRequest::Nothing
    }
}

/// The menu mode after activation (before cancel is applied).
pub open spec fn mode_on_activate(mode: MainMenuMode, c: int, busy: bool, action: MenuAction) -> MainMenuMode {
    if action.activate && !busy {
        if mode == MainMenuMode::Root && c == 1 {
            MainMenuMode::LoadSlots
        } else if mode == MainMenuMode::LoadSlots && c == 3 {
            MainMenuMode::Root
        } else {
            mode
        }
    } else {
        mode
    }
}

/// Cancel leaves the load menu (after activation has been applied); an
/// activation refused because a load is under way ends the frame, and a
/// cancel in that same frame is ignored.
pub open spec fn cancels_load_menu(mode: MainMenuMode, c: int, busy: bool, action: MenuAction) -> bool {
    action.cancel && !(action.activate && busy) && mode_on_activate(mode, c, busy, action) == MainMenuMode::LoadSlots
}

pub open spec fn menu_mode_after(mode: MainMenuMode, c: int, busy: bool, action: MenuAction) -> MainMenuMode {
    if cancels_load_menu(mode, c, busy, action) { MainMenuMode::Root } else { mode_on_activate(mode, c, busy, action) }
}

pub open spec fn cursor_after(mode: MainMenuMode, c: int, busy: bool, action: MenuAction) -> int {
    if cancels_load_menu(mode, c, busy, action) {
        0
    } else if action.activate && !busy && ((mode == MainMenuMode::Root && c == 1) || (mode == MainMenuMode::LoadSlots && c == 3)) {
        0
    } else {
        c
    }
}

pub open spec fn pending_after(mode: MainMenuMode, c: int, pending: Option<u8>, action: MenuAction, slot_exists: Seq<bool>) -> Option<u8> {
    let busy = pending is Some;
    if cancels_load_menu(mode, c, busy, action) {
        None
    } else if action.activate && !busy && mode == MainMenuMode::LoadSlots {
        if c == 3 { None } else if slot_listed(slot_exists, c) { Some(c as u8) } else { pending }
    } else {
        pending
    }
}

pub open spec fn status_after(mode: MainMenuMode, c: int, busy: bool, action: MenuAction, slot_exists: Seq<bool>, old_msg: Seq<char>) -> Seq<char> {
    if cancels_load_menu(mode, c, busy, action) {
        Seq::empty()
    } else if !action.activate || busy {
        old_msg
    } else if mode == MainMenuMode::Root {
        if c == 1 { Seq::empty() } else { old_msg }
    } else if c == 3 {
        Seq::empty()
    } else if slot_listed(slot_exists, c) {
        "Loading Slot "@ + decimal(((c as u8) as nat + 1) as nat) + "..."@
    } else {
        "Slot "@ + decimal(((c as u8) as nat + 1) as nat) + " is empty."@
    }
}

/// Main menu input. The pointer or arrows move the cursor within the
/// current menu. Activating (while no load is under way) starts a new game,
/// opens the load menu, the encyclopedia, a DLC or quits from the root
/// menu; in the load menu it goes back, or asks to load an existing slot
/// (an empty slot only sets a message). Cancel in the load menu returns to
/// the root menu, except in a frame whose activation was refused because a
/// load is under way: that frame ends there.
pub fn main_menu_navigation(state: &mut MainMenuState, action: &MenuAction, slot_exists: &Vec<bool>) -> (r: MainMenuRequest)
    ensures
        r == menu_request(old(state).mode, moved_cursor(old(state).cursor as int, *action),
            old(state).pending_load_slot is Some, *action, slot_exists@),
        final(state).mode == menu_mode_after(old(state).mode, moved_cursor(old(state).cursor as int, *action),
            old(state).pending_load_slot is Some, *action),
        final(state).cursor == cursor_after(old(state).mode, moved_cursor(old(state).cursor as int, *action),
            old(state).pending_load_slot is Some, *action),
        final(state).pending_load_slot == pending_after(old(state).mode, moved_cursor(old(state).cursor as int, *action),
            old(state).pending_load_slot, *action, slot_exists@),
        final(state).status_message@ == status_after(old(state).mode, moved_cursor(old(state).cursor as int, *action),
            old(state).pending_load_slot is Some, *action, slot_exists@, old(state).status_message@),
{
    let option_count = current_option_count(state.mode);
    if let Some(idx) = action.set_cursor {
        if idx < option_count {
            state.cursor = idx;
        }
    }
    if action.move_down && state.cursor < option_count - 1 {
        state.cursor += 1;
    }
    if action.move_up && state.cursor > 0 {
        state.cursor -= 1;
    }
    if action.activate && state.pending_load_slot.is_some() {
        return MainMenuRequest::Nothing;
    }
    let mut request = MainMenuRequest::Nothing;
    if action.activate {
        match state.mode {
            MainMenuMode::Root => {
                if state.cursor == 0 {
                    request = MainMenuRequest::NewGame;
                } else if state.cursor == 1 {
                    state.mode = MainMenuMode::LoadSlots;
                    state.cursor = 0;
                    state.status_message = String::new();
                } else if state.cursor == 2 {
                    request = MainMenuRequest::OpenEncyclopedia;
                } else if state.cursor == 3 {
                    request = MainMenuRequest::LaunchDlc(skywarden_target());
                } else if state.cursor == 4 {
                    request = MainMenuRequest::LaunchDlc(city_office_target());
                } else if state.cursor == 5 {
                    request = MainMenuRequest::Quit;
                }
            }
            MainMenuMode::LoadSlots => {
                if state.cursor == LOAD_MENU_BACK_INDEX {
                    state.mode = MainMenuMode::Root;
                    state.cursor = 0;
                    state.status_message = String::new();
                    state.pending_load_slot = None;
                } else {
                    let slot = state.cursor as u8;
                    let exists = state.cursor < slot_exists.len() && slot_exists[state.cursor];
                    if exists {
                        state.pending_load_slot = Some(slot);
                        let mut msg = string_of("Loading Slot ");
                        push_decimal(&mut msg, slot as u64 + 1);
                        push_str(&mut msg, "...");
                        state.status_message = msg;
                        request = MainMenuRequest::Load(slot);
                    } else {
                        let mut msg = string_of("Slot ");
                        push_decimal(&mut msg, slot as u64 + 1);
                        push_str(&mut msg, " is empty.");
                        state.status_message = msg;
                    }
                }
            }
        }
    }
    if action.cancel && state.mode == MainMenuMode::LoadSlots {
        state.mode = MainMenuMode::Root;
        state.cursor = 0;
        state.status_message = String::new();
        state.pending_load_slot = None;
    }
    request
}

pub open spec fn skywarden_target_spec() -> DlcLaunchTarget {
    DlcLaunchTarget {
        menu_label: "Skywarden",
        binary_stem: "skywarden",
        working_dir: "dlc/pilot",
        build_command: "cargo build -p skywarden",
    }
}

pub open spec fn city_office_target_spec() -> DlcLaunchTarget {
    DlcLaunchTarget {
        menu_label: "City Office",
        binary_stem: "city_office_worker_dlc",
        working_dir: "dlc/city",
        build_command: "cargo build -p city_office_worker_dlc",
    }
}

/// The reason a DLC cannot be started: its program is not installed.
pub fn dlc_not_installed_message(target: &DlcLaunchTarget) -> (s: String)
    ensures
        s@ == target.menu_label@ + " not installed. Build with: "@ + target.build_command@,
{
    let mut s = string_of(target.menu_label);
    push_str(&mut s, " not installed. Build with: ");
    push_str(&mut s, target.build_command);
    s
}

/// The reason a DLC cannot be started: its working directory is missing.
pub fn dlc_dir_missing_message(target: &DlcLaunchTarget) -> (s: String)
    ensures
        s@ == target.menu_label@ + " launch directory missing. Build with: "@ + target.build_command@,
{
    let mut s = string_of(target.menu_label);
    push_str(&mut s, " launch directory missing. Build with: ");
    push_str(&mut s, target.build_command);
    s
}

/// The reason a DLC cannot be started: starting its program failed.
pub fn dlc_spawn_failed_message(target: &DlcLaunchTarget, err: &str) -> (s: String)
    ensures
        s@ == "Failed to launch "@ + target.menu_label@ + ". Build with: "@ + target.build_command@ + " ("@ + err@ + ")"@,
{
    let mut s = string_of("Failed to launch ");
    push_str(&mut s, target.menu_label);
    push_str(&mut s, ". Build with: ");
    push_str(&mut s, target.build_command);
    push_str(&mut s, " (");
    push_str(&mut s, err);
    push_str(&mut s, ")");
    s
}

/// Records the outcome of starting a DLC; returns whether the game should
/// now quit (it does once the DLC has started).
pub fn apply_dlc_launch(state: &mut MainMenuState, target: &DlcLaunchTarget, result: Result<(), String>) -> (quit: bool)
    ensures
        quit == (result is Ok),
        final(state).status_message@ == match result {
            Ok(()) => "Launching "@ + target.menu_label@ + "..."@,
            Err(e) => e@,
        },
        final(state).mode == old(state).mode,
        final(state).cursor == old(state).cursor,
        final(state).pending_load_slot == old(state).pending_load_slot,
{
    match result {
        Ok(()) => {
            let mut s = string_of("Launching ");
            push_str(&mut s, target.menu_label);
            push_str(&mut s, "...");
            state.status_message = s;
            true
        }
        Err(e) => {
            state.status_message = e;
            false
        }
    }
}

/// A finished load for the slot the menu is waiting on clears the wait and
/// enters the game on success, or shows the error. Loads of other slots
/// are ignored.
pub fn handle_load_complete(state: &mut MainMenuState, slot: u8, success: bool, error_message: Option<String>) -> (r: Option<GameState>)
    ensures
        old(state).pending_load_slot != Some(slot) ==> r is None && *final(state) == *old(state),
        old(state).pending_load_slot == Some(slot) ==> {
            &&& final(state).pending_load_slot is None
            &&& r == if success { Some(GameState::Playing) } else { None::<GameState> }
            &&& final(state).status_message@ == if success {
                    Seq::<char>::empty()
                } else {
                    match error_message {
                        Some(e) => e@,
                        None => "Failed to load save slot."@,
                    }
                }
            &&& final(state).mode == old(state).mode
            &&& final(state).cursor == old(state).cursor
        },
{
    if state.pending_load_slot != Some(slot) {
        return None;
    }
    state.pending_load_slot = None;
    if success {
        state.status_message = String::new();
        Some(GameState::Playing)
    } else {
        state.status_message = match error_message {
            Some(e) => e,
            None => string_of("Failed to load save slot."),
        };
        None
    }
}

} // verus!
