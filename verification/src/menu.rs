use vstd::prelude::*;
use crate::text::{push_decimal, push_str, string_of, decimal};

verus! {

/// The top-level game states.
#[derive(Debug, Clone, Copy, PartialEq, Eq, Hash, Structural)]
pub enum GameState {
    Loading,
    MainMenu,
    Playing,
    Paused,
    Dialogue,
    Shop,
    Fishing,
    Mining,
    Crafting,
    Inventory,
    Cutscene,
    Journal,
    RelationshipsView,
    MapView,
    BuildingUpgrade,
    FishEncyclopedia,
}

impl Default for GameState {
    fn default() -> (s: Self)
        ensures
            s == GameState::Loading,
    {
        GameState::Loading
    }
}

/// Which input context is active.
#[derive(Debug, Clone, Copy, PartialEq, Eq, Structural)]
pub enum InputContext {
    Gameplay,
    Menu,
    Dialogue,
    Fishing,
    Cutscene,
    Disabled,
}

/// The player's button actions of one frame. (The analog movement axis is
/// read by the application.)
#[derive(Debug, Clone, Copy, Default)]
pub struct PlayerInput {
    pub interact: bool,
    pub tool_use: bool,
    pub tool_secondary: bool,
    pub open_inventory: bool,
    pub open_crafting: bool,
    pub open_map: bool,
    pub open_journal: bool,
    pub open_relationships: bool,
    pub pause: bool,
    pub tool_next: bool,
    pub tool_prev: bool,
    pub tool_slot: Option<u8>,
    pub fishing_reel: bool,
    pub attack: bool,
    pub ui_confirm: bool,
    pub ui_cancel: bool,
    pub ui_up: bool,
    pub ui_down: bool,
    pub ui_left: bool,
    pub ui_right: bool,
    pub any_key: bool,
    pub skip_cutscene: bool,
    pub quicksave: bool,
    pub quickload: bool,
}

/// Menu actions of one frame, from the keyboard or the pointer.
#[derive(Debug, Clone, Copy, Default)]
pub struct MenuAction {
    pub set_cursor: Option<usize>,
    pub activate: bool,
    pub cancel: bool,
    pub move_up: bool,
    pub move_down: bool,
    pub move_left: bool,
    pub move_right: bool,
}

/// Folds the keyboard's navigation into the frame's menu actions; pointer
/// actions already recorded are kept. Pause also cancels.
pub fn merge_keyboard_to_menu_action(input: &PlayerInput, action: &mut MenuAction)
    ensures
        final(action).move_up == (old(action).move_up || input.ui_up),
        final(action).move_down == (old(action).move_down || input.ui_down),
        final(action).move_left == (old(action).move_left || input.ui_left),
        final(action).move_right == (old(action).move_right || input.ui_right),
        final(action).activate == (old(action).activate || input.ui_confirm),
        final(action).cancel == (old(action).cancel || input.ui_cancel || input.pause),
        final(action).set_cursor == old(action).set_cursor,
{
    action.move_up = action.move_up || input.ui_up;
    action.move_down = action.move_down || input.ui_down;
    action.move_left = action.move_left || input.ui_left;
    action.move_right = action.move_right || input.ui_right;
    action.activate = action.activate || input.ui_confirm;
    action.cancel = action.cancel || input.ui_cancel || input.pause;
}

/// A wrapping cursor over `count` menu entries.
#[derive(Debug, Clone, Copy, Default)]
pub struct MenuCursor {
    pub index: usize,
    pub count: usize,
}

impl MenuCursor {
    pub fn new(count: usize) -> (c: Self)
        ensures
            c.index == 0,
            c.count == count,
    {
        MenuCursor { index: 0, count }
    }

    /// Moves up one entry, wrapping from the first to the last.
    pub fn up(&mut self)
        ensures
            final(self).count == old(self).count,
            final(self).index == if old(self).count == 0 {
                old(self).index as int
            } else if old(self).index == 0 {
                old(self).count - 1
            } else {
                old(self).index - 1
            },
    {
        if self.count == 0 {
            return;
        }
        self.index = if self.index == 0 { self.count - 1 } else { self.index - 1 };
    }

    /// Moves down one entry, wrapping from the last to the first.
    pub fn down(&mut self)
        requires
            old(self).index < usize::MAX,
        ensures
            final(self).count == old(self).count,
            final(self).index == if old(self).count == 0 {
                old(self).index as int
            } else {
                (old(self).index + 1) % (old(self).count as int)
            },
    {
        if self.count == 0 {
            return;
        }
        self.index = (self.index + 1) % self.count;
    }

    /// Moves to entry `idx` if there is one.
    pub fn set(&mut self, idx: usize)
        ensures
            final(self).count == old(self).count,
            final(self).index == if idx < old(self).count { idx } else { old(self).index },
    {
        if idx < self.count {
            self.index = idx;
        }
    }
}

/// On a non-empty menu, moving down then up (or up then down) returns the
/// cursor to where it was, and the cursor stays on an entry.
pub proof fn law_cursor_round_trip(count: nat, i: nat)
    requires
        count > 0,
        i < count,
    ensures
        ({
            let d: int = (i as int + 1) % (count as int);
            let back: int = if d == 0 { count - 1 } else { d - 1 };
            &&& 0 <= d < count
            &&& back == i
        }),
        ({
            let u: int = if i == 0 { count - 1 } else { i - 1 };
            &&& 0 <= u < count
            &&& (u + 1) % (count as int) == i
        }),
{
    if i + 1 < count {
        vstd::arithmetic::div_mod::lemma_small_mod((i + 1) as nat, count);
    } else {
        vstd::arithmetic::div_mod::lemma_mod_self_0(count as int);
    }
    if i > 0 {
        vstd::arithmetic::div_mod::lemma_small_mod(i, count);
    } else {
        vstd::arithmetic::div_mod::lemma_mod_self_0(count as int);
    }
}

/// The state change the gameplay keys ask for while playing: pause, then
/// inventory, journal, relationships and map each override the one before.
/// Nothing happens outside Playing or while an overlay is shown.
pub fn gameplay_state_transition(state: GameState, input: &PlayerInput, overlay_open: bool) -> (r: Option<GameState>)
    ensures
        r == (if state != GameState::Playing || overlay_open {
            None::<GameState>
        } else if input.open_map {
            Some(GameState::MapView)
        } else if input.open_relationships {
            Some(GameState::RelationshipsView)
        } else if input.open_journal {
            Some(GameState::Journal)
        } else if input.open_inventory {
            Some(GameState::Inventory)
        } else if input.pause {
            Some(GameState::Paused)
        } else {
            None::<GameState>
        }),
{
    if state != GameState::Playing {
        return None;
    }
    if overlay_open {
        return None;
    }
    let mut next: Option<GameState> = None;
    if input.pause {
        next = Some(GameState::Paused);
    }
    if input.open_inventory {
        next = Some(GameState::Inventory);
    }
    if input.open_journal {
        next = Some(GameState::Journal);
    }
    if input.open_relationships {
        next = Some(GameState::RelationshipsView);
    }
    if input.open_map {
        next = Some(GameState::MapView);
    }
    next
}

/// Closing overlay menus: the key that opened a menu closes it again;
/// otherwise cancel returns to Playing, or to the cutscene when a dialogue
/// was opened by a running cutscene.
pub fn menu_cancel_transition(state: GameState, action: &MenuAction, input: &PlayerInput, cutscene_active: bool) -> (r: Option<GameState>)
    ensures
        r == (if (state == GameState::Inventory && input.open_inventory)
            || (state == GameState::Crafting && input.open_crafting)
            || (state == GameState::Journal && input.open_journal)
            || (state == GameState::RelationshipsView && input.open_relationships)
            || (state == GameState::MapView && input.open_map) {
            Some(GameState::Playing)
        } else if !action.cancel {
            None::<GameState>
        } else if state == GameState::Dialogue && cutscene_active {
            Some(GameState::Cutscene)
        } else if state == GameState::Inventory || state == GameState::Shop || state == GameState::Crafting
            || state == GameState::Dialogue || state == GameState::Journal
            || state == GameState::RelationshipsView || state == GameState::MapView {
            Some(GameState::Playing)
        } else {
            None::<GameState>
        }),
{
    match state {
        GameState::Inventory if input.open_inventory => { return Some(GameState::Playing); }
        GameState::Crafting if input.open_crafting => { return Some(GameState::Playing); }
        GameState::Journal if input.open_journal => { return Some(GameState::Playing); }
        GameState::RelationshipsView if input.open_relationships => { return Some(GameState::Playing); }
        GameState::MapView if input.open_map => { return Some(GameState::Playing); }
        _ => {}
    }
    if !action.cancel {
        return None;
    }
    match state {
        GameState::Dialogue if cutscene_active => Some(GameState::Cutscene),
        GameState::Inventory | GameState::Shop | GameState::Crafting | GameState::Dialogue
        | GameState::Journal | GameState::RelationshipsView | GameState::MapView => Some(GameState::Playing),
        _ => None,
    }
}

/// The hotbar slot selected after the number keys of one frame.
pub fn hotbar_selection(selected: usize, tool_slot: Option<u8>) -> (r: usize)
    ensures
        r == match tool_slot {
            Some(s) => s as usize,
            None => selected,
        },
{
    match tool_slot {
        Some(slot) => slot as usize,
        None => selected,
    }
}

// ── Pause menu ────────────────────────────────────────────────────────

pub const PAUSE_OPTION_COUNT: usize = 3;

/// Pause menu selection and status line.
#[derive(Debug, Clone)]
pub struct PauseMenuState {
    pub cursor: usize,
    pub status_message: String,
}

/// What a frame of pause-menu input asks of the game.
#[derive(Debug, Clone, Copy)]
pub struct PauseOutcome {
    pub next_state: Option<GameState>,
    pub save_slot: Option<u8>,
}

/// Pause menu input: pointer or arrows move the cursor; activating Resume,
/// Save Game or Quit to Menu resumes, saves to the active slot, or returns
/// to the main menu; cancel resumes.
pub fn pause_menu_navigation(state: &mut PauseMenuState, action: &MenuAction, active_slot: u8) -> (o: PauseOutcome)
    requires
        active_slot < 255,
    ensures
        ({
            let c1: int = match action.set_cursor {
                Some(i) => if i < 3 { i as int } else { old(state).cursor as int },
                None => old(state).cursor as int,
            };
            let c2: int = if action.move_down && c1 < 2 { c1 + 1 } else { c1 };
            let c3: int = if action.move_up && c2 > 0 { c2 - 1 } else { c2 };
            &&& final(state).cursor == c3
            &&& o.save_slot == (if action.activate && c3 == 1 { Some(active_slot) } else { None::<u8> })
            &&& o.next_state == (if action.cancel {
                    Some(GameState::Playing)
                } else if action.activate && c3 == 0 {
                    Some(GameState::Playing)
                } else if action.activate && c3 == 2 {
                    Some(GameState::MainMenu)
                } else {
                    None::<GameState>
                })
            &&& final(state).status_message@ == (if action.activate && c3 == 1 {
                    "Saving Slot "@ + decimal((active_slot + 1) as nat) + "..."@
                } else {
                    old(state).status_message@
                })
        }),
{
    if let Some(idx) = action.set_cursor {
        if idx < PAUSE_OPTION_COUNT {
            state.cursor = idx;
        }
    }
    if action.move_down {
        if state.cursor < PAUSE_OPTION_COUNT - 1 {
            state.cursor += 1;
        }
    }
    if action.move_up {
        if state.cursor > 0 {
            state.cursor -= 1;
        }
    }
    let mut outcome = PauseOutcome { next_state: None, save_slot: None };
    if action.activate {
        if state.cursor == 0 {
            outcome.next_state = Some(GameState::Playing);
        } else if state.cursor == 1 {
            let mut msg = string_of("Saving Slot ");
            push_decimal(&mut msg, (active_slot + 1) as u64);
            push_str(&mut msg, "...");
            state.status_message = msg;
            outcome.save_slot = Some(active_slot);
        } else if state.cursor == 2 {
            outcome.next_state = Some(GameState::MainMenu);
        }
    }
    if action.cancel {
        outcome.next_state = Some(GameState::Playing);
    }
    outcome
}

/// The pause menu's status line after a save finishes.
pub fn save_complete_message(slot: u8, success: bool, error_message: Option<String>) -> (r: String)
    requires
        slot < 255,
    ensures
        r@ == (if success {
            "Saved to Slot "@ + decimal((slot + 1) as nat) + "."@
        } else {
            match error_message {
                Some(e) => e@,
                None => "Save failed."@,
            }
        }),
{
    if success {
        let mut msg = string_of("Saved to Slot ");
        push_decimal(&mut msg, (slot + 1) as u64);
        push_str(&mut msg, ".");
        msg
    } else {
        match error_message {
            Some(e) => e,
            None => string_of("Save failed."),
        }
    }
}

// ── Settings ──────────────────────────────────────────────────────────

/// Music volume, 0-100 in steps of ten.
#[derive(Debug, Clone, Copy)]
pub struct AudioVolume {
    pub level: u8,
}

impl Default for AudioVolume {
    fn default() -> (v: Self)
        ensures
            v.level == 80,
    {
        AudioVolume { level: 80 }
    }
}

/// The volume after the right (louder) and left (softer) arrows of one
/// frame: up by ten to at most 100, then down by ten to at least 0.
pub fn adjust_volume(level: u8, louder: bool, softer: bool) -> (r: u8)
    ensures
        ({
            let l1: int = if louder && level < 100 { if level + 10 <= 100 { level + 10 } else { 100 } } else { level as int };
            r == if softer && l1 > 0 { if l1 >= 10 { l1 - 10 } else { 0 } } else { l1 }
        }),
{
    let mut l = level;
    if louder && l < 100 {
        l = if l + 10 <= 100 { l + 10 } else { 100 };
    }
    if softer && l > 0 {
        l = l.saturating_sub(10);
    }
    l
}

/// The volume gauge: one bar per ten percent, dashes for the rest, then
/// the percentage, as in "[||||||||--] 80%".
pub open spec fn volume_bar(level: nat) -> Seq<char> {
    let filled: nat = level / 10;
    let empty: nat = if filled <= 10 { (10 - filled) as nat } else { 0 };
    "["@ + Seq::new(filled, |i: int| '|') + Seq::new(empty, |i: int| '-') + "] "@ + decimal(level) + "%"@
}

pub fn build_volume_bar(level: u8) -> (s: String)
    ensures
        s@ == volume_bar(level as nat),
{
    let filled: u8 = level / 10;
    let empty: u8 = if filled <= 10 { 10 - filled } else { 0 };
    let mut s = string_of("[");
    let ghost start = s@;
    let mut i: u8 = 0;
    while i < filled
        invariant
            i <= filled,
            s@ == start + Seq::new(i as nat, |j: int| '|'),
        decreases filled - i,
    {
        push_str(&mut s, "|");
        i += 1;
        proof {
            reveal_strlit("|");
            assert(s@ =~= start + Seq::new(i as nat, |j: int| '|'));
        }
    }
    let ghost mid = s@;
    let mut k: u8 = 0;
    while k < empty
        invariant
            k <= empty,
            s@ == mid + Seq::new(k as nat, |j: int| '-'),
        decreases empty - k,
    {
        push_str(&mut s, "-");
        k += 1;
        proof {
            reveal_strlit("-");
            assert(s@ =~= mid + Seq::new(k as nat, |j: int| '-'));
        }
    }
    push_str(&mut s, "] ");
    push_decimal(&mut s, level as u64);
    push_str(&mut s, "%");
    proof {
        assert(s@ =~= volume_bar(level as nat));
    }
    s
}

/// A detail list's cursor after the arrows: up while above the first row,
/// then down while below the last. Returns whether it moved.
pub fn step_list_cursor(cursor: &mut usize, count: usize, up: bool, down: bool) -> (moved: bool)
    requires
        *old(cursor) < count,
    ensures
        ({
            let c1: int = if up && *old(cursor) > 0 { *old(cursor) - 1 } else { *old(cursor) as int };
            let c2: int = if down && c1 + 1 < count { c1 + 1 } else { c1 };
            &&& *final(cursor) == c2
            &&& moved == ((up && *old(cursor) > 0) || (down && c1 + 1 < count))
        }),
        *final(cursor) < count,
{
    let mut moved = false;
    if up && *cursor > 0 {
        *cursor = *cursor - 1;
        moved = true;
    }
    if down && *cursor + 1 < count {
        *cursor = *cursor + 1;
        moved = true;
    }
    moved
}

/// What an overlay screen's lifecycle does this frame.
#[derive(Debug, Clone, Copy, PartialEq, Eq, Structural)]
pub enum OverlayAction {
    Spawn,
    Despawn,
    Keep,
}

/// An overlay (planner, settings, chest screen) is built when it should
/// show and is not there, and torn down when it should not show and is.
pub fn overlay_lifecycle(visible: bool, ui_exists: bool) -> (r: OverlayAction)
    ensures
        r == if visible && !ui_exists { OverlayAction::Spawn }
            else if !visible && ui_exists { OverlayAction::Despawn }
            else { OverlayAction::Keep },
{
    if visible && !ui_exists {
        OverlayAction::Spawn
    } else if !visible && ui_exists {
        OverlayAction::Despawn
    } else {
        OverlayAction::Keep
    }
}

/// Escape or the gamepad's back button leaves the fish encyclopedia for
/// the main menu.
pub fn fish_encyclopedia_navigation(escape_pressed: bool, gamepad_back_pressed: bool) -> (r: Option<GameState>)
    ensures
        r == if escape_pressed || gamepad_back_pressed { Some(GameState::MainMenu) } else { None::<GameState> },
{
    if escape_pressed || gamepad_back_pressed { Some(GameState::MainMenu) } else { None }
}

} // verus!
