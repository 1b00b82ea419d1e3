use vstd::prelude::*;
use crate::farm::{BuildingKind, BuildingLevels, BuildingTier, HouseState, building_label, current_tier, tier_after, tier_label, tier_of};
use crate::menu::MenuAction;
use crate::text::{decimal, push_decimal, push_str, string_of};

verus! {

/// The price of upgrading a building to a tier: gold and materials.
#[derive(Debug, Clone)]
pub struct UpgradeCost {
    pub building: BuildingKind,
    pub to_tier: BuildingTier,
    pub gold: u32,
    pub materials: Vec<(String, u8)>,
}

/// Materials as plain values.
pub open spec fn mats_view(m: Seq<(String, u8)>) -> Seq<(Seq<char>, u8)> {
    m.map_values(|x: (String, u8)| (x.0@, x.1))
}

/// The price listed for an upgrade: the first matching row of the table,
/// else nothing (no gold, no materials).
pub open spec fn cost_of(costs: Seq<UpgradeCost>, kind: BuildingKind, to: BuildingTier) -> (u32, Seq<(Seq<char>, u8)>)
    decreases costs.len(),
{
    if costs.len() == 0 {
        (0, Seq::empty())
    } else if costs[0].building == kind && costs[0].to_tier == to {
        (costs[0].gold, mats_view(costs[0].materials@))
    } else {
        cost_of(costs.drop_first(), kind, to)
    }
}

/// "<gold>g", then " + <qty> <material>" for each material.
pub open spec fn cost_text(gold: nat, mats: Seq<(Seq<char>, u8)>) -> Seq<char>
    decreases mats.len(),
{
    if mats.len() == 0 {
        decimal(gold) + "g"@
    } else {
        cost_text(gold, mats.drop_last()) + " + "@ + decimal(mats.last().1 as nat) + " "@ + mats.last().0
    }
}

pub fn format_cost(gold: u32, materials: &Vec<(String, u8)>) -> (s: String)
    ensures
        s@ == cost_text(gold as nat, mats_view(materials@)),
{
    let mut s = String::new();
    push_decimal(&mut s, gold as u64);
    push_str(&mut s, "g");
    proof {
        assert(s@ == cost_text(gold as nat, mats_view(materials@.take(0))));
    }
    let mut i: usize = 0;
    while i < materials.len()
        invariant
            i <= materials.len(),
            s@ == cost_text(gold as nat, mats_view(materials@.take(i as int))),
        decreases materials.len() - i,
    {
        proof {
            let t = mats_view(materials@.take(i as int + 1));
            assert(t.drop_last() =~= mats_view(materials@.take(i as int)));
            assert(t.last() == (materials@[i as int].0@, materials@[i as int].1));
        }
        push_str(&mut s, " + ");
        push_decimal(&mut s, materials[i].1 as u64);
        push_str(&mut s, " ");
        push_str(&mut s, materials[i].0.as_str());
        i = i + 1;
    }
    proof {
        assert(materials@.take(materials.len() as int) =~= materials@);
    }
    s
}

/// One row of the building upgrade menu.
#[derive(Debug, Clone)]
pub struct UpgradeEntry {
    pub building: BuildingKind,
    pub label: &'static str,
    pub from_tier: BuildingTier,
    pub to_tier: Option<BuildingTier>,
    pub cost_gold: u32,
    pub cost_materials: Vec<(String, u8)>,
    /// False at the top tier, or while an upgrade is under way.
    pub available: bool,
    pub status_line: String,
}

/// The order of the menu's rows.
pub open spec fn menu_building(i: int) -> BuildingKind {
    if i == 0 { BuildingKind::Coop }
    else if i == 1 { BuildingKind::Barn }
    else if i == 2 { BuildingKind::House }
    else { BuildingKind::Silo }
}

/// What a row shows: (gold, materials, available, status line).
pub open spec fn entry_terms(kind: BuildingKind, levels: BuildingLevels, house: HouseState, costs: Seq<UpgradeCost>)
    -> (u32, Seq<(Seq<char>, u8)>, bool, Seq<char>)
{
    match tier_after(tier_of(kind, levels, house)) {
        None => (0, Seq::empty(), false, "MAX"@),
        Some(to) => {
            let (gold, mats) = cost_of(costs, kind, to);
            if gold == 0 && mats.len() == 0 {
                (0, Seq::empty(), false, "MAX"@)
            } else {
                match levels.upgrade_in_progress {
                    Some((b, _, days)) => if b == kind {
                        (gold, mats, false, "BUILDING ("@ + decimal(days as nat) + " days left)"@)
                    } else {
                        (gold, mats, false, "Another upgrade in progress"@)
                    },
                    None => (gold, mats, true, cost_text(gold as nat, mats)),
                }
            }
        },
    }
}

pub open spec fn entry_ok(e: UpgradeEntry, kind: BuildingKind, levels: BuildingLevels, house: HouseState, costs: Seq<UpgradeCost>) -> bool {
    let (gold, mats, available, status) = entry_terms(kind, levels, house, costs);
    &&& e.building == kind
    &&& e.label == building_label_spec(kind)
    &&& e.from_tier == tier_of(kind, levels, house)
    &&& e.to_tier == tier_after(tier_of(kind, levels, house))
    &&& e.cost_gold == gold
    &&& mats_view(e.cost_materials@) == mats
    &&& e.available == available
    &&& e.status_line@ == status
}

pub open spec fn building_label_spec(kind: BuildingKind) -> &'static str {
    match kind {
        BuildingKind::House => "House",
        BuildingKind::Coop => "Coop",
        BuildingKind::Barn => "Barn",
        BuildingKind::Silo => "Silo",
    }
}

fn find_cost<'a>(costs: &'a Vec<UpgradeCost>, kind: BuildingKind, to: BuildingTier) -> (r: Option<&'a UpgradeCost>)
    ensures
        match r {
            Some(c) => cost_of(costs@, kind, to) == (c.gold, mats_view(c.materials@)),
            None => cost_of(costs@, kind, to) == (0u32, Seq::<(Seq<char>, u8)>::empty()),
        },
{
    let mut i: usize = 0;
    proof {
        assert(costs@.skip(0) =~= costs@);
    }
    while i < costs.len()
        invariant
            i <= costs.len(),
            cost_of(costs@, kind, to) == cost_of(costs@.skip(i as int), kind, to),
        decreases costs.len() - i,
    {
        proof {
            assert(costs@.skip(i as int)[0] == costs@[i as int]);
            assert(costs@.skip(i as int).drop_first() =~= costs@.skip(i as int + 1));
        }
        if costs[i].building == kind && costs[i].to_tier == to {
            return Some(&costs[i]);
        }
        i = i + 1;
    }
    None
}

fn clone_materials(m: &Vec<(String, u8)>) -> (r: Vec<(String, u8)>)
    ensures
        mats_view(r@) == mats_view(m@),
{
    let mut r: Vec<(String, u8)> = Vec::new();
    let mut i: usize = 0;
    while i < m.len()
        invariant
            i <= m.len(),
            mats_view(r@) == mats_view(m@.take(i as int)),
        decreases m.len() - i,
    {
        proof {
            assert(mats_view(m@.take(i as int + 1)) =~= mats_view(m@.take(i as int)).push((m@[i as int].0@, m@[i as int].1)));
        }
        let name = m[i].0.clone();
        r.push((name, m[i].1));
        proof {
            assert(mats_view(r@) =~= mats_view(m@.take(i as int + 1)));
        }
        i = i + 1;
    }
    proof {
        assert(m@.take(m.len() as int) =~= m@);
    }
    r
}

fn entry_for(kind: BuildingKind, building_levels: &BuildingLevels, house_state: &HouseState, costs: &Vec<UpgradeCost>) -> (e: UpgradeEntry)
    ensures
        entry_ok(e, kind, *building_levels, *house_state, costs@),
{
    let from = current_tier(kind, building_levels, house_state);
    let next = from.next();
    let label = building_label(kind);
    let mut e = UpgradeEntry {
        building: kind,
        label,
        from_tier: from,
        to_tier: next,
        cost_gold: 0,
        cost_materials: Vec::new(),
        available: false,
        status_line: string_of("MAX"),
    };
    proof {
        assert(mats_view(e.cost_materials@) =~= Seq::<(Seq<char>, u8)>::empty());
    }
    match next {
        None => {},
        Some(to) => {
            match find_cost(costs, kind, to) {
                None => {},
                Some(c) => {
                    if c.gold == 0 && c.materials.len() == 0 {
                    } else {
                        e.cost_gold = c.gold;
                        e.cost_materials = clone_materials(&c.materials);
                        match building_levels.upgrade_in_progress {
                            Some((b, _, days)) => {
                                if b == kind {
                                    let mut s = string_of("BUILDING (");
                                    push_decimal(&mut s, days as u64);
                                    push_str(&mut s, " days left)");
                                    e.status_line = s;
                                } else {
                                    e.status_line = string_of("Another upgrade in progress");
                                }
                            },
                            None => {
                                e.available = true;
                                e.status_line = format_cost(c.gold, &c.materials);
                            },
                        }
                    }
                },
            }
        },
    }
    e
}

/// The rows of the upgrade menu: coop, barn, house and silo, each with its
/// current tier, the next one, its price and whether it can be ordered now.
pub fn build_entries(building_levels: &BuildingLevels, house_state: &HouseState, costs: &Vec<UpgradeCost>) -> (r: Vec<UpgradeEntry>)
    ensures
        r.len() == 4,
        forall|i: int| 0 <= i < 4 ==> entry_ok(#[trigger] r[i], menu_building(i), *building_levels, *house_state, costs@),
{
    let mut r: Vec<UpgradeEntry> = Vec::new();
    r.push(entry_for(BuildingKind::Coop, building_levels, house_state, costs));
    r.push(entry_for(BuildingKind::Barn, building_levels, house_state, costs));
    r.push(entry_for(BuildingKind::House, building_levels, house_state, costs));
    r.push(entry_for(BuildingKind::Silo, building_levels, house_state, costs));
    r
}

/// The upgrade menu: cursor, rows and status line. (The status line's
/// display timer is kept by the application.)
#[derive(Debug)]
pub struct BuildingUpgradeMenuState {
    pub cursor: usize,
    pub entries: Vec<UpgradeEntry>,
    pub status_message: String,
}

/// An upgrade order sent to the building rules.
#[derive(Debug, Clone)]
pub struct BuildingUpgradeEvent {
    pub building: BuildingKind,
    pub from_tier: BuildingTier,
    pub to_tier: BuildingTier,
    pub cost_gold: u32,
    pub cost_materials: Vec<(String, u8)>,
}

/// What a frame of upgrade menu input leads to.
#[derive(Debug)]
pub enum UpgradeMenuOutcome {
    /// Stay in the menu.
    Stay,
    /// Stay, and show the status line for this many milliseconds.
    ShowStatus(u32),
    /// Close the menu and return to play.
    Close,
    /// Order this upgrade, show the status line for this many
    /// milliseconds, and return to play.
    Order(BuildingUpgradeEvent, u32),
}

pub open spec fn moved(cursor: int, max: int, a: MenuAction) -> int {
    let c1 = if a.move_down && cursor < max - 1 { cursor + 1 } else { cursor };
    if a.move_up && c1 > 0 { c1 - 1 } else { c1 }
}

/// One frame of the building upgrade menu. With no rows nothing happens;
/// cancel returns to play; the arrows move the cursor; confirming on a row
/// that is not available, or without the gold, explains why; otherwise the
/// upgrade is ordered.
pub fn building_upgrade_navigation(state: &mut BuildingUpgradeMenuState, action: &MenuAction, gold: u32) -> (r: UpgradeMenuOutcome)
    requires
        old(state).cursor < old(state).entries.len() || old(state).entries.len() == 0,
        forall|i: int| 0 <= i < old(state).entries.len() && (#[trigger] old(state).entries@[i]).available
            ==> old(state).entries@[i].to_tier is Some,
    ensures
        final(state).entries@ == old(state).entries@,
        old(state).entries.len() == 0 ==> r is Stay && final(state).cursor == old(state).cursor
            && final(state).status_message@ == old(state).status_message@,
        old(state).entries.len() > 0 && action.cancel ==> r is Close && final(state).cursor == old(state).cursor
            && final(state).status_message@ == old(state).status_message@,
        old(state).entries.len() > 0 && !action.cancel ==> ({
            let c = moved(old(state).cursor as int, old(state).entries.len() as int, *action);
            let e = old(state).entries@[c];
            &&& final(state).cursor == c
            &&& !action.activate ==> r is Stay && final(state).status_message@ == old(state).status_message@
            &&& action.activate && !e.available ==> r == UpgradeMenuOutcome::ShowStatus(2000)
                && final(state).status_message@ == (if e.to_tier is None { "Already at max tier!"@ } else { "Upgrade not available right now."@ })
            &&& action.activate && e.available && gold < e.cost_gold ==> r == UpgradeMenuOutcome::ShowStatus(2500)
                && final(state).status_message@ == "Not enough gold! Need "@ + decimal(e.cost_gold as nat) + "g, have "@ + decimal(gold as nat) + "g."@
            &&& action.activate && e.available && gold >= e.cost_gold ==> (match r {
                UpgradeMenuOutcome::Order(ev, ms) => ms == 2000 && ev.building == e.building && ev.from_tier == e.from_tier
                    && Some(ev.to_tier) == e.to_tier && ev.cost_gold == e.cost_gold
                    && mats_view(ev.cost_materials@) == mats_view(e.cost_materials@)
                    && final(state).status_message@ == "Upgrade requested for "@ + e.label@ + "!"@,
                _ => false,
            })
        }),
{
    let max = state.entries.len();
    if max == 0 {
        return UpgradeMenuOutcome::Stay;
    }
    if action.cancel {
        return UpgradeMenuOutcome::Close;
    }
    if action.move_down && state.cursor < max - 1 {
        state.cursor = state.cursor + 1;
    }
    if action.move_up && state.cursor > 0 {
        state.cursor = state.cursor - 1;
    }
    if !action.activate {
        return UpgradeMenuOutcome::Stay;
    }
    let c = state.cursor;
    if !state.entries[c].available {
        if state.entries[c].to_tier.is_none() {
            state.status_message = string_of("Already at max tier!");
        } else {
            state.status_message = string_of("Upgrade not available right now.");
        }
        return UpgradeMenuOutcome::ShowStatus(2000);
    }
    let to_tier = match state.entries[c].to_tier {
        Some(t) => t,
        None => {
            proof {
                assert(state.entries@[c as int].available);
            }
            BuildingTier::Deluxe
        },
    };
    let cost_gold = state.entries[c].cost_gold;
    if gold < cost_gold {
        let mut msg = string_of("Not enough gold! Need ");
        push_decimal(&mut msg, cost_gold as u64);
        push_str(&mut msg, "g, have ");
        push_decimal(&mut msg, gold as u64);
        push_str(&mut msg, "g.");
        state.status_message = msg;
        return UpgradeMenuOutcome::ShowStatus(2500);
    }
    let ev = BuildingUpgradeEvent {
        building: state.entries[c].building,
        from_tier: state.entries[c].from_tier,
        to_tier,
        cost_gold,
        cost_materials: clone_materials(&state.entries[c].cost_materials),
    };
    let mut msg = string_of("Upgrade requested for ");
    push_str(&mut msg, state.entries[c].label);
    push_str(&mut msg, "!");
    state.status_message = msg;
    UpgradeMenuOutcome::Order(ev, 2000)
}

/// The name of a building tier as the menu shows it.
pub open spec fn tier_text(tier: BuildingTier) -> &'static str {
    match tier {
        BuildingTier::Unbuilt => "None",
        BuildingTier::Basic => "Basic",
        BuildingTier::Big => "Big",
        BuildingTier::Deluxe => "Deluxe",
    }
}

/// A row's title: "<label>: <from> -> <to>", or "<label>: <from> (MAX)" at
/// the top tier.
pub open spec fn entry_row(e: UpgradeEntry) -> Seq<char> {
    match e.to_tier {
        Some(to) => e.label@ + ": "@ + tier_text(e.from_tier)@ + " -> "@ + tier_text(to)@,
        None => e.label@ + ": "@ + tier_text(e.from_tier)@ + " (MAX)"@,
    }
}

pub fn entry_row_text(entry: &UpgradeEntry) -> (s: String)
    ensures
        s@ == entry_row(*entry),
{
    let mut s = string_of(entry.label);
    push_str(&mut s, ": ");
    push_str(&mut s, tier_label(entry.from_tier));
    match entry.to_tier {
        Some(to) => {
            push_str(&mut s, " -> ");
            push_str(&mut s, tier_label(to));
        },
        None => push_str(&mut s, " (MAX)"),
    }
    s
}

} // verus!
