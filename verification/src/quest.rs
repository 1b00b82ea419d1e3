use vstd::prelude::*;
use crate::menu::{MenuAction, step_list_cursor};
use crate::text::{decimal, push_decimal, push_str, string_of};

verus! {

/// What a quest asks of the player, with the progress made.
#[derive(Debug, Clone)]
pub enum QuestObjective {
    Deliver { item_id: String, quantity: u8, delivered: u8 },
    Catch { fish_id: String, delivered: bool },
    Harvest { crop_id: String, quantity: u8, harvested: u8 },
    Mine { item_id: String, quantity: u8, collected: u8 },
    Talk { npc_name: String, talked: bool },
    Slay { monster_kind: String, quantity: u8, slain: u8 },
}

/// A quest from the bulletin board.
#[derive(Debug)]
pub struct Quest {
    pub id: String,
    pub title: String,
    pub description: String,
    pub giver: String,
    pub objective: QuestObjective,
    pub reward_gold: u32,
    pub reward_items: Vec<(String, u8)>,
    pub reward_friendship: i16,
    pub days_remaining: Option<u8>,
    pub accepted_day: (u8, u8, u16),
}

/// Active quests and the ids of completed ones.
#[derive(Debug)]
pub struct QuestLog {
    pub active: Vec<Quest>,
    pub completed: Vec<String>,
}

/// "verb: done/needed what".
pub open spec fn progress_text(verb: Seq<char>, done: nat, needed: nat, what: Seq<char>) -> Seq<char> {
    verb + ": "@ + decimal(done) + "/"@ + decimal(needed) + " "@ + what
}

/// The journal line of an objective: progress as done/needed, and a check
/// mark on finished catch and talk objectives.
pub open spec fn objective_text(o: QuestObjective) -> Seq<char> {
    match o {
        QuestObjective::Deliver { item_id, quantity, delivered } => progress_text("Deliver"@, delivered as nat, quantity as nat, item_id@),
        QuestObjective::Catch { fish_id, delivered } =>
            if delivered { "Catch: "@ + fish_id@ + " ✓"@ } else { "Catch: "@ + fish_id@ },
        QuestObjective::Harvest { crop_id, quantity, harvested } => progress_text("Harvest"@, harvested as nat, quantity as nat, crop_id@),
        QuestObjective::Mine { item_id, quantity, collected } => progress_text("Mine"@, collected as nat, quantity as nat, item_id@),
        QuestObjective::Talk { npc_name, talked } =>
            if talked { "Talk to "@ + npc_name@ + " ✓"@ } else { "Talk to "@ + npc_name@ },
        QuestObjective::Slay { monster_kind, quantity, slain } => progress_text("Slay"@, slain as nat, quantity as nat, monster_kind@),
    }
}

fn progress(verb: &str, done: u8, needed: u8, what: &str) -> (s: String)
    ensures
        s@ == progress_text(verb@, done as nat, needed as nat, what@),
{
    let mut s = string_of(verb);
    push_str(&mut s, ": ");
    push_decimal(&mut s, done as u64);
    push_str(&mut s, "/");
    push_decimal(&mut s, needed as u64);
    push_str(&mut s, " ");
    push_str(&mut s, what);
    s
}

pub fn format_objective(objective: &QuestObjective) -> (s: String)
    ensures
        s@ == objective_text(*objective),
{
    match objective {
        QuestObjective::Deliver { item_id, quantity, delivered } => progress("Deliver", *delivered, *quantity, item_id.as_str()),
        QuestObjective::Catch { fish_id, delivered } => {
            let mut s = string_of("Catch: ");
            push_str(&mut s, fish_id.as_str());
            if *delivered {
                push_str(&mut s, " ✓");
            }
            s
        }
        QuestObjective::Harvest { crop_id, quantity, harvested } => progress("Harvest", *harvested, *quantity, crop_id.as_str()),
        QuestObjective::Mine { item_id, quantity, collected } => progress("Mine", *collected, *quantity, item_id.as_str()),
        QuestObjective::Talk { npc_name, talked } => {
            let mut s = string_of("Talk to ");
            push_str(&mut s, npc_name.as_str());
            if *talked {
                push_str(&mut s, " ✓");
            }
            s
        }
        QuestObjective::Slay { monster_kind, quantity, slain } => progress("Slay", *slain, *quantity, monster_kind.as_str()),
    }
}

/// The quest journal's selection.
#[derive(Debug, Clone, Copy)]
pub struct JournalUiState {
    pub cursor: usize,
}

/// One frame of journal navigation over the active quests; returns whether
/// the selection moved (and the details need redrawing).
pub fn journal_navigation(state: &mut JournalUiState, action: &MenuAction, quest_log: &QuestLog) -> (moved: bool)
    requires
        quest_log.active.len() == 0 || old(state).cursor < quest_log.active.len(),
    ensures
        quest_log.active.len() == 0 ==> !moved && final(state).cursor == old(state).cursor,
        quest_log.active.len() > 0 ==> ({
            let c = old(state).cursor as int;
            let n = quest_log.active.len() as int;
            let c1: int = if action.move_up && c > 0 { c - 1 } else { c };
            let c2: int = if action.move_down && c1 + 1 < n { c1 + 1 } else { c1 };
            &&& final(state).cursor == c2
            &&& moved == ((action.move_up && c > 0) || (action.move_down && c1 + 1 < n))
        }),
{
    let count = quest_log.active.len();
    if count == 0 {
        return false;
    }
    step_list_cursor(&mut state.cursor, count, action.move_up, action.move_down)
}

/// The detail panel's lines for a quest: its description, its reward, and
/// the days left when it has a deadline; a hint when none is selected.
pub open spec fn quest_detail(q: Option<Quest>) -> Seq<Seq<char>> {
    match q {
        None => seq!["Select a quest to see details."@],
        Some(quest) => {
            let base = seq![quest.description@, "Reward: "@ + decimal(quest.reward_gold as nat) + "g"@];
            match quest.days_remaining {
                Some(d) => base.push("Days remaining: "@ + decimal(d as nat)),
                None => base,
            }
        },
    }
}

pub open spec fn strings_view(v: Seq<String>) -> Seq<Seq<char>> {
    v.map_values(|s: String| s@)
}

pub fn quest_detail_lines(quest: Option<&Quest>) -> (r: Vec<String>)
    ensures
        strings_view(r@) == quest_detail(match quest { Some(q) => Some(*q), None => None }),
{
    let mut r: Vec<String> = Vec::new();
    match quest {
        None => {
            r.push(string_of("Select a quest to see details."));
        },
        Some(q) => {
            r.push(q.description.clone());
            let mut reward = string_of("Reward: ");
            push_decimal(&mut reward, q.reward_gold as u64);
            push_str(&mut reward, "g");
            r.push(reward);
            match q.days_remaining {
                Some(d) => {
                    let mut days = string_of("Days remaining: ");
                    push_decimal(&mut days, d as u64);
                    r.push(days);
                },
                None => {},
            }
        },
    }
    proof {
        assert(strings_view(r@) =~= quest_detail(match quest { Some(q) => Some(*q), None => None }));
    }
    r
}

/// One row of the journal's quest list: the title, "From: <giver>" and the
/// objective's progress.
pub open spec fn quest_row(q: Quest) -> (Seq<char>, Seq<char>, Seq<char>) {
    (q.title@, "From: "@ + q.giver@, objective_text(q.objective))
}

/// The journal's quest list, one row per active quest in order; `None`
/// when there is none and the list says "No active quests.".
pub fn quest_list_rows(quest_log: &QuestLog) -> (rows: Option<Vec<(String, String, String)>>)
    ensures
        quest_log.active.len() == 0 <==> rows is None,
        rows matches Some(v) ==> {
            &&& v.len() == quest_log.active.len()
            &&& forall|i: int| 0 <= i < v.len() ==> {
                let r = #[trigger] v@[i];
                let e = quest_row(quest_log.active@[i]);
                r.0@ == e.0 && r.1@ == e.1 && r.2@ == e.2
            }
        },
{
    if quest_log.active.len() == 0 {
        return None;
    }
    let mut v: Vec<(String, String, String)> = Vec::new();
    let mut i: usize = 0;
    while i < quest_log.active.len()
        invariant
            i <= quest_log.active.len(),
            v.len() == i,
            forall|k: int| 0 <= k < i ==> {
                let r = #[trigger] v@[k];
                let e = quest_row(quest_log.active@[k]);
                r.0@ == e.0 && r.1@ == e.1 && r.2@ == e.2
            },
        decreases quest_log.active.len() - i,
    {
        let q = &quest_log.active[i];
        let mut from = string_of("From: ");
        push_str(&mut from, q.giver.as_str());
        v.push((string_of(q.title.as_str()), from, format_objective(&q.objective)));
        i = i + 1;
    }
    Some(v)
}

} // verus!
