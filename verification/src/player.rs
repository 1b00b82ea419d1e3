use vstd::prelude::*;
use crate::tools::{ToolKind, ToolTier};
use crate::world::MapId;

verus! {

/// The tier of each tool the player owns. Each tool is listed at most once.
#[derive(Debug)]
pub struct ToolTiers {
    entries: Vec<(ToolKind, ToolTier)>,
}

impl Clone for ToolTiers {
    fn clone(&self) -> (c: Self)
        ensures
            c.view() == self.view(),
    {
        proof {
            use_type_invariant(self);
        }
        let mut entries: Vec<(ToolKind, ToolTier)> = Vec::new();
        let mut i: usize = 0;
        while i < self.entries.len()
            invariant
                i <= self.entries.len(),
                entries@ == self.entries@.take(i as int),
            decreases self.entries.len() - i,
        {
            entries.push(self.entries[i]);
            proof {
                assert(entries@ =~= self.entries@.take(i as int + 1));
            }
            i = i + 1;
        }
        proof {
            assert(entries@ =~= self.entries@);
        }
        ToolTiers { entries }
    }
}

pub open spec fn entries_map(s: Seq<(ToolKind, ToolTier)>) -> Map<ToolKind, ToolTier>
    decreases s.len(),
{
    if s.len() == 0 {
        Map::empty()
    } else {
        entries_map(s.drop_last()).insert(s.last().0, s.last().1)
    }
}

pub open spec fn keys_unique(s: Seq<(ToolKind, ToolTier)>) -> bool {
    forall|i: int, j: int| 0 <= i < s.len() && 0 <= j < s.len() && i != j ==> s[i].0 != s[j].0
}

proof fn lemma_entries_map_lookup(s: Seq<(ToolKind, ToolTier)>, i: int)
    requires
        keys_unique(s),
        0 <= i < s.len(),
    ensures
        entries_map(s).contains_key(s[i].0),
        entries_map(s)[s[i].0] == s[i].1,
    decreases s.len(),
{
    if i < s.len() - 1 {
        lemma_entries_map_lookup(s.drop_last(), i);
    }
}

proof fn lemma_entries_map_absent(s: Seq<(ToolKind, ToolTier)>, k: ToolKind)
    requires
        forall|i: int| 0 <= i < s.len() ==> s[i].0 != k,
    ensures
        !entries_map(s).contains_key(k),
    decreases s.len(),
{
    if s.len() > 0 {
        lemma_entries_map_absent(s.drop_last(), k);
    }
}

proof fn lemma_entries_map_update(s: Seq<(ToolKind, ToolTier)>, i: int, t: ToolTier)
    requires
        keys_unique(s),
        0 <= i < s.len(),
    ensures
        entries_map(s.update(i, (s[i].0, t))) == entries_map(s).insert(s[i].0, t),
    decreases s.len(),
{
    let u = s.update(i, (s[i].0, t));
    if i == s.len() - 1 {
        assert(u.drop_last() =~= s.drop_last());
        assert(!entries_map(s.drop_last()).contains_key(s[i].0)) by {
            lemma_entries_map_absent(s.drop_last(), s[i].0);
        }
        assert(entries_map(u) =~= entries_map(s).insert(s[i].0, t));
    } else {
        assert(u.drop_last() =~= s.drop_last().update(i, (s[i].0, t)));
        lemma_entries_map_update(s.drop_last(), i, t);
        assert(entries_map(u) =~= entries_map(s).insert(s[i].0, t));
    }
}

impl ToolTiers {
    /// The tiers, by tool.
    pub closed spec fn view(&self) -> Map<ToolKind, ToolTier> {
        entries_map(self.entries@)
    }

    /// Each tool is listed at most once.
    #[verifier::type_invariant]
    spec fn inv(self) -> bool {
        keys_unique(self.entries@)
    }

    /// No tools.
    pub fn new() -> (t: Self)
        ensures
            t.view() == Map::<ToolKind, ToolTier>::empty(),
    {
        ToolTiers { entries: Vec::new() }
    }

    /// The tier of a tool, if the player has it.
    pub fn get(&self, tool: ToolKind) -> (r: Option<ToolTier>)
        ensures
            match r {
                Some(t) => self.view().contains_key(tool) && self.view()[tool] == t,
                None => !self.view().contains_key(tool),
            },
    {
        proof {
            use_type_invariant(self);
        }
        let mut i: usize = 0;
        while i < self.entries.len()
            invariant
                i <= self.entries.len(),
                keys_unique(self.entries@),
                forall|j: int| 0 <= j < i ==> self.entries@[j].0 != tool,
            decreases self.entries.len() - i,
        {
            if self.entries[i].0 == tool {
                proof {
                    lemma_entries_map_lookup(self.entries@, i as int);
                }
                return Some(self.entries[i].1);
            }
            i = i + 1;
        }
        proof {
            lemma_entries_map_absent(self.entries@, tool);
        }
        None
    }

    /// The tier of a tool, Basic for a tool the player does not have.
    pub fn tier_of(&self, tool: ToolKind) -> (r: ToolTier)
        ensures
            r == tier_or_basic(self.view(), tool),
    {
        match self.get(tool) {
            Some(t) => t,
            None => ToolTier::Basic,
        }
    }

    /// Sets the tier of a tool.
    pub fn insert(&mut self, tool: ToolKind, tier: ToolTier)
        ensures
            final(self).view() == old(self).view().insert(tool, tier),
    {
        proof {
            use_type_invariant(&*self);
        }
        let mut entries: Vec<(ToolKind, ToolTier)> = Vec::new();
        std::mem::swap(&mut entries, &mut self.entries);
        let ghost start = entries@;
        let mut i: usize = 0;
        let mut found = false;
        while i < entries.len() && !found
            invariant
                i <= entries.len(),
                entries@ == start,
                keys_unique(start),
                forall|j: int| 0 <= j < i ==> start[j].0 != tool,
                found ==> i < entries.len() && start[i as int].0 == tool,
            decreases entries.len() - i + (if found { 0int } else { 1int }),
        {
            if entries[i].0 == tool {
                found = true;
            } else {
                i = i + 1;
            }
        }
        if found {
            proof {
                lemma_entries_map_update(start, i as int, tier);
            }
            entries.set(i, (tool, tier));
            proof {
                assert(entries@ == start.update(i as int, (start[i as int].0, tier)));
                assert(keys_unique(entries@)) by {
                    assert forall|a: int, b: int| 0 <= a < entries@.len() && 0 <= b < entries@.len() && a != b
                        implies entries@[a].0 != entries@[b].0 by {
                        assert(entries@[a].0 == start[a].0 && entries@[b].0 == start[b].0);
                    }
                }
            }
        } else {
            entries.push((tool, tier));
            proof {
                assert(entries@.drop_last() =~= start);
                assert(keys_unique(entries@)) by {
                    assert forall|a: int, b: int| 0 <= a < entries@.len() && 0 <= b < entries@.len() && a != b
                        implies entries@[a].0 != entries@[b].0 by {
                        if a < start.len() && b < start.len() {
                            assert(start[a] == entries@[a]);
                            assert(start[b] == entries@[b]);
                        } else if a == start.len() {
                            assert(start[b] == entries@[b]);
                        } else {
                            assert(start[a] == entries@[a]);
                        }
                    }
                }
            }
        }
        self.entries = entries;
    }
}

/// A tool's tier, Basic where none is recorded.
pub open spec fn tier_or_basic(m: Map<ToolKind, ToolTier>, tool: ToolKind) -> ToolTier {
    if m.contains_key(tool) { m[tool] } else { ToolTier::Basic }
}

/// The player's state that the game rules read. (Stamina and health are
/// fractional and are kept by the application.)
#[derive(Debug, Clone)]
pub struct PlayerState {
    pub equipped_tool: ToolKind,
    pub tools: ToolTiers,
    pub gold: u32,
    pub current_map: MapId,
}

/// The six tools, in the order of the hotbar.
pub open spec fn all_tools() -> Seq<ToolKind> {
    seq![ToolKind::Hoe, ToolKind::WateringCan, ToolKind::Axe, ToolKind::Pickaxe, ToolKind::FishingRod, ToolKind::Scythe]
}

impl Default for PlayerState {
    /// A new player: every tool at Basic, the hoe equipped, 500 gold, on the farm.
    fn default() -> (p: Self)
        ensures
            forall|k: ToolKind| #[trigger] p.tools.view().contains_key(k) && p.tools.view()[k] == ToolTier::Basic,
            p.equipped_tool == ToolKind::Hoe,
            p.gold == 500,
            p.current_map == MapId::Farm,
    {
        let mut tools = ToolTiers::new();
        tools.insert(ToolKind::Hoe, ToolTier::Basic);
        tools.insert(ToolKind::WateringCan, ToolTier::Basic);
        tools.insert(ToolKind::Axe, ToolTier::Basic);
        tools.insert(ToolKind::Pickaxe, ToolTier::Basic);
        tools.insert(ToolKind::FishingRod, ToolTier::Basic);
        tools.insert(ToolKind::Scythe, ToolTier::Basic);
        proof {
            assert forall|k: ToolKind| #[trigger] tools.view().contains_key(k) && tools.view()[k] == ToolTier::Basic by {
                match k {
                    ToolKind::Hoe => {},
                    ToolKind::WateringCan => {},
                    ToolKind::Axe => {},
                    ToolKind::Pickaxe => {},
                    ToolKind::FishingRod => {},
                    ToolKind::Scythe => {},
                }
            }
        }
        PlayerState { equipped_tool: ToolKind::Hoe, tools, gold: 500, current_map: MapId::Farm }
    }
}

} // verus!
