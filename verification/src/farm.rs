use vstd::prelude::*;

verus! {

/// Item quality, which sets the sell price multiplier and display.
#[derive(Debug, Clone, Copy, PartialEq, Eq, Hash, Structural)]
pub enum ItemQuality {
    Normal,
    Silver,
    Gold,
    Iridium,
}

pub open spec fn quality_rank(q: ItemQuality) -> nat {
    match q {
        ItemQuality::Normal => 0,
        ItemQuality::Silver => 1,
        ItemQuality::Gold => 2,
        ItemQuality::Iridium => 3,
    }
}

impl Default for ItemQuality {
    fn default() -> (q: Self)
        ensures
            q == ItemQuality::Normal,
    {
        ItemQuality::Normal
    }
}

impl ItemQuality {
    /// The next better quality, or None at Iridium.
    pub fn next(&self) -> (r: Option<ItemQuality>)
        ensures
            match r {
                Some(n) => quality_rank(n) == quality_rank(*self) + 1,
                None => *self == ItemQuality::Iridium,
            },
    {
        match self {
            ItemQuality::Normal => Some(ItemQuality::Silver),
            ItemQuality::Silver => Some(ItemQuality::Gold),
            ItemQuality::Gold => Some(ItemQuality::Iridium),
            ItemQuality::Iridium => None,
        }
    }

    /// The marker shown after an item name in storage: nothing for normal
    /// quality, else " [S]", " [G]" or " [I]".
    pub fn marker(&self) -> (r: &'static str)
        ensures
            r == match *self {
                ItemQuality::Normal => "",
                ItemQuality::Silver => " [S]",
                ItemQuality::Gold => " [G]",
                ItemQuality::Iridium => " [I]",
            },
    {
        match self {
            ItemQuality::Normal => "",
            ItemQuality::Silver => " [S]",
            ItemQuality::Gold => " [G]",
            ItemQuality::Iridium => " [I]",
        }
    }
}

/// Sprinkler types.
#[derive(Debug, Clone, Copy, PartialEq, Eq, Hash, Structural)]
pub enum SprinklerKind {
    Basic,
    Quality,
    Iridium,
}

impl SprinklerKind {
    pub fn range(&self) -> (r: u8)
        ensures
            r == (if *self == SprinklerKind::Iridium { 2u8 } else { 1u8 }),
    {
        match self {
            SprinklerKind::Basic => 1,
            SprinklerKind::Quality => 1,
            SprinklerKind::Iridium => 2,
        }
    }

    pub fn includes_diagonals(&self) -> (r: bool)
        ensures
            r == (*self != SprinklerKind::Basic),
    {
        !matches!(self, SprinklerKind::Basic)
    }
}

/// A sprinkler placed on a farm tile.
#[derive(Debug, Clone, Copy)]
pub struct PlacedSprinkler {
    pub kind: SprinklerKind,
    pub tile_x: i32,
    pub tile_y: i32,
}

#[derive(Debug, Clone, Copy, PartialEq, Eq, Hash, Structural)]
pub enum SoilState {
    Untilled,
    Tilled,
    Watered,
}

#[derive(Debug, Clone, Copy, PartialEq, Eq, Hash, Structural)]
pub enum AnimalKind {
    Chicken,
    Cow,
    Sheep,
    Cat,
    Dog,
}

#[derive(Debug, Clone, Copy, PartialEq, Eq, Hash, Structural)]
pub enum AnimalAge {
    Baby,
    Adult,
}

/// Upgrade tiers for farm buildings.
#[derive(Debug, Clone, Copy, PartialEq, Eq, Hash, Structural)]
pub enum BuildingTier {
    Unbuilt,
    Basic,
    Big,
    Deluxe,
}

pub open spec fn building_rank(t: BuildingTier) -> nat {
    match t {
        BuildingTier::Unbuilt => 0,
        BuildingTier::Basic => 1,
        BuildingTier::Big => 2,
        BuildingTier::Deluxe => 3,
    }
}

/// Animals a building of the tier houses.
pub open spec fn building_capacity(t: BuildingTier) -> nat {
    match t {
        BuildingTier::Unbuilt => 0,
        BuildingTier::Basic => 4,
        BuildingTier::Big => 8,
        BuildingTier::Deluxe => 12,
    }
}

impl Default for BuildingTier {
    fn default() -> (t: Self)
        ensures
            t == BuildingTier::Unbuilt,
    {
        BuildingTier::Unbuilt
    }
}

/// The tier an upgrade leads to; none beyond Deluxe.
pub open spec fn tier_after(t: BuildingTier) -> Option<BuildingTier> {
    match t {
        BuildingTier::Unbuilt => Some(BuildingTier::Basic),
        BuildingTier::Basic => Some(BuildingTier::Big),
        BuildingTier::Big => Some(BuildingTier::Deluxe),
        BuildingTier::Deluxe => None,
    }
}

impl BuildingTier {
    pub fn next(&self) -> (r: Option<Self>)
        ensures
            r == tier_after(*self),
            match r {
                Some(n) => building_rank(n) == building_rank(*self) + 1,
                None => *self == BuildingTier::Deluxe,
            },
    {
        match self {
            BuildingTier::Unbuilt => Some(BuildingTier::Basic),
            BuildingTier::Basic => Some(BuildingTier::Big),
            BuildingTier::Big => Some(BuildingTier::Deluxe),
            BuildingTier::Deluxe => None,
        }
    }

    pub fn capacity(&self) -> (r: usize)
        ensures
            r == building_capacity(*self),
    {
        match self {
            BuildingTier::Unbuilt => 0,
            BuildingTier::Basic => 4,
            BuildingTier::Big => 8,
            BuildingTier::Deluxe => 12,
        }
    }
}

/// Upgrading a building always raises its capacity.
pub proof fn law_capacity_increases(a: BuildingTier, b: BuildingTier)
    requires
        building_rank(a) < building_rank(b),
    ensures
        building_capacity(a) < building_capacity(b),
{
}

#[derive(Debug, Clone, Copy, PartialEq, Eq, Hash, Structural)]
pub enum BuildingKind {
    House,
    Coop,
    Barn,
    Silo,
}

/// House upgrade tier.
#[derive(Debug, Clone, Copy, PartialEq, Eq, Hash, Structural)]
pub enum HouseTier {
    Basic,
    Big,
    Deluxe,
}

impl Default for HouseTier {
    fn default() -> (t: Self)
        ensures
            t == HouseTier::Basic,
    {
        HouseTier::Basic
    }
}

/// Romance stage with a marriage candidate.
#[derive(Debug, Clone, Copy, PartialEq, Eq, Hash, Structural)]
pub enum RelationshipStage {
    Stranger,
    Acquaintance,
    Friend,
    CloseFriend,
    Dating,
    Engaged,
    Married,
}

impl Default for RelationshipStage {
    fn default() -> (s: Self)
        ensures
            s == RelationshipStage::Stranger,
    {
        RelationshipStage::Stranger
    }
}

/// House upgrade state.
#[derive(Debug, Clone, Copy)]
pub struct HouseState {
    pub tier: HouseTier,
    pub has_kitchen: bool,
    pub has_nursery: bool,
}

impl Default for HouseState {
    fn default() -> (h: Self)
        ensures
            h.tier == HouseTier::Basic,
            !h.has_kitchen,
            !h.has_nursery,
    {
        HouseState { tier: HouseTier::Basic, has_kitchen: false, has_nursery: false }
    }
}

/// Upgrade levels of the farm buildings and the upgrade under way, if any
/// (building, target tier, days left).
#[derive(Debug, Clone, Copy)]
pub struct BuildingLevels {
    pub coop_tier: BuildingTier,
    pub barn_tier: BuildingTier,
    pub silo_built: bool,
    pub upgrade_in_progress: Option<(BuildingKind, BuildingTier, u8)>,
}

pub fn tier_label(tier: BuildingTier) -> (r: &'static str)
    ensures
        r == match tier {
            BuildingTier::Unbuilt => "None",
            BuildingTier::Basic => "Basic",
            BuildingTier::Big => "Big",
            BuildingTier::Deluxe => "Deluxe",
        },
{
    match tier {
        BuildingTier::Unbuilt => "None",
        BuildingTier::Basic => "Basic",
        BuildingTier::Big => "Big",
        BuildingTier::Deluxe => "Deluxe",
    }
}

pub fn building_label(kind: BuildingKind) -> (r: &'static str)
    ensures
        r == match kind {
            BuildingKind::House => "House",
            BuildingKind::Coop => "Coop",
            BuildingKind::Barn => "Barn",
            BuildingKind::Silo => "Silo",
        },
{
    match kind {
        BuildingKind::House => "House",
        BuildingKind::Coop => "Coop",
        BuildingKind::Barn => "Barn",
        BuildingKind::Silo => "Silo",
    }
}

/// The current tier of a farm building.
pub open spec fn tier_of(kind: BuildingKind, levels: BuildingLevels, house: HouseState) -> BuildingTier {
    match kind {
        BuildingKind::House => match house.tier {
            HouseTier::Basic => BuildingTier::Basic,
            HouseTier::Big => BuildingTier::Big,
            HouseTier::Deluxe => BuildingTier::Deluxe,
        },
        BuildingKind::Coop => levels.coop_tier,
        BuildingKind::Barn => levels.barn_tier,
        BuildingKind::Silo => if levels.silo_built { BuildingTier::Basic } else { BuildingTier::Unbuilt },
    }
}

pub fn current_tier(kind: BuildingKind, building_levels: &BuildingLevels, house_state: &HouseState) -> (r: BuildingTier)
    ensures
        r == tier_of(kind, *building_levels, *house_state),
{
    match kind {
        BuildingKind::House => match house_state.tier {
            HouseTier::Basic => BuildingTier::Basic,
            HouseTier::Big => BuildingTier::Big,
            HouseTier::Deluxe => BuildingTier::Deluxe,
        },
        BuildingKind::Coop => building_levels.coop_tier,
        BuildingKind::Barn => building_levels.barn_tier,
        BuildingKind::Silo => {
            if building_levels.silo_built { BuildingTier::Basic } else { BuildingTier::Unbuilt }
        }
    }
}

} // verus!
