use vstd::prelude::*;
use crate::tools::ToolTier;
use crate::farm::SoilState;
use crate::farm::AnimalAge;
use crate::farm::RelationshipStage;
use crate::farm::BuildingTier;

verus! {

/// Tool tiers move one way only: Basic -> Copper -> Iron -> Gold -> Iridium.
#[derive(Debug, Clone, Copy, PartialEq, Eq)]
pub struct ToolProgression;

/// Position of a stage along the tool progression chain.
pub open spec fn tool_progression_rank(s: ToolTier) -> nat {
    match s {
        ToolTier::Basic => 0,
        ToolTier::Copper => 1,
        ToolTier::Iron => 2,
        ToolTier::Gold => 3,
        ToolTier::Iridium => 4,
    }
}

impl ToolProgression {
    /// The stage that follows, or None at the last stage.
    pub fn next(stage: ToolTier) -> (r: Option<ToolTier>)
        ensures
            match r {
                Some(n) => tool_progression_rank(n) == tool_progression_rank(stage) + 1,
                None => tool_progression_rank(stage) == 4,
            },
    {
        match stage {
            ToolTier::Basic => Some(ToolTier::Copper),
            ToolTier::Copper => Some(ToolTier::Iron),
            ToolTier::Iron => Some(ToolTier::Gold),
            ToolTier::Gold => Some(ToolTier::Iridium),
            ToolTier::Iridium => None,
        }
    }

    /// Whether `to` is the stage right after `from`.
    pub fn can_advance(from: ToolTier, to: ToolTier) -> (r: bool)
        ensures
            r == (tool_progression_rank(to) == tool_progression_rank(from) + 1),
    {
        match Self::next(from) {
            Some(n) => n == to,
            None => false,
        }
    }
}


/// Soil states move one way only: Untilled -> Tilled -> Watered.
#[derive(Debug, Clone, Copy, PartialEq, Eq)]
pub struct SoilProgression;

/// Position of a stage along the soil progression chain.
pub open spec fn soil_progression_rank(s: SoilState) -> nat {
    match s {
        SoilState::Untilled => 0,
        SoilState::Tilled => 1,
        SoilState::Watered => 2,
    }
}

impl SoilProgression {
    /// The stage that follows, or None at the last stage.
    pub fn next(stage: SoilState) -> (r: Option<SoilState>)
        ensures
            match r {
                Some(n) => soil_progression_rank(n) == soil_progression_rank(stage) + 1,
                None => soil_progression_rank(stage) == 2,
            },
    {
        match stage {
            SoilState::Untilled => Some(SoilState::Tilled),
            SoilState::Tilled => Some(SoilState::Watered),
            SoilState::Watered => None,
        }
    }

    /// Whether `to` is the stage right after `from`.
    pub fn can_advance(from: SoilState, to: SoilState) -> (r: bool)
        ensures
            r == (soil_progression_rank(to) == soil_progression_rank(from) + 1),
    {
        match Self::next(from) {
            Some(n) => n == to,
            None => false,
        }
    }
}


/// Animal ages move one way only: Baby -> Adult.
#[derive(Debug, Clone, Copy, PartialEq, Eq)]
pub struct AnimalGrowth;

/// Position of a stage along the animal growth chain.
pub open spec fn animal_growth_rank(s: AnimalAge) -> nat {
    match s {
        AnimalAge::Baby => 0,
        AnimalAge::Adult => 1,
    }
}

impl AnimalGrowth {
    /// The stage that follows, or None at the last stage.
    pub fn next(stage: AnimalAge) -> (r: Option<AnimalAge>)
        ensures
            match r {
                Some(n) => animal_growth_rank(n) == animal_growth_rank(stage) + 1,
                None => animal_growth_rank(stage) == 1,
            },
    {
        match stage {
            AnimalAge::Baby => Some(AnimalAge::Adult),
            AnimalAge::Adult => None,
        }
    }

    /// Whether `to` is the stage right after `from`.
    pub fn can_advance(from: AnimalAge, to: AnimalAge) -> (r: bool)
        ensures
            r == (animal_growth_rank(to) == animal_growth_rank(from) + 1),
    {
        match Self::next(from) {
            Some(n) => n == to,
            None => false,
        }
    }
}


/// Relationship stages move one way only: Stranger -> Acquaintance -> Friend -> CloseFriend -> Dating -> Engaged -> Married.
#[derive(Debug, Clone, Copy, PartialEq, Eq)]
pub struct RelationshipProgression;

/// Position of a stage along the relationship progression chain.
pub open spec fn relationship_progression_rank(s: RelationshipStage) -> nat {
    match s {
        RelationshipStage::Stranger => 0,
        RelationshipStage::Acquaintance => 1,
        RelationshipStage::Friend => 2,
        RelationshipStage::CloseFriend => 3,
        RelationshipStage::Dating => 4,
        RelationshipStage::Engaged => 5,
        RelationshipStage::Married => 6,
    }
}

impl RelationshipProgression {
    /// The stage that follows, or None at the last stage.
    pub fn next(stage: RelationshipStage) -> (r: Option<RelationshipStage>)
        ensures
            match r {
                Some(n) => relationship_progression_rank(n) == relationship_progression_rank(stage) + 1,
                None => relationship_progression_rank(stage) == 6,
            },
    {
        match stage {
            RelationshipStage::Stranger => Some(RelationshipStage::Acquaintance),
            RelationshipStage::Acquaintance => Some(RelationshipStage::Friend),
            RelationshipStage::Friend => Some(RelationshipStage::CloseFriend),
            RelationshipStage::CloseFriend => Some(RelationshipStage::Dating),
            RelationshipStage::Dating => Some(RelationshipStage::Engaged),
            RelationshipStage::Engaged => Some(RelationshipStage::Married),
            RelationshipStage::Married => None,
        }
    }

    /// Whether `to` is the stage right after `from`.
    pub fn can_advance(from: RelationshipStage, to: RelationshipStage) -> (r: bool)
        ensures
            r == (relationship_progression_rank(to) == relationship_progression_rank(from) + 1),
    {
        match Self::next(from) {
            Some(n) => n == to,
            None => false,
        }
    }
}


/// Building tiers move one way only: Unbuilt -> Basic -> Big -> Deluxe.
#[derive(Debug, Clone, Copy, PartialEq, Eq)]
pub struct BuildingProgression;

/// Position of a stage along the building progression chain.
pub open spec fn building_progression_rank(s: BuildingTier) -> nat {
    match s {
        BuildingTier::Unbuilt => 0,
        BuildingTier::Basic => 1,
        BuildingTier::Big => 2,
        BuildingTier::Deluxe => 3,
    }
}

impl BuildingProgression {
    /// The stage that follows, or None at the last stage.
    pub fn next(stage: BuildingTier) -> (r: Option<BuildingTier>)
        ensures
            match r {
                Some(n) => building_progression_rank(n) == building_progression_rank(stage) + 1,
                None => building_progression_rank(stage) == 3,
            },
    {
        match stage {
            BuildingTier::Unbuilt => Some(BuildingTier::Basic),
            BuildingTier::Basic => Some(BuildingTier::Big),
            BuildingTier::Big => Some(BuildingTier::Deluxe),
            BuildingTier::Deluxe => None,
        }
    }

    /// Whether `to` is the stage right after `from`.
    pub fn can_advance(from: BuildingTier, to: BuildingTier) -> (r: bool)
        ensures
            r == (building_progression_rank(to) == building_progression_rank(from) + 1),
    {
        match Self::next(from) {
            Some(n) => n == to,
            None => false,
        }
    }
}


} // verus!