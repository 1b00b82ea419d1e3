use vstd::prelude::*;

verus! {

/// Gold held by the player. Valid values lie in 0..=9999999.
#[derive(Debug, Clone, Copy, PartialEq, Eq, Structural)]
pub struct Gold(pub u32);

impl Gold {
    pub const MIN: u32 = 0;
    pub const MAX: u32 = 9999999;

    /// The value lies within the bounds.
    pub open spec fn is_valid(self) -> bool {
        0 <= self.0 <= 9999999
    }

    /// The value, if it lies within the bounds.
    pub fn new(v: u32) -> (r: Option<Self>)
        ensures
            r == (if 0 <= v <= 9999999 { Some(Gold(v)) } else { None::<Gold> }),
    {
        if 0 <= v && v <= 9999999 { Some(Gold(v)) } else { None }
    }

    /// The value, known by the caller to lie within the bounds.
    pub fn new_unchecked(v: u32) -> (r: Self)
        requires
            0 <= v <= 9999999,
        ensures
            r.0 == v,
            r.is_valid(),
    {
        Gold(v)
    }

    pub fn get(&self) -> (r: u32)
        ensures
            r == self.0,
    {
        self.0
    }
}

/// An animal's happiness. Valid values lie in 0..=255.
#[derive(Debug, Clone, Copy, PartialEq, Eq, Structural)]
pub struct Happiness(pub u8);

impl Happiness {
    pub const MIN: u8 = 0;
    pub const MAX: u8 = 255;

    /// The value lies within the bounds.
    pub open spec fn is_valid(self) -> bool {
        self.0 <= 255
    }

    /// The value, if it lies within the bounds.
    pub fn new(v: u8) -> (r: Option<Self>)
        ensures
            r == (if v <= 255 { Some(Happiness(v)) } else { None::<Happiness> }),
    {
        if v <= 255 { Some(Happiness(v)) } else { None }
    }

    /// The value, known by the caller to lie within the bounds.
    pub fn new_unchecked(v: u8) -> (r: Self)
        requires
            v <= 255,
        ensures
            r.0 == v,
            r.is_valid(),
    {
        Happiness(v)
    }

    pub fn get(&self) -> (r: u8)
        ensures
            r == self.0,
    {
        self.0
    }
}

/// Friendship points with one NPC. Valid values lie in 0..=1000.
#[derive(Debug, Clone, Copy, PartialEq, Eq, Structural)]
pub struct Friendship(pub u32);

impl Friendship {
    pub const MIN: u32 = 0;
    pub const MAX: u32 = 1000;

    /// The value lies within the bounds.
    pub open spec fn is_valid(self) -> bool {
        0 <= self.0 <= 1000
    }

    /// The value, if it lies within the bounds.
    pub fn new(v: u32) -> (r: Option<Self>)
        ensures
            r == (if 0 <= v <= 1000 { Some(Friendship(v)) } else { None::<Friendship> }),
    {
        if 0 <= v && v <= 1000 { Some(Friendship(v)) } else { None }
    }

    /// The value, known by the caller to lie within the bounds.
    pub fn new_unchecked(v: u32) -> (r: Self)
        requires
            0 <= v <= 1000,
        ensures
            r.0 == v,
            r.is_valid(),
    {
        Friendship(v)
    }

    pub fn get(&self) -> (r: u32)
        ensures
            r == self.0,
    {
        self.0
    }
}

/// How many items one inventory slot may hold. Valid values lie in 1..=99.
#[derive(Debug, Clone, Copy, PartialEq, Eq, Structural)]
pub struct StackSize(pub u8);

impl StackSize {
    pub const MIN: u8 = 1;
    pub const MAX: u8 = 99;

    /// The value lies within the bounds.
    pub open spec fn is_valid(self) -> bool {
        1 <= self.0 <= 99
    }

    /// The value, if it lies within the bounds.
    pub fn new(v: u8) -> (r: Option<Self>)
        ensures
            r == (if 1 <= v <= 99 { Some(StackSize(v)) } else { None::<StackSize> }),
    {
        if 1 <= v && v <= 99 { Some(StackSize(v)) } else { None }
    }

    /// The value, known by the caller to lie within the bounds.
    pub fn new_unchecked(v: u8) -> (r: Self)
        requires
            1 <= v <= 99,
        ensures
            r.0 == v,
            r.is_valid(),
    {
        StackSize(v)
    }

    pub fn get(&self) -> (r: u8)
        ensures
            r == self.0,
    {
        self.0
    }
}

/// A floor of the mine (0 = not in the mine). Valid values lie in 0..=120.
#[derive(Debug, Clone, Copy, PartialEq, Eq, Structural)]
pub struct MineFloor(pub u8);

impl MineFloor {
    pub const MIN: u8 = 0;
    pub const MAX: u8 = 120;

    /// The value lies within the bounds.
    pub open spec fn is_valid(self) -> bool {
        0 <= self.0 <= 120
    }

    /// The value, if it lies within the bounds.
    pub fn new(v: u8) -> (r: Option<Self>)
        ensures
            r == (if 0 <= v <= 120 { Some(MineFloor(v)) } else { None::<MineFloor> }),
    {
        if 0 <= v && v <= 120 { Some(MineFloor(v)) } else { None }
    }

    /// The value, known by the caller to lie within the bounds.
    pub fn new_unchecked(v: u8) -> (r: Self)
        requires
            0 <= v <= 120,
        ensures
            r.0 == v,
            r.is_valid(),
    {
        MineFloor(v)
    }

    pub fn get(&self) -> (r: u8)
        ensures
            r == self.0,
    {
        self.0
    }
}

/// The upgrade level of a farm building. Valid values lie in 0..=3.
#[derive(Debug, Clone, Copy, PartialEq, Eq, Structural)]
pub struct BuildingLevel(pub u8);

impl BuildingLevel {
    pub const MIN: u8 = 0;
    pub const MAX: u8 = 3;

    /// The value lies within the bounds.
    pub open spec fn is_valid(self) -> bool {
        0 <= self.0 <= 3
    }

    /// The value, if it lies within the bounds.
    pub fn new(v: u8) -> (r: Option<Self>)
        ensures
            r == (if 0 <= v <= 3 { Some(BuildingLevel(v)) } else { None::<BuildingLevel> }),
    {
        if 0 <= v && v <= 3 { Some(BuildingLevel(v)) } else { None }
    }

    /// The value, known by the caller to lie within the bounds.
    pub fn new_unchecked(v: u8) -> (r: Self)
        requires
            0 <= v <= 3,
        ensures
            r.0 == v,
            r.is_valid(),
    {
        BuildingLevel(v)
    }

    pub fn get(&self) -> (r: u8)
        ensures
            r == self.0,
    {
        self.0
    }
}

impl Default for MineFloor {
    fn default() -> (r: Self)
        ensures
            r.0 == 0,
    {
        Self::new_unchecked(0)
    }
}

impl Default for BuildingLevel {
    fn default() -> (r: Self)
        ensures
            r.0 == 0,
    {
        BuildingLevel::new_unchecked(0)
    }
}

} // verus!