use vstd::prelude::*;
use crate::names::NameMap;

verus! {

#[derive(Debug, Clone, Copy, PartialEq, Eq, Hash, Structural)]
pub enum ItemCategory {
    Seed,
    Crop,
    AnimalProduct,
    ArtisanGood,
    Fish,
    Mineral,
    Gem,
    CraftingMaterial,
    Food,
    Tool,
    Furniture,
    Gift,
    Special,
}

/// The data of one item type. (The stamina an edible item restores is a
/// fractional amount and is kept by the application.)
#[derive(Debug, Clone)]
pub struct ItemDef {
    pub id: String,
    pub name: String,
    pub description: String,
    pub category: ItemCategory,
    pub sell_price: u32,
    pub buy_price: Option<u32>,
    pub stack_size: u8,
    pub edible: bool,
    pub sprite_index: u32,
}

/// Item data by item id.
#[derive(Debug, Clone)]
pub struct ItemRegistry {
    pub items: NameMap<ItemDef>,
}

/// Stack size used for items the registry does not know.
pub const DEFAULT_STACK: u8 = 99;

/// The largest stack of an item: its registered stack size, else 99.
pub open spec fn max_stack_of(reg: ItemRegistry, id: Seq<char>) -> u8 {
    match reg.items.get_spec(id) {
        Some(d) => d.stack_size,
        None => 99,
    }
}

impl ItemRegistry {
    pub fn new() -> (r: Self)
        ensures
            forall|k: Seq<char>| #[trigger] r.items.get_spec(k) is None,
    {
        ItemRegistry { items: NameMap::new() }
    }

    pub fn get(&self, id: &str) -> (r: Option<&ItemDef>)
        ensures
            match r {
                Some(d) => self.items.get_spec(id@) == Some(*d),
                None => self.items.get_spec(id@) is None,
            },
    {
        self.items.get(id)
    }

    /// The largest stack of an item.
    pub fn max_stack(&self, id: &str) -> (r: u8)
        ensures
            r == max_stack_of(*self, id@),
    {
        match self.get(id) {
            Some(def) => def.stack_size,
            None => DEFAULT_STACK,
        }
    }
}

} // verus!
