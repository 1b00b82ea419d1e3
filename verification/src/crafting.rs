use vstd::prelude::*;
use crate::inventory::{Inventory, SlotView, slots_view, count_view, max_count_slots};
use crate::items::ItemRegistry;
use crate::menu::MenuAction;
use crate::names::NameMap;
use crate::shop::sell_name;
use crate::text::{
    decimal, push_decimal, push_str, string_of, sorted_distinct, sorted_texts, texts_view, insert_sorted, insert_sorted_distinct,
};

verus! {

/// A crafting or cooking recipe.
#[derive(Debug, Clone)]
pub struct Recipe {
    pub id: String,
    pub name: String,
    pub ingredients: Vec<(String, u8)>,
    pub result: String,
    pub result_quantity: u8,
    pub is_cooking: bool,
    pub unlocked_by_default: bool,
}

/// Every ingredient of the recipe is held in the required quantity.
pub open spec fn has_ingredients(ingredients: Seq<(String, u8)>, inventory: Inventory) -> bool {
    forall|k: int| 0 <= k < ingredients.len() ==>
        count_view(slots_view(inventory.slots@), #[trigger] ingredients[k].0@) >= ingredients[k].1
}

pub fn can_craft_recipe(recipe: &Recipe, inventory: &Inventory) -> (r: bool)
    requires
        inventory.slots.len() <= max_count_slots(),
    ensures
        r == has_ingredients(recipe.ingredients@, *inventory),
{
    let mut k: usize = 0;
    while k < recipe.ingredients.len()
        invariant
            k <= recipe.ingredients@.len(),
            inventory.slots.len() <= max_count_slots(),
            forall|j: int| 0 <= j < k ==>
                count_view(slots_view(inventory.slots@), #[trigger] recipe.ingredients@[j].0@) >= recipe.ingredients@[j].1,
        decreases recipe.ingredients@.len() - k,
    {
        let (ref item_id, qty) = recipe.ingredients[k];
        if !inventory.has(item_id.as_str(), qty) {
            return false;
        }
        k += 1;
    }
    true
}

/// The recipe list's cursor and scroll after the arrows: the cursor moves
/// within the list and the six-row window follows it.
pub fn crafting_cursor(cursor: usize, scroll_offset: usize, count: usize, up: bool, down: bool) -> (r: (usize, usize))
    requires
        scroll_offset + 6 <= usize::MAX,
    ensures
        ({
            let c1: int = if down && count > 0 && cursor < count - 1 { cursor + 1 } else { cursor as int };
            let c2: int = if up && c1 > 0 { c1 - 1 } else { c1 };
            let s1: int = if c2 >= scroll_offset + 6 { c2 - 5 } else { scroll_offset as int };
            let s2: int = if c2 < s1 { c2 } else { s1 };
            &&& r.0 == c2
            &&& r.1 == s2
            &&& s2 <= c2 < s2 + 6
        }),
{
    let mut c = cursor;
    if down && count > 0 && c < count - 1 {
        c += 1;
    }
    if up && c > 0 {
        c -= 1;
    }
    let mut s = scroll_offset;
    if c >= s + 6 {
        s = c - 5;
    }
    if c < s {
        s = c;
    }
    (c, s)
}

/// Recipes by id.
#[derive(Debug, Clone)]
pub struct RecipeRegistry {
    pub recipes: NameMap<Recipe>,
}

/// The crafting screen: the cursor, the six-row window's first row, the
/// recipe ids listed and the status line. (The status line's display timer
/// is kept by the application.)
#[derive(Debug, Clone)]
pub struct CraftingUiState {
    pub cursor: usize,
    pub scroll_offset: usize,
    pub visible_recipes: Vec<String>,
    pub status_message: String,
}

/// What confirming on the crafting screen asks for.
#[derive(Debug, Clone, PartialEq, Eq)]
pub enum CraftingOutcome {
    Nothing,
    /// Craft the recipe with this id.
    Craft(String),
    /// The materials are missing.
    MissingMaterials,
}

/// One frame of the crafting screen: the arrows move the cursor and the
/// window follows; confirming on a known recipe crafts it when the
/// materials are there ("Crafting...") and says "Not enough materials!"
/// otherwise.
pub fn crafting_navigation(state: &mut CraftingUiState, action: &MenuAction, recipe_registry: &RecipeRegistry, inventory: &Inventory) -> (r: CraftingOutcome)
    requires
        old(state).scroll_offset + 6 <= usize::MAX,
        inventory.slots.len() <= max_count_slots(),
    ensures
        ({
            let c1: int = if action.move_down && old(state).visible_recipes.len() > 0 && old(state).cursor < old(state).visible_recipes.len() - 1 { old(state).cursor + 1 } else { old(state).cursor as int };
            let c2: int = if action.move_up && c1 > 0 { c1 - 1 } else { c1 };
            let s1: int = if c2 >= old(state).scroll_offset + 6 { c2 - 5 } else { old(state).scroll_offset as int };
            let s2: int = if c2 < s1 { c2 } else { s1 };
            &&& final(state).cursor == c2
            &&& final(state).scroll_offset == s2
            &&& final(state).visible_recipes@ == old(state).visible_recipes@
            &&& if action.activate && c2 < old(state).visible_recipes.len()
                && recipe_registry.recipes.get_spec(old(state).visible_recipes@[c2]@) is Some {
                let recipe = recipe_registry.recipes.get_spec(old(state).visible_recipes@[c2]@)->0;
                if has_ingredients(recipe.ingredients@, *inventory) {
                    &&& r == CraftingOutcome::Craft(old(state).visible_recipes@[c2])
                    &&& final(state).status_message@ == "Crafting..."@
                } else {
                    &&& r == CraftingOutcome::MissingMaterials
                    &&& final(state).status_message@ == "Not enough materials!"@
                }
            } else {
                &&& r == CraftingOutcome::Nothing
                &&& final(state).status_message == old(state).status_message
            }
        }),
{
    let (c, sc) = crafting_cursor(state.cursor, state.scroll_offset, state.visible_recipes.len(), action.move_up, action.move_down);
    state.cursor = c;
    state.scroll_offset = sc;
    if !action.activate || c >= state.visible_recipes.len() {
        return CraftingOutcome::Nothing;
    }
    let recipe_id = state.visible_recipes[c].clone();
    match recipe_registry.recipes.get(recipe_id.as_str()) {
        None => CraftingOutcome::Nothing,
        Some(recipe) => {
            if can_craft_recipe(recipe, inventory) {
                state.status_message = string_of("Crafting...");
                CraftingOutcome::Craft(recipe_id)
            } else {
                state.status_message = string_of("Not enough materials!");
                CraftingOutcome::MissingMaterials
            }
        },
    }
}

/// "<name> (<held>/<needed>)" for each ingredient, joined by ", "; the
/// quantity held is kept in a byte, so taken modulo 256.
pub open spec fn materials_list(ings: Seq<(String, u8)>, v: Seq<SlotView>, reg: ItemRegistry) -> Seq<char>
    decreases ings.len(),
{
    if ings.len() == 0 {
        Seq::empty()
    } else {
        let prev = materials_list(ings.drop_last(), v, reg);
        let (id, qty) = ings.last();
        let part = sell_name(reg, id@) + " ("@ + decimal((count_view(v, id@) % 256) as nat) + "/"@ + decimal(qty as nat) + ")"@;
        if ings.len() == 1 { part } else { prev + ", "@ + part }
    }
}

/// The materials of a recipe with the quantities held.
pub fn materials_text(recipe: &Recipe, inventory: &Inventory, item_registry: &ItemRegistry) -> (s: String)
    requires
        inventory.slots.len() <= max_count_slots(),
    ensures
        s@ == materials_list(recipe.ingredients@, slots_view(inventory.slots@), *item_registry),
{
    let mut s = String::new();
    let mut k: usize = 0;
    while k < recipe.ingredients.len()
        invariant
            k <= recipe.ingredients.len(),
            inventory.slots.len() <= max_count_slots(),
            s@ == materials_list(recipe.ingredients@.take(k as int), slots_view(inventory.slots@), *item_registry),
        decreases recipe.ingredients.len() - k,
    {
        proof {
            assert(recipe.ingredients@.take(k as int + 1).drop_last() =~= recipe.ingredients@.take(k as int));
        }
        let (ref item_id, qty) = recipe.ingredients[k];
        if k > 0 {
            push_str(&mut s, ", ");
        }
        match item_registry.get(item_id.as_str()) {
            Some(d) => push_str(&mut s, d.name.as_str()),
            None => push_str(&mut s, item_id.as_str()),
        }
        push_str(&mut s, " (");
        let has = inventory.count(item_id.as_str()) % 256;
        push_decimal(&mut s, has as u64);
        push_str(&mut s, "/");
        push_decimal(&mut s, qty as u64);
        push_str(&mut s, ")");
        proof {
            if k == 0 {
                assert(recipe.ingredients@.take(0) =~= Seq::<(String, u8)>::empty());
            }
        }
        k = k + 1;
    }
    proof {
        assert(recipe.ingredients@.take(recipe.ingredients.len() as int) =~= recipe.ingredients@);
    }
    s
}

/// The featured recipe's materials line: "Materials: None" without
/// ingredients, else "Materials: " and the list.
pub fn featured_materials(recipe: &Recipe, inventory: &Inventory, item_registry: &ItemRegistry) -> (s: String)
    requires
        inventory.slots.len() <= max_count_slots(),
    ensures
        s@ == if recipe.ingredients.len() == 0 {
            "Materials: None"@
        } else {
            "Materials: "@ + materials_list(recipe.ingredients@, slots_view(inventory.slots@), *item_registry)
        },
{
    if recipe.ingredients.len() == 0 {
        return string_of("Materials: None");
    }
    let mut s = string_of("Materials: ");
    let list = materials_text(recipe, inventory, item_registry);
    push_str(&mut s, list.as_str());
    s
}

/// The unlocked recipe ids that the registry knows, in the unlocked order,
/// an id unlocked twice listed twice.
pub open spec fn known_recipes(unlocked: Seq<String>, reg: RecipeRegistry) -> Seq<Seq<char>>
    decreases unlocked.len(),
{
    if unlocked.len() == 0 {
        Seq::empty()
    } else if reg.recipes.get_spec(unlocked.last()@) is Some {
        known_recipes(unlocked.drop_last(), reg).push(unlocked.last()@)
    } else {
        known_recipes(unlocked.drop_last(), reg)
    }
}

/// The crafting screen as it opens: cursor and window at the top, no
/// status, and the recipe ids listed in dictionary order: every recipe of
/// the registry once while none is unlocked, else the unlocked ids that the
/// registry knows (an id unlocked twice shows twice).
pub fn open_crafting_screen(recipe_registry: &RecipeRegistry, unlocked: &Vec<String>) -> (st: CraftingUiState)
    ensures
        st.cursor == 0,
        st.scroll_offset == 0,
        st.status_message@.len() == 0,
        unlocked.len() == 0 ==> sorted_distinct(texts_view(st.visible_recipes@)),
        unlocked.len() == 0 ==> forall|k: Seq<char>| #[trigger] texts_view(st.visible_recipes@).contains(k)
            <==> recipe_registry.recipes.get_spec(k) is Some,
        unlocked.len() > 0 ==> sorted_texts(texts_view(st.visible_recipes@)),
        unlocked.len() > 0 ==> texts_view(st.visible_recipes@).to_multiset()
            == known_recipes(unlocked@, *recipe_registry).to_multiset(),
{
    if unlocked.len() == 0 {
        let names = recipe_registry.recipes.names();
        let mut visible: Vec<String> = Vec::new();
        let mut i: usize = 0;
        proof {
            assert(texts_view(visible@) =~= Seq::<Seq<char>>::empty());
            assert(texts_view(names@).take(0) =~= Seq::<Seq<char>>::empty());
        }
        while i < names.len()
            invariant
                i <= names.len(),
                sorted_distinct(texts_view(visible@)),
                forall|k: Seq<char>| #[trigger] texts_view(visible@).contains(k)
                    <==> texts_view(names@).take(i as int).contains(k),
            decreases names.len() - i,
        {
            insert_sorted_distinct(&mut visible, names[i].as_str());
            proof {
                let t0 = texts_view(names@).take(i as int);
                let t1 = texts_view(names@).take(i as int + 1);
                assert forall|k: Seq<char>| #[trigger] t1.contains(k) <==> t0.contains(k) || k == names@[i as int]@ by {
                    if t1.contains(k) {
                        let j = choose|j: int| 0 <= j < t1.len() && t1[j] == k;
                        if j < t0.len() {
                            assert(t0[j] == k);
                        }
                    }
                    if t0.contains(k) {
                        let j = choose|j: int| 0 <= j < t0.len() && t0[j] == k;
                        assert(t1[j] == k);
                    }
                    if k == names@[i as int]@ {
                        assert(t1[i as int] == k);
                    }
                }
            }
            i = i + 1;
        }
        proof {
            assert(texts_view(names@).take(names.len() as int) =~= texts_view(names@));
            assert forall|k: Seq<char>| #[trigger] texts_view(visible@).contains(k)
                <==> recipe_registry.recipes.get_spec(k) is Some by {
                if texts_view(names@).contains(k) {
                    let j = choose|j: int| 0 <= j < texts_view(names@).len() && texts_view(names@)[j] == k;
                    assert(names@[j]@ == k);
                }
                if recipe_registry.recipes.get_spec(k) is Some {
                    let j = choose|j: int| 0 <= j < names.len() && names@[j]@ == k;
                    assert(texts_view(names@)[j] == k);
                }
            }
        }
        return CraftingUiState { cursor: 0, scroll_offset: 0, visible_recipes: visible, status_message: String::new() };
    }
    let mut visible: Vec<String> = Vec::new();
    let mut i: usize = 0;
    proof {
        assert(texts_view(visible@) =~= Seq::<Seq<char>>::empty());
        assert(unlocked@.take(0) =~= Seq::<String>::empty());
        assert(Seq::<Seq<char>>::empty().to_multiset() =~= vstd::multiset::Multiset::empty()) by {
            broadcast use vstd::seq_lib::group_to_multiset_ensures;
        }
    }
    while i < unlocked.len()
        invariant
            i <= unlocked.len(),
            sorted_texts(texts_view(visible@)),
            texts_view(visible@).to_multiset() == known_recipes(unlocked@.take(i as int), *recipe_registry).to_multiset(),
        decreases unlocked.len() - i,
    {
        proof {
            assert(unlocked@.take(i as int + 1).drop_last() =~= unlocked@.take(i as int));
            assert(unlocked@.take(i as int + 1).last() == unlocked@[i as int]);
        }
        if recipe_registry.recipes.get(unlocked[i].as_str()).is_some() {
            let id = string_of(unlocked[i].as_str());
            proof {
                vstd::seq_lib::to_multiset_build(known_recipes(unlocked@.take(i as int), *recipe_registry), id@);
            }
            insert_sorted(&mut visible, id);
        }
        i = i + 1;
    }
    proof {
        assert(unlocked@.take(unlocked.len() as int) =~= unlocked@);
    }
    CraftingUiState { cursor: 0, scroll_offset: 0, visible_recipes: visible, status_message: String::new() }
}

} // verus!
