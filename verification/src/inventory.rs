use vstd::prelude::*;
use crate::text::string_of;

verus! {

pub const HOTBAR_SLOTS: usize = 12;
pub const BACKPACK_SLOTS: usize = 24;
pub const TOTAL_INVENTORY_SLOTS: usize = 36;

/// A stack of one item kind in an inventory slot.
#[derive(Debug, Clone)]
pub struct InventorySlot {
    pub item_id: String,
    pub quantity: u8,
}

/// The player's inventory: slots 0-11 form the hotbar, 12-35 the backpack.
#[derive(Debug, Clone)]
pub struct Inventory {
    pub slots: Vec<Option<InventorySlot>>,
    pub selected_slot: usize,
}

/// What a slot holds, as plain values: the item id and the quantity.
pub type SlotView = Option<(Seq<char>, nat)>;

pub open spec fn slot_view(s: Option<InventorySlot>) -> SlotView {
    match s {
        Some(x) => Some((x.item_id@, x.quantity as nat)),
        None => None,
    }
}

pub open spec fn slots_view(s: Seq<Option<InventorySlot>>) -> Seq<SlotView> {
    s.map_values(|x: Option<InventorySlot>| slot_view(x))
}

/// How many of item `id` a slot holds.
pub open spec fn slot_qty(v: SlotView, id: Seq<char>) -> nat {
    match v {
        Some((sid, q)) => if sid == id { q } else { 0 },
        None => 0,
    }
}

/// Total quantity of item `id` over all slots.
pub open spec fn count_view(s: Seq<SlotView>, id: Seq<char>) -> nat
    decreases s.len(),
{
    if s.len() == 0 {
        0
    } else {
        count_view(s.drop_last(), id) + slot_qty(s.last(), id)
    }
}

pub open spec fn min_nat(a: nat, b: nat) -> nat {
    if a <= b { a } else { b }
}

/// Topping up one slot during the stacking pass: a non-full stack of the
/// same item takes as much of the remainder as fits.
pub open spec fn stack_one(v: SlotView, id: Seq<char>, r: nat, max: nat) -> (SlotView, nat) {
    match v {
        Some((sid, q)) => {
            if sid == id && q < max && r > 0 {
                let add = min_nat(r, (max - q) as nat);
                (Some((sid, q + add)), (r - add) as nat)
            } else {
                (v, r)
            }
        }
        None => (v, r),
    }
}

/// Filling one slot during the second pass: an empty slot receives a new
/// stack of up to `max` items while something remains.
pub open spec fn fill_one(v: SlotView, id: Seq<char>, r: nat, max: nat) -> (SlotView, nat) {
    match v {
        None => {
            if r > 0 {
                let add = min_nat(r, max);
                (Some((id, add)), (r - add) as nat)
            } else {
                (v, r)
            }
        }
        Some(_) => (v, r),
    }
}

/// Taking from one slot during removal: a stack of the item gives up as much
/// as still has to be removed, and an emptied slot is cleared.
pub open spec fn remove_one(v: SlotView, id: Seq<char>, r: nat) -> (SlotView, nat) {
    match v {
        Some((sid, q)) => {
            if sid == id && r > 0 {
                let take = min_nat(r, q);
                let left = (q - take) as nat;
                (if left == 0 { None } else { Some((sid, left)) }, (r - take) as nat)
            } else {
                (v, r)
            }
        }
        None => (v, r),
    }
}

/// The stacking pass over the first `i` slots, starting with `r0` to place:
/// the new slots and what remains.
pub open spec fn stack_prefix(v: Seq<SlotView>, id: Seq<char>, r0: nat, max: nat, i: nat) -> (Seq<SlotView>, nat)
    decreases i,
{
    if i == 0 {
        (Seq::empty(), r0)
    } else {
        let (p, r) = stack_prefix(v, id, r0, max, (i - 1) as nat);
        let (x, r2) = stack_one(v[i - 1], id, r, max);
        (p.push(x), r2)
    }
}

/// The filling pass over the first `i` slots.
pub open spec fn fill_prefix(v: Seq<SlotView>, id: Seq<char>, r0: nat, max: nat, i: nat) -> (Seq<SlotView>, nat)
    decreases i,
{
    if i == 0 {
        (Seq::empty(), r0)
    } else {
        let (p, r) = fill_prefix(v, id, r0, max, (i - 1) as nat);
        let (x, r2) = fill_one(v[i - 1], id, r, max);
        (p.push(x), r2)
    }
}

/// The removal pass over the first `i` slots.
pub open spec fn remove_prefix(v: Seq<SlotView>, id: Seq<char>, r0: nat, i: nat) -> (Seq<SlotView>, nat)
    decreases i,
{
    if i == 0 {
        (Seq::empty(), r0)
    } else {
        let (p, r) = remove_prefix(v, id, r0, (i - 1) as nat);
        let (x, r2) = remove_one(v[i - 1], id, r);
        (p.push(x), r2)
    }
}

/// Adding `q` of item `id` with stacks of at most `max`: first top up the
/// existing stacks of the item in slot order, then open new stacks in empty
/// slots in slot order. The result is the new slots and the quantity that
/// did not fit.
pub open spec fn try_add_result(v: Seq<SlotView>, id: Seq<char>, q: nat, max: nat) -> (Seq<SlotView>, nat) {
    let (v1, r1) = stack_prefix(v, id, q, max, v.len());
    fill_prefix(v1, id, r1, max, v.len())
}

/// Removing up to `q` of item `id`, taking from the stacks in slot order.
pub open spec fn try_remove_result(v: Seq<SlotView>, id: Seq<char>, q: nat) -> (Seq<SlotView>, nat) {
    remove_prefix(v, id, q, v.len())
}

pub open spec fn max_count_slots() -> nat {
    16843009
}

proof fn lemma_count_bound(s: Seq<SlotView>, id: Seq<char>)
    requires
        forall|j: int| 0 <= j < s.len() ==> #[trigger] slot_qty(s[j], id) <= 255,
    ensures
        count_view(s, id) <= 255 * s.len(),
    decreases s.len(),
{
    if s.len() > 0 {
        assert forall|j: int| 0 <= j < s.drop_last().len() implies #[trigger] slot_qty(s.drop_last()[j], id) <= 255 by {
            assert(s.drop_last()[j] == s[j]);
        }
        lemma_count_bound(s.drop_last(), id);
        assert(slot_qty(s[s.len() - 1], id) <= 255);
    }
}

proof fn lemma_take_succ<T>(s: Seq<T>, i: int)
    requires
        0 <= i < s.len(),
    ensures
        s.take(i + 1).drop_last() == s.take(i),
        s.take(i + 1).last() == s[i],
{
    assert(s.take(i + 1).drop_last() =~= s.take(i));
}


proof fn lemma_stack_prefix(v: Seq<SlotView>, id: Seq<char>, r0: nat, max: nat, i: nat, other: Seq<char>)
    requires
        i <= v.len(),
    ensures
        ({
            let (p, r) = stack_prefix(v, id, r0, max, i);
            &&& p.len() == i
            &&& r <= r0
            &&& count_view(p, id) + r == count_view(v.take(i as int), id) + r0
            &&& other != id ==> count_view(p, other) == count_view(v.take(i as int), other)
            &&& forall|j: int| 0 <= j < i ==> (#[trigger] p[j] is None <==> v[j] is None)
        }),
    decreases i,
{
    if i > 0 {
        lemma_stack_prefix(v, id, r0, max, (i - 1) as nat, other);
        lemma_take_succ(v, i - 1);
        let (p, r) = stack_prefix(v, id, r0, max, (i - 1) as nat);
        let (x, r2) = stack_one(v[i - 1], id, r, max);
        assert(p.push(x).drop_last() =~= p);
        let pp = p.push(x);
        assert forall|j: int| 0 <= j < i implies (#[trigger] pp[j] is None <==> v[j] is None) by {
            if j < i - 1 {
                assert(pp[j] == p[j]);
            }
        }
    }
}

proof fn lemma_fill_prefix(v: Seq<SlotView>, id: Seq<char>, r0: nat, max: nat, i: nat, other: Seq<char>)
    requires
        i <= v.len(),
    ensures
        ({
            let (p, r) = fill_prefix(v, id, r0, max, i);
            &&& p.len() == i
            &&& r <= r0
            &&& count_view(p, id) + r == count_view(v.take(i as int), id) + r0
            &&& other != id ==> count_view(p, other) == count_view(v.take(i as int), other)
        }),
    decreases i,
{
    if i > 0 {
        lemma_fill_prefix(v, id, r0, max, (i - 1) as nat, other);
        lemma_take_succ(v, i - 1);
        let (p, r) = fill_prefix(v, id, r0, max, (i - 1) as nat);
        let (x, r2) = fill_one(v[i - 1], id, r, max);
        assert(p.push(x).drop_last() =~= p);
    }
}

proof fn lemma_remove_prefix(v: Seq<SlotView>, id: Seq<char>, r0: nat, i: nat, other: Seq<char>)
    requires
        i <= v.len(),
    ensures
        ({
            let (p, r) = remove_prefix(v, id, r0, i);
            &&& p.len() == i
            &&& r <= r0
            &&& count_view(p, id) + r0 == count_view(v.take(i as int), id) + r
            &&& r > 0 ==> count_view(p, id) == 0
            &&& other != id ==> count_view(p, other) == count_view(v.take(i as int), other)
        }),
    decreases i,
{
    if i > 0 {
        lemma_remove_prefix(v, id, r0, (i - 1) as nat, other);
        lemma_take_succ(v, i - 1);
        let (p, r) = remove_prefix(v, id, r0, (i - 1) as nat);
        let (x, r2) = remove_one(v[i - 1], id, r);
        assert(p.push(x).drop_last() =~= p);
    }
}

/// Adding never creates or destroys items: the item's total rises by
/// exactly what was placed (the requested quantity minus the leftover), and
/// every other item's total is unchanged.
pub proof fn law_try_add_conserves(v: Seq<SlotView>, id: Seq<char>, q: nat, max: nat, other: Seq<char>)
    ensures
        ({
            let (w, r) = try_add_result(v, id, q, max);
            &&& w.len() == v.len()
            &&& r <= q
            &&& count_view(w, id) == count_view(v, id) + q - r
            &&& other != id ==> count_view(w, other) == count_view(v, other)
        }),
{
    let n = v.len();
    lemma_stack_prefix(v, id, q, max, n, other);
    let (v1, r1) = stack_prefix(v, id, q, max, n);
    lemma_fill_prefix(v1, id, r1, max, n, other);
    assert(v.take(n as int) =~= v);
    assert(v1.take(n as int) =~= v1);
}

/// Removal takes exactly the smaller of the requested quantity and the
/// quantity held, and leaves every other item's total unchanged.
pub proof fn law_try_remove_takes_min(v: Seq<SlotView>, id: Seq<char>, q: nat, other: Seq<char>)
    ensures
        ({
            let (w, r) = try_remove_result(v, id, q);
            &&& w.len() == v.len()
            &&& r <= q
            &&& q - r == min_nat(q, count_view(v, id))
            &&& count_view(w, id) == count_view(v, id) - (q - r)
            &&& other != id ==> count_view(w, other) == count_view(v, other)
        }),
{
    let n = v.len();
    lemma_remove_prefix(v, id, q, n, other);
    assert(v.take(n as int) =~= v);
}

/// Adding and then removing the same quantity is a round trip for the
/// totals: when everything fit, taking the quantity back out removes all of
/// it and every item's total is what it was.
pub proof fn law_add_then_remove_restores_totals(v: Seq<SlotView>, id: Seq<char>, q: nat, max: nat, other: Seq<char>)
    requires
        try_add_result(v, id, q, max).1 == 0,
    ensures
        ({
            let w = try_add_result(v, id, q, max).0;
            let (u, r) = try_remove_result(w, id, q);
            &&& r == 0
            &&& count_view(u, id) == count_view(v, id)
            &&& count_view(u, other) == count_view(v, other)
        }),
{
    law_try_add_conserves(v, id, q, max, other);
    let w = try_add_result(v, id, q, max).0;
    law_try_remove_takes_min(w, id, q, other);
}

/// Whether a slot holds item `id`.
pub open spec fn holds(v: SlotView, id: Seq<char>) -> bool {
    v matches Some((sid, _)) && sid == id
}

/// The quantity in a slot (0 for an empty one).
pub open spec fn qty_of(v: SlotView) -> nat {
    match v {
        Some((_, q)) => q,
        None => 0,
    }
}

/// Every stack of item `id` holds between 1 and `max`.
pub open spec fn stacks_ok(s: Seq<SlotView>, id: Seq<char>, max: nat) -> bool {
    forall|j: int| 0 <= j < s.len() && holds(#[trigger] s[j], id) ==> 1 <= qty_of(s[j]) <= max
}

proof fn lemma_stack_prefix_slots(v: Seq<SlotView>, id: Seq<char>, r0: nat, max: nat, i: nat)
    requires
        i <= v.len(),
        max >= 1,
        stacks_ok(v, id, max),
    ensures
        ({
            let (p, r) = stack_prefix(v, id, r0, max, i);
            &&& p.len() == i
            &&& r <= r0
            &&& forall|j: int| 0 <= j < i && !holds(v[j], id) ==> #[trigger] p[j] == v[j]
            &&& forall|j: int| 0 <= j < i && holds(v[j], id) ==> holds(#[trigger] p[j], id) && 1 <= qty_of(p[j]) <= max
            &&& r > 0 ==> forall|j: int| 0 <= j < i && holds(v[j], id) ==> qty_of(#[trigger] p[j]) == max
        }),
    decreases i,
{
    if i > 0 {
        lemma_stack_prefix_slots(v, id, r0, max, (i - 1) as nat);
        let (p, r) = stack_prefix(v, id, r0, max, (i - 1) as nat);
        let (x, r2) = stack_one(v[i - 1], id, r, max);
        let pp = p.push(x);
        assert(holds(v[i - 1], id) ==> 1 <= qty_of(v[i - 1]) <= max);
        assert forall|j: int| 0 <= j < i && !holds(v[j], id) implies #[trigger] pp[j] == v[j] by {
            if j < i - 1 { assert(pp[j] == p[j]); }
        }
        assert forall|j: int| 0 <= j < i && holds(v[j], id) implies holds(#[trigger] pp[j], id) && 1 <= qty_of(pp[j]) <= max by {
            if j < i - 1 { assert(pp[j] == p[j]); }
        }
        if r2 > 0 {
            assert forall|j: int| 0 <= j < i && holds(v[j], id) implies qty_of(#[trigger] pp[j]) == max by {
                if j < i - 1 { assert(pp[j] == p[j]); }
            }
        }
    }
}

proof fn lemma_fill_prefix_slots(v: Seq<SlotView>, id: Seq<char>, r0: nat, max: nat, i: nat)
    requires
        i <= v.len(),
        max >= 1,
    ensures
        ({
            let (p, r) = fill_prefix(v, id, r0, max, i);
            &&& p.len() == i
            &&& r <= r0
            &&& forall|j: int| 0 <= j < i && v[j] is Some ==> #[trigger] p[j] == v[j]
            &&& forall|j: int| 0 <= j < i && v[j] is None && p[j] is Some ==>
                holds(#[trigger] p[j], id) && 1 <= qty_of(p[j]) <= max && (r > 0 ==> qty_of(p[j]) == max)
            &&& r > 0 ==> forall|j: int| 0 <= j < i ==> #[trigger] p[j] is Some
        }),
    decreases i,
{
    if i > 0 {
        lemma_fill_prefix_slots(v, id, r0, max, (i - 1) as nat);
        let (p, r) = fill_prefix(v, id, r0, max, (i - 1) as nat);
        let (x, r2) = fill_one(v[i - 1], id, r, max);
        let pp = p.push(x);
        assert forall|j: int| 0 <= j < i && v[j] is Some implies #[trigger] pp[j] == v[j] by {
            if j < i - 1 { assert(pp[j] == p[j]); }
        }
        assert forall|j: int| 0 <= j < i && v[j] is None && pp[j] is Some implies
            holds(#[trigger] pp[j], id) && 1 <= qty_of(pp[j]) <= max && (r2 > 0 ==> qty_of(pp[j]) == max) by {
            if j < i - 1 { assert(pp[j] == p[j]); }
        }
        if r2 > 0 {
            assert forall|j: int| 0 <= j < i implies #[trigger] pp[j] is Some by {
                if j < i - 1 { assert(pp[j] == p[j]); }
            }
        }
    }
}

/// Adding keeps the inventory tidy: stacks of other items are untouched,
/// every stack of the item holds between 1 and `max`, and when something
/// is left over every slot is taken and every stack of the item is full.
pub proof fn law_try_add_keeps_stacks(v: Seq<SlotView>, id: Seq<char>, q: nat, max: nat)
    requires
        max >= 1,
        stacks_ok(v, id, max),
    ensures
        ({
            let (w, r) = try_add_result(v, id, q, max);
            &&& w.len() == v.len()
            &&& forall|j: int| 0 <= j < v.len() && v[j] is Some && !holds(v[j], id) ==> #[trigger] w[j] == v[j]
            &&& stacks_ok(w, id, max)
            &&& r > 0 ==> forall|j: int| 0 <= j < w.len() ==> #[trigger] w[j] is Some && (holds(w[j], id) ==> qty_of(w[j]) == max)
        }),
{
    let n = v.len();
    lemma_stack_prefix_slots(v, id, q, max, n);
    let (v1, r1) = stack_prefix(v, id, q, max, n);
    lemma_fill_prefix_slots(v1, id, r1, max, n);
    let (w, r) = fill_prefix(v1, id, r1, max, n);
    assert forall|j: int| 0 <= j < n && v1[j] is Some implies (v[j] is Some) by {
        if v[j] is None {
            assert(!holds(v[j], id));
        }
    }
    assert forall|j: int| 0 <= j < w.len() && holds(#[trigger] w[j], id) implies 1 <= qty_of(w[j]) <= max by {
        if v1[j] is Some {
            assert(w[j] == v1[j]);
            if !holds(v[j], id) {
                assert(v1[j] == v[j]);
            }
        }
    }
    if r > 0 {
        assert forall|j: int| 0 <= j < w.len() implies #[trigger] w[j] is Some && (holds(w[j], id) ==> qty_of(w[j]) == max) by {
            if v1[j] is Some {
                assert(w[j] == v1[j]);
                if !holds(v[j], id) {
                    assert(v1[j] == v[j]);
                }
            }
        }
    }
}

proof fn lemma_remove_prefix_slots(v: Seq<SlotView>, id: Seq<char>, r0: nat, i: nat)
    requires
        i <= v.len(),
        forall|j: int| 0 <= j < v.len() && holds(#[trigger] v[j], id) ==> qty_of(v[j]) >= 1,
    ensures
        ({
            let (p, r) = remove_prefix(v, id, r0, i);
            &&& p.len() == i
            &&& forall|j: int| 0 <= j < i && !holds(v[j], id) ==> #[trigger] p[j] == v[j]
            &&& forall|j: int| 0 <= j < i && holds(#[trigger] p[j], id) ==> qty_of(p[j]) >= 1
        }),
    decreases i,
{
    if i > 0 {
        lemma_remove_prefix_slots(v, id, r0, (i - 1) as nat);
        let (p, r) = remove_prefix(v, id, r0, (i - 1) as nat);
        let (x, r2) = remove_one(v[i - 1], id, r);
        let pp = p.push(x);
        assert(holds(v[i - 1], id) ==> qty_of(v[i - 1]) >= 1);
        assert forall|j: int| 0 <= j < i && !holds(v[j], id) implies #[trigger] pp[j] == v[j] by {
            if j < i - 1 { assert(pp[j] == p[j]); }
        }
        assert forall|j: int| 0 <= j < i && holds(#[trigger] pp[j], id) implies qty_of(pp[j]) >= 1 by {
            if j < i - 1 { assert(pp[j] == p[j]); }
        }
    }
}

/// Removing touches only stacks of the item and leaves no empty stack of
/// it behind: a stack taken down to nothing is cleared from its slot.
pub proof fn law_try_remove_keeps_stacks(v: Seq<SlotView>, id: Seq<char>, q: nat)
    requires
        forall|j: int| 0 <= j < v.len() && holds(#[trigger] v[j], id) ==> qty_of(v[j]) >= 1,
    ensures
        ({
            let (w, r) = try_remove_result(v, id, q);
            &&& w.len() == v.len()
            &&& forall|j: int| 0 <= j < v.len() && !holds(v[j], id) ==> #[trigger] w[j] == v[j]
            &&& forall|j: int| 0 <= j < w.len() && holds(#[trigger] w[j], id) ==> qty_of(w[j]) >= 1
        }),
{
    lemma_remove_prefix_slots(v, id, q, v.len());
}

/// Replacing one slot changes a total by the difference of the two slots.
pub proof fn lemma_count_update(s: Seq<SlotView>, i: int, x: SlotView, id: Seq<char>)
    requires
        0 <= i < s.len(),
    ensures
        count_view(s.update(i, x), id) + slot_qty(s[i], id) == count_view(s, id) + slot_qty(x, id),
    decreases s.len(),
{
    let t = s.update(i, x);
    if i == s.len() - 1 {
        assert(t.drop_last() =~= s.drop_last());
    } else {
        assert(t.drop_last() =~= s.drop_last().update(i, x));
        lemma_count_update(s.drop_last(), i, x, id);
    }
}

impl Default for Inventory {
    fn default() -> (inv: Self)
        ensures
            inv.slots.len() == TOTAL_INVENTORY_SLOTS,
            forall|j: int| 0 <= j < inv.slots.len() ==> #[trigger] inv.slots@[j] is None,
            inv.selected_slot == 0,
    {
        let mut slots: Vec<Option<InventorySlot>> = Vec::new();
        let mut i: usize = 0;
        while i < TOTAL_INVENTORY_SLOTS
            invariant
                i <= TOTAL_INVENTORY_SLOTS,
                slots.len() == i,
                forall|j: int| 0 <= j < slots.len() ==> #[trigger] slots@[j] is None,
            decreases TOTAL_INVENTORY_SLOTS - i,
        {
            slots.push(None);
            i += 1;
        }
        Inventory { slots, selected_slot: 0 }
    }
}

impl Inventory {

    /// Adds `quantity` of `item_id`, at most `max_stack` per slot. Existing
    /// stacks of the item are topped up first, in slot order; what is left
    /// opens new stacks in empty slots, in slot order. Returns the quantity
    /// that could not fit.
    pub fn try_add(&mut self, item_id: &str, quantity: u8, max_stack: u8) -> (leftover: u8)
        ensures
            ({
                let (v, r) = try_add_result(slots_view(old(self).slots@), item_id@, quantity as nat, max_stack as nat);
                &&& slots_view(final(self).slots@) == v
                &&& leftover == r
            }),
            count_view(slots_view(final(self).slots@), item_id@)
                == count_view(slots_view(old(self).slots@), item_id@) + quantity - leftover,
            forall|other: Seq<char>| other != item_id@ ==>
                #[trigger] count_view(slots_view(final(self).slots@), other) == count_view(slots_view(old(self).slots@), other),
            final(self).slots.len() == old(self).slots.len(),
            final(self).selected_slot == old(self).selected_slot,
    {
        let key = string_of(item_id);
        let ghost id = item_id@;
        let ghost v0 = slots_view(self.slots@);
        let ghost n = v0.len();
        let mut remaining: u8 = quantity;

        // First pass: top up existing stacks of the same item.
        let mut i: usize = 0;
        while i < self.slots.len()
            invariant
                key@ == id,
                n == self.slots.len(),
                v0.len() == n,
                i <= n,
                slots_view(self.slots@).take(i as int) == stack_prefix(v0, id, quantity as nat, max_stack as nat, i as nat).0,
                slots_view(self.slots@).skip(i as int) == v0.skip(i as int),
                remaining == stack_prefix(v0, id, quantity as nat, max_stack as nat, i as nat).1,
                self.selected_slot == old(self).selected_slot,
            decreases n - i,
        {
            let ghost before = slots_view(self.slots@);
            proof {
                assert(before.skip(i as int)[0] == v0.skip(i as int)[0]);
                assert(before[i as int] == v0[i as int]);
            }
            let (matches, q) = match &self.slots[i] {
                Some(s) => (s.item_id == key, s.quantity),
                None => (false, 0u8),
            };
            if matches && q < max_stack && remaining > 0 {
                let space = max_stack - q;
                let add = if remaining <= space { remaining } else { space };
                let slot = InventorySlot { item_id: key.clone(), quantity: q + add };
                self.slots.set(i, Some(slot));
                remaining = remaining - add;
            }
            proof {
                let after = slots_view(self.slots@);
                assert(after.take(i as int + 1) =~= before.take(i as int).push(after[i as int]));
                assert(after.skip(i as int + 1) =~= v0.skip(i as int + 1)) by {
                    assert forall|j: int| 0 <= j < after.skip(i as int + 1).len() implies
                        #[trigger] after.skip(i as int + 1)[j] == v0.skip(i as int + 1)[j] by {
                        assert(before.skip(i as int)[j + 1] == v0.skip(i as int)[j + 1]);
                    }
                }
            }
            i += 1;
        }
        let ghost v1 = slots_view(self.slots@);
        let ghost r1 = remaining as nat;
        proof {
            assert(v1.take(n as int) =~= v1);
        }

        // Second pass: open new stacks in empty slots.
        let mut i: usize = 0;
        while i < self.slots.len()
            invariant
                key@ == id,
                n == self.slots.len(),
                v1.len() == n,
                i <= n,
                slots_view(self.slots@).take(i as int) == fill_prefix(v1, id, r1, max_stack as nat, i as nat).0,
                slots_view(self.slots@).skip(i as int) == v1.skip(i as int),
                remaining == fill_prefix(v1, id, r1, max_stack as nat, i as nat).1,
                self.selected_slot == old(self).selected_slot,
            decreases n - i,
        {
            let ghost before = slots_view(self.slots@);
            proof {
                assert(before.skip(i as int)[0] == v1.skip(i as int)[0]);
                assert(before[i as int] == v1[i as int]);
            }
            if self.slots[i].is_none() && remaining > 0 {
                let add = if remaining <= max_stack { remaining } else { max_stack };
                let slot = InventorySlot { item_id: key.clone(), quantity: add };
                self.slots.set(i, Some(slot));
                remaining = remaining - add;
            }
            proof {
                let after = slots_view(self.slots@);
                assert(after.take(i as int + 1) =~= before.take(i as int).push(after[i as int]));
                assert(after.skip(i as int + 1) =~= v1.skip(i as int + 1)) by {
                    assert forall|j: int| 0 <= j < after.skip(i as int + 1).len() implies
                        #[trigger] after.skip(i as int + 1)[j] == v1.skip(i as int + 1)[j] by {
                        assert(before.skip(i as int)[j + 1] == v1.skip(i as int)[j + 1]);
                    }
                }
            }
            i += 1;
        }
        proof {
            assert(slots_view(self.slots@).take(n as int) =~= slots_view(self.slots@));
            law_try_add_conserves(v0, id, quantity as nat, max_stack as nat, id);
            assert forall|other: Seq<char>| other != id implies
                #[trigger] count_view(slots_view(self.slots@), other) == count_view(v0, other) by {
                law_try_add_conserves(v0, id, quantity as nat, max_stack as nat, other);
            }
        }
        remaining
    }


    /// How much of `quantity` would be left over by `try_add` with the same
    /// arguments, computed without changing the inventory.
    pub fn can_fit(&self, item_id: &str, quantity: u8, max_stack: u8) -> (leftover: u8)
        ensures
            leftover == try_add_result(slots_view(self.slots@), item_id@, quantity as nat, max_stack as nat).1,
    {
        let key = string_of(item_id);
        let ghost id = item_id@;
        let ghost v0 = slots_view(self.slots@);
        let ghost n = v0.len();
        let mut remaining: u8 = quantity;
        let mut i: usize = 0;
        while i < self.slots.len()
            invariant
                key@ == id,
                v0 == slots_view(self.slots@),
                n == self.slots.len(),
                i <= n,
                remaining == stack_prefix(v0, id, quantity as nat, max_stack as nat, i as nat).1,
            decreases n - i,
        {
            match &self.slots[i] {
                Some(s) => {
                    if s.item_id == key && s.quantity < max_stack {
                        let space = max_stack - s.quantity;
                        remaining = remaining.saturating_sub(space);
                    }
                }
                None => {}
            }
            i += 1;
        }
        let ghost v1 = stack_prefix(v0, id, quantity as nat, max_stack as nat, n).0;
        let ghost r1 = remaining as nat;
        proof {
            lemma_stack_prefix(v0, id, quantity as nat, max_stack as nat, n, id);
        }
        let mut i: usize = 0;
        while i < self.slots.len()
            invariant
                v0 == slots_view(self.slots@),
                n == self.slots.len(),
                v1.len() == n,
                forall|j: int| 0 <= j < n ==> (#[trigger] v1[j] is None <==> v0[j] is None),
                i <= n,
                remaining == fill_prefix(v1, id, r1, max_stack as nat, i as nat).1,
            decreases n - i,
        {
            proof {
                assert(v1[i as int] is None <==> v0[i as int] is None);
            }
            if self.slots[i].is_none() {
                remaining = remaining.saturating_sub(max_stack);
            }
            i += 1;
        }
        remaining
    }

    /// Removes up to `quantity` of `item_id`, taking from stacks in slot order
    /// and clearing slots that become empty. Returns how many were removed.
    pub fn try_remove(&mut self, item_id: &str, quantity: u8) -> (removed: u8)
        ensures
            ({
                let (v, r) = try_remove_result(slots_view(old(self).slots@), item_id@, quantity as nat);
                &&& slots_view(final(self).slots@) == v
                &&& removed == quantity - r
            }),
            removed == min_nat(quantity as nat, count_view(slots_view(old(self).slots@), item_id@)),
            count_view(slots_view(final(self).slots@), item_id@)
                == count_view(slots_view(old(self).slots@), item_id@) - removed,
            forall|other: Seq<char>| other != item_id@ ==>
                #[trigger] count_view(slots_view(final(self).slots@), other) == count_view(slots_view(old(self).slots@), other),
            final(self).slots.len() == old(self).slots.len(),
            final(self).selected_slot == old(self).selected_slot,
    {
        let key = string_of(item_id);
        let ghost id = item_id@;
        let ghost v0 = slots_view(self.slots@);
        let ghost n = v0.len();
        let mut remaining: u8 = quantity;
        let mut i: usize = 0;
        while i < self.slots.len()
            invariant
                key@ == id,
                n == self.slots.len(),
                v0.len() == n,
                i <= n,
                slots_view(self.slots@).take(i as int) == remove_prefix(v0, id, quantity as nat, i as nat).0,
                slots_view(self.slots@).skip(i as int) == v0.skip(i as int),
                remaining == remove_prefix(v0, id, quantity as nat, i as nat).1,
                self.selected_slot == old(self).selected_slot,
            decreases n - i,
        {
            let ghost before = slots_view(self.slots@);
            proof {
                assert(before.skip(i as int)[0] == v0.skip(i as int)[0]);
                assert(before[i as int] == v0[i as int]);
            }
            let (matches, q) = match &self.slots[i] {
                Some(s) => (s.item_id == key, s.quantity),
                None => (false, 0u8),
            };
            if matches && remaining > 0 {
                let take = if remaining <= q { remaining } else { q };
                let left = q - take;
                if left == 0 {
                    self.slots.set(i, None);
                } else {
                    let slot = InventorySlot { item_id: key.clone(), quantity: left };
                    self.slots.set(i, Some(slot));
                }
                remaining = remaining - take;
            }
            proof {
                let after = slots_view(self.slots@);
                assert(after.take(i as int + 1) =~= before.take(i as int).push(after[i as int]));
                assert(after.skip(i as int + 1) =~= v0.skip(i as int + 1)) by {
                    assert forall|j: int| 0 <= j < after.skip(i as int + 1).len() implies
                        #[trigger] after.skip(i as int + 1)[j] == v0.skip(i as int + 1)[j] by {
                        assert(before.skip(i as int)[j + 1] == v0.skip(i as int)[j + 1]);
                    }
                }
            }
            i += 1;
        }
        proof {
            assert(slots_view(self.slots@).take(n as int) =~= slots_view(self.slots@));
            law_try_remove_takes_min(v0, id, quantity as nat, id);
            assert forall|other: Seq<char>| other != id implies
                #[trigger] count_view(slots_view(self.slots@), other) == count_view(v0, other) by {
                law_try_remove_takes_min(v0, id, quantity as nat, other);
            }
        }
        quantity - remaining
    }

    /// Total quantity of `item_id` held across all slots.
    pub fn count(&self, item_id: &str) -> (r: u32)
        requires
            self.slots.len() <= max_count_slots(),
        ensures
            r == count_view(slots_view(self.slots@), item_id@),
    {
        let key = string_of(item_id);
        let ghost v = slots_view(self.slots@);
        let mut total: u32 = 0;
        let mut i: usize = 0;
        while i < self.slots.len()
            invariant
                v == slots_view(self.slots@),
                key@ == item_id@,
                i <= self.slots.len(),
                self.slots.len() <= max_count_slots(),
                total == count_view(v.take(i as int), item_id@),
            decreases self.slots.len() - i,
        {
            proof {
                lemma_take_succ(v, i as int);
                assert forall|j: int| 0 <= j < v.take(i as int).len() implies #[trigger] slot_qty(v.take(i as int)[j], item_id@) <= 255 by {
                    assert(v.take(i as int)[j] == slot_view(self.slots@[j]));
                }
                lemma_count_bound(v.take(i as int), item_id@);
            }
            match &self.slots[i] {
                Some(s) => {
                    if s.item_id == key {
                        total = total + s.quantity as u32;
                    }
                }
                None => {}
            }
            i += 1;
        }
        proof {
            assert(v.take(self.slots.len() as int) =~= v);
        }
        total
    }

    /// Whether at least `quantity` of `item_id` is held.
    pub fn has(&self, item_id: &str, quantity: u8) -> (r: bool)
        requires
            self.slots.len() <= max_count_slots(),
        ensures
            r == (count_view(slots_view(self.slots@), item_id@) >= quantity),
    {
        self.count(item_id) >= quantity as u32
    }
}

} // verus!
