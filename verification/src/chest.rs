use vstd::prelude::*;
use crate::farm::ItemQuality;
use crate::inventory::{Inventory, InventorySlot, SlotView, slot_view, slots_view, count_view,
    try_add_result, min_nat, law_try_add_conserves, lemma_count_update};
use crate::items::{ItemRegistry, max_stack_of};
use crate::shop::sell_name;
use crate::text::{decimal, push_decimal, push_str, string_of};
use vstd::utf8::{decode_utf8, encode_utf8, is_char_boundary};

verus! {

/// A quality-aware stack held in a storage chest.
#[derive(Debug, Clone)]
pub struct QualityStack {
    pub item_id: String,
    pub quantity: u8,
    pub quality: ItemQuality,
}

impl Default for QualityStack {
    fn default() -> (s: Self)
        ensures
            s.item_id@ == Seq::<char>::empty(),
            s.quantity == 0,
            s.quality == ItemQuality::Normal,
    {
        QualityStack { item_id: String::new(), quantity: 0, quality: ItemQuality::Normal }
    }
}

/// A storage chest placed on the farm.
#[derive(Debug)]
pub struct StorageChest {
    pub slots: Vec<Option<QualityStack>>,
    pub capacity: usize,
    pub grid_pos: (i32, i32),
}

impl Clone for StorageChest {
    fn clone(&self) -> (c: Self)
        ensures
            c.slots.len() == self.slots.len(),
            c.capacity == self.capacity,
            c.grid_pos == self.grid_pos,
    {
        StorageChest { slots: self.slots.clone(), capacity: self.capacity, grid_pos: self.grid_pos }
    }
}

impl StorageChest {
    pub fn new(capacity: usize, x: i32, y: i32) -> (c: Self)
        ensures
            c.slots.len() == capacity,
            forall|j: int| 0 <= j < capacity ==> #[trigger] c.slots@[j] is None,
            c.capacity == capacity,
            c.grid_pos == (x, y),
    {
        let mut slots: Vec<Option<QualityStack>> = Vec::new();
        let mut i: usize = 0;
        while i < capacity
            invariant
                i <= capacity,
                slots.len() == i,
                forall|j: int| 0 <= j < i ==> #[trigger] slots@[j] is None,
            decreases capacity - i,
        {
            slots.push(None);
            i += 1;
        }
        StorageChest { slots, capacity, grid_pos: (x, y) }
    }
}

/// What a chest slot holds: item id, quantity and quality.
pub type ChestView = Option<(Seq<char>, nat, ItemQuality)>;

pub open spec fn qview(o: Option<QualityStack>) -> ChestView {
    match o {
        Some(s) => Some((s.item_id@, s.quantity as nat, s.quality)),
        None => None,
    }
}

pub open spec fn chest_view(s: Seq<Option<QualityStack>>) -> Seq<ChestView> {
    s.map_values(|o: Option<QualityStack>| qview(o))
}

/// A chest slot seen as a plain stack, its quality set aside.
pub open spec fn plain(v: ChestView) -> SlotView {
    match v {
        Some((id, q, _)) => Some((id, q)),
        None => None,
    }
}

pub open spec fn plain_seq(s: Seq<ChestView>) -> Seq<SlotView> {
    s.map_values(|v: ChestView| plain(v))
}

/// Total quantity of an item in a chest, whatever its quality.
pub open spec fn chest_count(s: Seq<ChestView>, id: Seq<char>) -> nat {
    count_view(plain_seq(s), id)
}

/// A stack of the item in a chest slot takes as much as fits below 99.
pub open spec fn chest_stack_one(v: ChestView, id: Seq<char>, r: nat) -> (ChestView, nat) {
    match v {
        Some((sid, q, ql)) => {
            if sid == id && r > 0 {
                let space: nat = if q < 99 { (99 - q) as nat } else { 0 };
                let add = min_nat(r, space);
                (Some((sid, q + add, ql)), (r - add) as nat)
            } else {
                (v, r)
            }
        }
        None => (v, r),
    }
}

pub open spec fn chest_stack_prefix(v: Seq<ChestView>, id: Seq<char>, r0: nat, i: nat) -> (Seq<ChestView>, nat)
    decreases i,
{
    if i == 0 {
        (Seq::empty(), r0)
    } else {
        let (p, r) = chest_stack_prefix(v, id, r0, (i - 1) as nat);
        let (x, r2) = chest_stack_one(v[i - 1], id, r);
        (p.push(x), r2)
    }
}

/// Index of the first empty slot.
pub open spec fn first_empty(s: Seq<ChestView>) -> Option<nat>
    decreases s.len(),
{
    if s.len() == 0 {
        None
    } else if s[0] is None {
        Some(0)
    } else {
        match first_empty(s.drop_first()) {
            Some(k) => Some(k + 1),
            None => None,
        }
    }
}

/// Putting `q` of item `id` into a chest: top up the chest's stacks of the
/// item below 99 in slot order, then put whatever remains, as one normal
/// quality stack, into the first empty slot. The result is the new chest
/// and what did not fit.
pub open spec fn to_chest_result(c: Seq<ChestView>, id: Seq<char>, q: nat) -> (Seq<ChestView>, nat) {
    let (c1, r1) = chest_stack_prefix(c, id, q, c.len());
    if r1 > 0 {
        match first_empty(c1) {
            Some(k) => (c1.update(k as int, Some((id, r1, ItemQuality::Normal))), 0),
            None => (c1, r1),
        }
    } else {
        (c1, r1)
    }
}

proof fn lemma_take_succ_c(s: Seq<ChestView>, i: int)
    requires
        0 <= i < s.len(),
    ensures
        s.take(i + 1).drop_last() == s.take(i),
        s.take(i + 1).last() == s[i],
{
    assert(s.take(i + 1).drop_last() =~= s.take(i));
}

proof fn lemma_plain_push(s: Seq<ChestView>, x: ChestView)
    ensures
        plain_seq(s.push(x)) == plain_seq(s).push(plain(x)),
        plain_seq(s.push(x)).drop_last() == plain_seq(s),
{
    assert(plain_seq(s.push(x)) =~= plain_seq(s).push(plain(x)));
}

proof fn lemma_chest_stack_prefix(v: Seq<ChestView>, id: Seq<char>, r0: nat, i: nat, other: Seq<char>)
    requires
        i <= v.len(),
    ensures
        ({
            let (p, r) = chest_stack_prefix(v, id, r0, i);
            &&& p.len() == i
            &&& r <= r0
            &&& chest_count(p, id) + r == chest_count(v.take(i as int), id) + r0
            &&& other != id ==> chest_count(p, other) == chest_count(v.take(i as int), other)
            &&& forall|j: int| 0 <= j < i ==> (#[trigger] p[j] is None <==> v[j] is None)
        }),
    decreases i,
{
    if i > 0 {
        lemma_chest_stack_prefix(v, id, r0, (i - 1) as nat, other);
        lemma_take_succ_c(v, i - 1);
        let (p, r) = chest_stack_prefix(v, id, r0, (i - 1) as nat);
        let (x, r2) = chest_stack_one(v[i - 1], id, r);
        lemma_plain_push(p, x);
        lemma_plain_push(v.take(i - 1), v[i - 1]);
        assert(v.take(i - 1).push(v[i - 1]) =~= v.take(i as int));
        let pp = p.push(x);
        assert forall|j: int| 0 <= j < i implies (#[trigger] pp[j] is None <==> v[j] is None) by {
            if j < i - 1 {
                assert(pp[j] == p[j]);
            }
        }
    }
}

proof fn lemma_first_empty(s: Seq<ChestView>)
    ensures
        match first_empty(s) {
            Some(k) => k < s.len() && s[k as int] is None,
            None => forall|j: int| 0 <= j < s.len() ==> !(#[trigger] s[j] is None),
        },
    decreases s.len(),
{
    if s.len() > 0 && !(s[0] is None) {
        lemma_first_empty(s.drop_first());
        match first_empty(s.drop_first()) {
            Some(k) => {
                assert(s.drop_first()[k as int] == s[k as int + 1]);
            }
            None => {
                assert forall|j: int| 0 <= j < s.len() implies !(#[trigger] s[j] is None) by {
                    if j > 0 {
                        assert(s.drop_first()[j - 1] == s[j]);
                    }
                }
            }
        }
    }
}

proof fn lemma_plain_update(s: Seq<ChestView>, k: int, x: ChestView)
    requires
        0 <= k < s.len(),
    ensures
        plain_seq(s.update(k, x)) == plain_seq(s).update(k, plain(x)),
{
    assert(plain_seq(s.update(k, x)) =~= plain_seq(s).update(k, plain(x)));
}

/// Moving a stack into a chest loses no items: what the chest gains of the
/// item plus what did not fit equals the quantity moved, and no other item
/// in the chest changes.
pub proof fn law_to_chest_conserves(c: Seq<ChestView>, id: Seq<char>, q: nat, other: Seq<char>)
    ensures
        ({
            let (c2, r) = to_chest_result(c, id, q);
            &&& c2.len() == c.len()
            &&& r <= q
            &&& chest_count(c2, id) + r == chest_count(c, id) + q
            &&& other != id ==> chest_count(c2, other) == chest_count(c, other)
        }),
{
    let n = c.len();
    lemma_chest_stack_prefix(c, id, q, n, other);
    assert(c.take(n as int) =~= c);
    let (c1, r1) = chest_stack_prefix(c, id, q, n);
    if r1 > 0 {
        lemma_first_empty(c1);
        match first_empty(c1) {
            Some(k) => {
                let x: ChestView = Some((id, r1, ItemQuality::Normal));
                lemma_plain_update(c1, k as int, x);
                lemma_count_update(plain_seq(c1), k as int, plain(x), id);
                lemma_count_update(plain_seq(c1), k as int, plain(x), other);
            }
            None => {}
        }
    }
}

/// Moves the stack in inventory slot `idx` into the chest. What does not
/// fit stays in that inventory slot.
pub fn transfer_from_inventory_to_chest(idx: usize, inventory: &mut Inventory, chest: &mut StorageChest)
    ensures
        final(inventory).selected_slot == old(inventory).selected_slot,
        idx >= old(inventory).slots.len() || old(inventory).slots@[idx as int] is None ==> {
            &&& final(inventory).slots@ == old(inventory).slots@
            &&& chest_view(final(chest).slots@) == chest_view(old(chest).slots@)
        },
        idx < old(inventory).slots.len() && old(inventory).slots@[idx as int] is Some ==> ({
            let (id, q) = slot_view(old(inventory).slots@[idx as int]).unwrap();
            let (c2, r) = to_chest_result(chest_view(old(chest).slots@), id, q);
            &&& chest_view(final(chest).slots@) == c2
            &&& slots_view(final(inventory).slots@)
                == slots_view(old(inventory).slots@).update(idx as int, if r > 0 { Some((id, r)) } else { None })
        }),
        final(chest).capacity == old(chest).capacity,
        final(chest).grid_pos == old(chest).grid_pos,
        forall|x: Seq<char>| #[trigger] count_view(slots_view(final(inventory).slots@), x) + chest_count(chest_view(final(chest).slots@), x)
            == count_view(slots_view(old(inventory).slots@), x) + chest_count(chest_view(old(chest).slots@), x),
{
    if idx >= inventory.slots.len() {
        return;
    }
    let (key, qty) = match &inventory.slots[idx] {
        Some(s) => (s.item_id.clone(), s.quantity),
        None => return,
    };
    let ghost id = key@;
    let ghost c0 = chest_view(chest.slots@);
    let ghost n = c0.len();
    inventory.slots.set(idx, None);

    let mut remaining: u8 = qty;
    let mut i: usize = 0;
    while i < chest.slots.len()
        invariant
            key@ == id,
            n == chest.slots.len(),
            c0.len() == n,
            i <= n,
            chest_view(chest.slots@).take(i as int) == chest_stack_prefix(c0, id, qty as nat, i as nat).0,
            chest_view(chest.slots@).skip(i as int) == c0.skip(i as int),
            remaining == chest_stack_prefix(c0, id, qty as nat, i as nat).1,
            chest.capacity == old(chest).capacity,
            chest.grid_pos == old(chest).grid_pos,
        decreases n - i,
    {
        let ghost before = chest_view(chest.slots@);
        proof {
            assert(before.skip(i as int)[0] == c0.skip(i as int)[0]);
            assert(before[i as int] == c0[i as int]);
        }
        let (matches, q, ql) = match &chest.slots[i] {
            Some(s) => (s.item_id == key, s.quantity, s.quality),
            None => (false, 0u8, ItemQuality::Normal),
        };
        if matches && remaining > 0 {
            let space: u8 = 99u8.saturating_sub(q);
            let add = if remaining <= space { remaining } else { space };
            let stack = QualityStack { item_id: key.clone(), quantity: q + add, quality: ql };
            chest.slots.set(i, Some(stack));
            remaining = remaining - add;
        }
        proof {
            let after = chest_view(chest.slots@);
            assert(after.take(i as int + 1) =~= before.take(i as int).push(after[i as int]));
            assert(after.skip(i as int + 1) =~= c0.skip(i as int + 1)) by {
                assert forall|j: int| 0 <= j < after.skip(i as int + 1).len() implies
                    #[trigger] after.skip(i as int + 1)[j] == c0.skip(i as int + 1)[j] by {
                    assert(before.skip(i as int)[j + 1] == c0.skip(i as int)[j + 1]);
                }
            }
        }
        i += 1;
    }
    let ghost c1 = chest_view(chest.slots@);
    proof {
        assert(c1.take(n as int) =~= c1);
        lemma_first_empty(c1);
    }

    if remaining > 0 {
        let mut j: usize = 0;
        let mut placed = false;
        while j < chest.slots.len() && !placed
            invariant
                key@ == id,
                n == chest.slots.len(),
                c1.len() == n,
                j <= n,
                !placed ==> chest_view(chest.slots@) == c1,
                !placed ==> forall|t: int| 0 <= t < j ==> !(#[trigger] c1[t] is None),
                placed ==> first_empty(c1) is Some
                    && chest_view(chest.slots@) == c1.update(first_empty(c1).unwrap() as int, Some((id, remaining as nat, ItemQuality::Normal))),
                remaining > 0,
                chest.capacity == old(chest).capacity,
                chest.grid_pos == old(chest).grid_pos,
            decreases n - j + (if placed { 0int } else { 1int }),
        {
            if chest.slots[j].is_none() {
                proof {
                    assert(c1[j as int] == chest_view(chest.slots@)[j as int]);
                    lemma_first_empty_at(c1, j as int);
                }
                let stack = QualityStack { item_id: key.clone(), quantity: remaining, quality: ItemQuality::Normal };
                chest.slots.set(j, Some(stack));
                placed = true;
                proof {
                    assert(chest_view(chest.slots@) =~= c1.update(j as int, Some((id, remaining as nat, ItemQuality::Normal))));
                }
            } else {
                j += 1;
            }
        }
        if placed {
            remaining = 0;
        } else {
            proof {
                assert(j == n);
                if first_empty(c1) is Some {
                    let k = first_empty(c1).unwrap();
                    assert(!(c1[k as int] is None));
                }
            }
        }
    }

    if remaining > 0 {
        let slot = InventorySlot { item_id: key, quantity: remaining };
        inventory.slots.set(idx, Some(slot));
    }
    proof {
        let old_inv = slots_view(old(inventory).slots@);
        let target: SlotView = if remaining > 0 { Some((id, remaining as nat)) } else { None };
        assert(slots_view(inventory.slots@) =~= old_inv.update(idx as int, target));
        assert forall|x: Seq<char>| #[trigger] count_view(slots_view(inventory.slots@), x) + chest_count(chest_view(chest.slots@), x)
            == count_view(old_inv, x) + chest_count(c0, x) by {
            lemma_count_update(old_inv, idx as int, target, x);
            law_to_chest_conserves(c0, id, qty as nat, x);
        }
    }
}

/// Moves the chest stack in slot `idx` into the inventory, stacking at most
/// the item's registered stack size (99 when unknown). What does not fit
/// stays in the chest slot with its quality.
pub fn transfer_from_chest_to_inventory(idx: usize, chest: &mut StorageChest, inventory: &mut Inventory, item_registry: &ItemRegistry)
    ensures
        final(inventory).selected_slot == old(inventory).selected_slot,
        idx >= old(chest).slots.len() || old(chest).slots@[idx as int] is None ==> {
            &&& slots_view(final(inventory).slots@) == slots_view(old(inventory).slots@)
            &&& chest_view(final(chest).slots@) == chest_view(old(chest).slots@)
        },
        idx < old(chest).slots.len() && old(chest).slots@[idx as int] is Some ==> ({
            let (id, q, ql) = qview(old(chest).slots@[idx as int]).unwrap();
            let (w, r) = try_add_result(slots_view(old(inventory).slots@), id, q, max_stack_of(*item_registry, id) as nat);
            &&& slots_view(final(inventory).slots@) == w
            &&& chest_view(final(chest).slots@)
                == chest_view(old(chest).slots@).update(idx as int, if r > 0 { Some((id, r, ql)) } else { None })
        }),
        final(chest).capacity == old(chest).capacity,
        final(chest).grid_pos == old(chest).grid_pos,
        forall|x: Seq<char>| #[trigger] count_view(slots_view(final(inventory).slots@), x) + chest_count(chest_view(final(chest).slots@), x)
            == count_view(slots_view(old(inventory).slots@), x) + chest_count(chest_view(old(chest).slots@), x),
{
    if idx >= chest.slots.len() {
        return;
    }
    let (key, qty, quality) = match &chest.slots[idx] {
        Some(s) => (s.item_id.clone(), s.quantity, s.quality),
        None => return,
    };
    let ghost id = key@;
    let ghost c0 = chest_view(chest.slots@);
    let ghost inv0 = slots_view(inventory.slots@);
    chest.slots.set(idx, None);
    let max_stack = item_registry.max_stack(key.as_str());
    let remaining = inventory.try_add(key.as_str(), qty, max_stack);
    if remaining > 0 {
        let stack = QualityStack { item_id: key, quantity: remaining, quality };
        chest.slots.set(idx, Some(stack));
    }
    proof {
        let target: ChestView = if remaining > 0 { Some((id, remaining as nat, quality)) } else { None };
        assert(chest_view(chest.slots@) =~= c0.update(idx as int, target));
        assert forall|x: Seq<char>| #[trigger] count_view(slots_view(inventory.slots@), x) + chest_count(chest_view(chest.slots@), x)
            == count_view(inv0, x) + chest_count(c0, x) by {
            lemma_plain_update(c0, idx as int, target);
            lemma_count_update(plain_seq(c0), idx as int, plain(target), x);
            law_try_add_conserves(inv0, id, qty as nat, max_stack as nat, x);
        }
    }
}

proof fn lemma_first_empty_at(s: Seq<ChestView>, j: int)
    requires
        0 <= j < s.len(),
        s[j] is None,
        forall|t: int| 0 <= t < j ==> !(#[trigger] s[t] is None),
    ensures
        first_empty(s) == Some(j as nat),
    decreases j,
{
    if j > 0 {
        assert forall|t: int| 0 <= t < j - 1 implies !(#[trigger] s.drop_first()[t] is None) by {
            assert(s.drop_first()[t] == s[t + 1]);
        }
        assert(!(s[0] is None));
        lemma_first_empty_at(s.drop_first(), j - 1);
    }
}

/// The chest screen: which panel has the cursor (the chest's or the
/// inventory's) and the slot under it.
#[derive(Debug, Clone, Copy)]
pub struct ChestUiState {
    pub on_chest_side: bool,
    pub cursor: usize,
}

/// Slots shown per panel.
pub const VISIBLE_SLOTS: usize = 12;

/// The cursor after the panel switch and the arrows: switching panels puts
/// it on the first slot; up and down move it within the 12 visible slots.
pub open spec fn chest_cursor_after(s: ChestUiState, switch: bool, up: bool, down: bool) -> ChestUiState {
    let side = if switch { !s.on_chest_side } else { s.on_chest_side };
    let c0: int = if switch { 0 } else { s.cursor as int };
    let c1: int = if up && c0 > 0 { c0 - 1 } else { c0 };
    let c2: int = if down && c1 < 11 { c1 + 1 } else { c1 };
    ChestUiState { on_chest_side: side, cursor: c2 as usize }
}

/// One frame of the chest screen: the switch key (ui_left) changes panels,
/// up and down move the cursor, and confirm moves the stack under the
/// cursor to the other side. Returns whether a transfer was attempted (the
/// pickup sound plays).
pub fn handle_chest_input(state: &mut ChestUiState, input: &crate::menu::PlayerInput, inventory: &mut Inventory, chest: &mut StorageChest, item_registry: &ItemRegistry) -> (moved: bool)
    ensures
        *final(state) == chest_cursor_after(*old(state), input.ui_left, input.ui_up, input.ui_down),
        moved == input.ui_confirm,
        !input.ui_confirm ==> final(inventory).slots@ == old(inventory).slots@
            && final(chest).slots@ == old(chest).slots@,
        forall|x: Seq<char>| #[trigger] count_view(slots_view(final(inventory).slots@), x) + chest_count(chest_view(final(chest).slots@), x)
            == count_view(slots_view(old(inventory).slots@), x) + chest_count(chest_view(old(chest).slots@), x),
        final(inventory).selected_slot == old(inventory).selected_slot,
{
    if input.ui_left {
        state.on_chest_side = !state.on_chest_side;
        state.cursor = 0;
    }
    if input.ui_up && state.cursor > 0 {
        state.cursor = state.cursor - 1;
    }
    if input.ui_down && state.cursor < VISIBLE_SLOTS - 1 {
        state.cursor = state.cursor + 1;
    }
    if input.ui_confirm {
        let idx = state.cursor;
        if state.on_chest_side {
            transfer_from_chest_to_inventory(idx, chest, inventory, item_registry);
        } else {
            transfer_from_inventory_to_chest(idx, inventory, chest);
        }
        return true;
    }
    false
}

/// A name as the chest screen shows it: one longer than 20 bytes is cut
/// after its 17th byte and given "...".
pub open spec fn cut_name(name: Seq<char>) -> Seq<char> {
    if encode_utf8(name).len() > 20 {
        decode_utf8(encode_utf8(name).subrange(0, 17)) + "..."@
    } else {
        name
    }
}

/// A long name can be cut after its 17th byte only between two characters.
pub open spec fn cuttable(name: Seq<char>) -> bool {
    encode_utf8(name).len() > 20 ==> is_char_boundary(encode_utf8(name), 17)
}

fn cut_name_text(name: &str) -> (s: String)
    requires
        cuttable(name@),
    ensures
        s@ == cut_name(name@),
{
    if name.as_bytes().len() > 20 {
        let (head, _) = name.split_at(17);
        proof {
            vstd::utf8::encode_utf8_decode_utf8(head@);
        }
        let mut s = string_of(head);
        push_str(&mut s, "...");
        s
    } else {
        string_of(name)
    }
}

/// The mark of an item's quality after its name.
pub open spec fn quality_suffix(q: ItemQuality) -> Seq<char> {
    match q {
        ItemQuality::Normal => ""@,
        ItemQuality::Silver => " [S]"@,
        ItemQuality::Gold => " [G]"@,
        ItemQuality::Iridium => " [I]"@,
    }
}

fn quality_mark(q: ItemQuality) -> (s: &'static str)
    ensures
        s@ == quality_suffix(q),
{
    match q {
        ItemQuality::Normal => "",
        ItemQuality::Silver => " [S]",
        ItemQuality::Gold => " [G]",
        ItemQuality::Iridium => " [I]",
    }
}

/// A chest slot's line: the item's (cut) name, its quality mark and "x" with
/// the count; "---" for an empty slot or one past the end.
pub open spec fn chest_slot_line(slots: Seq<Option<QualityStack>>, idx: int, reg: ItemRegistry) -> Seq<char> {
    if 0 <= idx < slots.len() && slots[idx] is Some {
        let st = slots[idx]->0;
        cut_name(sell_name(reg, st.item_id@)) + quality_suffix(st.quality) + " x"@ + decimal(st.quantity as nat)
    } else {
        "---"@
    }
}

pub fn chest_slot_text(chest: &StorageChest, idx: usize, item_registry: &ItemRegistry) -> (s: String)
    requires
        idx < chest.slots.len() && chest.slots@[idx as int] is Some ==>
            cuttable(sell_name(*item_registry, chest.slots@[idx as int]->0.item_id@)),
    ensures
        s@ == chest_slot_line(chest.slots@, idx as int, *item_registry),
{
    if idx >= chest.slots.len() {
        return string_of("---");
    }
    match &chest.slots[idx] {
        None => string_of("---"),
        Some(stack) => {
            let mut s = match item_registry.get(stack.item_id.as_str()) {
                Some(def) => cut_name_text(def.name.as_str()),
                None => cut_name_text(stack.item_id.as_str()),
            };
            push_str(&mut s, quality_mark(stack.quality));
            push_str(&mut s, " x");
            push_decimal(&mut s, stack.quantity as u64);
            s
        },
    }
}

/// An inventory slot's line on the chest screen: the item's (cut) name and
/// "x" with the count; "---" for an empty slot or one past the end.
pub open spec fn chest_inv_line(slots: Seq<Option<InventorySlot>>, idx: int, reg: ItemRegistry) -> Seq<char> {
    if 0 <= idx < slots.len() && slots[idx] is Some {
        let st = slots[idx]->0;
        cut_name(sell_name(reg, st.item_id@)) + " x"@ + decimal(st.quantity as nat)
    } else {
        "---"@
    }
}

pub fn chest_inv_slot_text(inventory: &Inventory, idx: usize, item_registry: &ItemRegistry) -> (s: String)
    requires
        idx < inventory.slots.len() && inventory.slots@[idx as int] is Some ==>
            cuttable(sell_name(*item_registry, inventory.slots@[idx as int]->0.item_id@)),
    ensures
        s@ == chest_inv_line(inventory.slots@, idx as int, *item_registry),
{
    if idx >= inventory.slots.len() {
        return string_of("---");
    }
    match &inventory.slots[idx] {
        None => string_of("---"),
        Some(slot) => {
            let mut s = match item_registry.get(slot.item_id.as_str()) {
                Some(def) => cut_name_text(def.name.as_str()),
                None => cut_name_text(slot.item_id.as_str()),
            };
            push_str(&mut s, " x");
            push_decimal(&mut s, slot.quantity as u64);
            s
        },
    }
}

} // verus!
