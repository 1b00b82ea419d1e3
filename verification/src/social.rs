use vstd::prelude::*;
use crate::names::NameMap;
use crate::calendar::{Season, season_label, season_name};
use crate::menu::{MenuAction, step_list_cursor};
use crate::text::{
    decimal, push_decimal, push_str, string_of, str_le, law_str_le_antisymmetric, law_str_le_reflexive, texts_view,
    sorted_texts, insert_sorted,
};

verus! {

pub const FRIENDSHIP_PER_HEART: u32 = 100;
pub const MAX_HEARTS: u32 = 10;
pub const MAX_FRIENDSHIP: u32 = 1000;

/// Friendship with the townsfolk: points per NPC (0-1000, 100 per heart),
/// who was given a gift today, and the spouse if any.
#[derive(Debug, Clone)]
pub struct Relationships {
    pub friendship: NameMap<u32>,
    pub gifted_today: NameMap<bool>,
    pub spouse: Option<String>,
}

/// Friendship points with an NPC; an NPC never met has none.
pub open spec fn points_of(r: Relationships, npc: Seq<char>) -> u32 {
    match r.friendship.get_spec(npc) {
        Some(p) => p,
        None => 0,
    }
}

/// Hearts shown for a number of friendship points: one per full hundred,
/// at most ten.
pub open spec fn hearts_for(points: nat) -> nat {
    if points / 100 <= 10 { points / 100 } else { 10 }
}

/// `x` limited to the range `lo..=hi`.
pub open spec fn clamp_int(x: int, lo: int, hi: int) -> int {
    if x < lo { lo } else if x > hi { hi } else { x }
}

/// Friendship points stay within 0-1000 whatever is added or taken away,
/// so hearts never exceed ten.
pub proof fn law_friendship_bounded(points: int, amount: int)
    ensures
        0 <= clamp_int(points + amount, 0, 1000) <= 1000,
        hearts_for(clamp_int(points + amount, 0, 1000) as nat) <= 10,
{
}

impl Default for Relationships {
    fn default() -> (r: Self)
        ensures
            forall|k: Seq<char>| #[trigger] r.friendship.get_spec(k) is None,
            forall|k: Seq<char>| #[trigger] r.gifted_today.get_spec(k) is None,
            r.spouse is None,
    {
        Relationships { friendship: NameMap::new(), gifted_today: NameMap::new(), spouse: None }
    }
}

impl Relationships {
    pub fn hearts(&self, npc_id: &str) -> (h: u8)
        ensures
            h == hearts_for(points_of(*self, npc_id@) as nat),
    {
        let points: u32 = match self.friendship.get(npc_id) {
            Some(p) => *p,
            None => 0,
        };
        let h = points / 100;
        if h <= 10 { h as u8 } else { 10 }
    }

    /// Changes the friendship with an NPC by `amount`, keeping it in 0-1000.
    pub fn add_friendship(&mut self, npc_id: &str, amount: i32)
        requires
            i32::MIN <= (points_of(*old(self), npc_id@) as i32) + amount <= i32::MAX,
        ensures
            final(self).friendship.get_spec(npc_id@)
                == Some(clamp_int((points_of(*old(self), npc_id@) as i32) + amount, 0, 1000) as u32),
            forall|k: Seq<char>| k != npc_id@ ==>
                #[trigger] final(self).friendship.get_spec(k) == old(self).friendship.get_spec(k),
            final(self).gifted_today == old(self).gifted_today,
            final(self).spouse == old(self).spouse,
    {
        let cur: u32 = match self.friendship.get(npc_id) {
            Some(p) => *p,
            None => 0,
        };
        let sum: i32 = cur as i32 + amount;
        let clamped: i32 = if sum < 0 { 0 } else if sum > 1000 { 1000 } else { sum };
        self.friendship.insert(string_of(npc_id), clamped as u32);
    }
}

/// A row of hearts: one filled heart per heart earned, then empty hearts up
/// to ten.
pub open spec fn hearts_row(hearts: nat) -> Seq<char> {
    let empty: nat = if hearts <= 10 { (10 - hearts) as nat } else { 0 };
    Seq::new(hearts, |i: int| '♥') + Seq::new(empty, |i: int| '♡')
}

pub fn format_hearts(hearts: u8) -> (s: String)
    ensures
        s@ == hearts_row(hearts as nat),
{
    let mut s = String::new();
    let mut i: u8 = 0;
    while i < hearts
        invariant
            i <= hearts,
            s@ == Seq::new(i as nat, |j: int| '♥'),
        decreases hearts - i,
    {
        s.append("♥");
        i += 1;
        proof {
            reveal_strlit("♥"); assert(s@ =~= Seq::new(i as nat, |j: int| '♥')); }
    }
    let empty: u8 = if hearts <= 10 { 10 - hearts } else { 0 };
    let mut k: u8 = 0;
    while k < empty
        invariant
            k <= empty,
            s@ == Seq::new(hearts as nat, |j: int| '♥') + Seq::new(k as nat, |j: int| '♡'),
        decreases empty - k,
    {
        s.append("♡");
        k += 1;
        proof {
            reveal_strlit("♡");
            assert(s@ =~= Seq::new(hearts as nat, |j: int| '♥') + Seq::new(k as nat, |j: int| '♡'));
        }
    }
    s
}

/// The relationships screen: the cursor over the listed NPC ids.
#[derive(Debug, Clone)]
pub struct RelationshipsUiState {
    pub cursor: usize,
    pub npc_ids: Vec<String>,
}

/// One frame of navigation over the NPC list; returns whether the
/// selection moved.
pub fn relationships_navigation(state: &mut RelationshipsUiState, action: &MenuAction) -> (moved: bool)
    requires
        old(state).npc_ids.len() == 0 || old(state).cursor < old(state).npc_ids.len(),
    ensures
        final(state).npc_ids@ == old(state).npc_ids@,
        old(state).npc_ids.len() == 0 ==> !moved && final(state).cursor == old(state).cursor,
        old(state).npc_ids.len() > 0 ==> ({
            let c = old(state).cursor as int;
            let n = old(state).npc_ids.len() as int;
            let c1: int = if action.move_up && c > 0 { c - 1 } else { c };
            let c2: int = if action.move_down && c1 + 1 < n { c1 + 1 } else { c1 };
            &&& final(state).cursor == c2
            &&& moved == ((action.move_up && c > 0) || (action.move_down && c1 + 1 < n))
        }),
{
    let count = state.npc_ids.len();
    if count == 0 {
        return false;
    }
    step_list_cursor(&mut state.cursor, count, action.move_up, action.move_down)
}

/// `s` padded with spaces to at least `width` characters.
pub open spec fn padded(s: Seq<char>, width: nat) -> Seq<char> {
    if s.len() >= width { s } else { s + Seq::new((width - s.len()) as nat, |i: int| ' ') }
}

/// A row of the NPC list: the name in a 16-character column, the hearts,
/// and the heart count out of ten.
pub open spec fn npc_row(name: Seq<char>, hearts: nat) -> Seq<char> {
    padded(name, 16) + " "@ + hearts_row(hearts) + "  "@ + decimal(hearts) + "/10"@
}

pub fn npc_row_text(name: &str, hearts: u8) -> (s: String)
    ensures
        s@ == npc_row(name@, hearts as nat),
{
    let mut s = string_of(name);
    let n = name.unicode_len();
    let mut k: usize = n;
    while k < 16
        invariant
            n == name@.len(),
            n <= k <= 16 || (k == n && n >= 16),
            s@ == name@ + Seq::new((k - n) as nat, |i: int| ' '),
        decreases 16 - k,
    {
        push_str(&mut s, " ");
        proof {
            reveal_strlit(" ");
            assert(s@ =~= name@ + Seq::new((k + 1 - n) as nat, |i: int| ' '));
        }
        k = k + 1;
    }
    proof {
        if n >= 16 {
            assert(s@ =~= name@);
        } else {
            assert(k == 16);
        }
    }
    push_str(&mut s, " ");
    let hearts_text = format_hearts(hearts);
    push_str(&mut s, hearts_text.as_str());
    push_str(&mut s, "  ");
    push_decimal(&mut s, hearts as u64);
    push_str(&mut s, "/10");
    s
}

/// "Friendship: <points> pts (<hearts>/10 hearts)" for an NPC.
pub open spec fn friendship_text(points: nat) -> Seq<char> {
    "Friendship: "@ + decimal(points) + " pts ("@ + decimal(hearts_for(points)) + "/10 hearts)"@
}

pub fn friendship_line(relationships: &Relationships, npc_id: &str) -> (s: String)
    ensures
        s@ == friendship_text(points_of(*relationships, npc_id@) as nat),
{
    let hearts = relationships.hearts(npc_id);
    let points: u32 = match relationships.friendship.get(npc_id) {
        Some(p) => *p,
        None => 0,
    };
    let mut s = string_of("Friendship: ");
    push_decimal(&mut s, points as u64);
    push_str(&mut s, " pts (");
    push_decimal(&mut s, hearts as u64);
    push_str(&mut s, "/10 hearts)");
    s
}

/// "Birthday: <season> <day>".
pub fn birthday_line(season: Season, day: u8) -> (s: String)
    ensures
        s@ == "Birthday: "@ + season_label(season)@ + " "@ + decimal(day as nat),
{
    let mut s = string_of("Birthday: ");
    push_str(&mut s, season_name(season));
    push_str(&mut s, " ");
    push_decimal(&mut s, day as u64);
    s
}

/// How an NPC feels about a gift.
#[derive(Debug, Clone, Copy, PartialEq, Eq, Structural)]
pub enum GiftPreference {
    Loved,
    Liked,
    Neutral,
    Disliked,
    Hated,
}

/// The items an NPC loves, in the order its preferences list them.
pub open spec fn loved_items(prefs: Seq<(String, GiftPreference)>) -> Seq<Seq<char>>
    decreases prefs.len(),
{
    if prefs.len() == 0 {
        Seq::empty()
    } else if prefs.last().1 == GiftPreference::Loved {
        loved_items(prefs.drop_last()).push(prefs.last().0@)
    } else {
        loved_items(prefs.drop_last())
    }
}

/// Two lists in dictionary order holding the same texts, each as often,
/// are the same list: the order fixes the list.
pub proof fn law_sorted_texts_unique(a: Seq<Seq<char>>, b: Seq<Seq<char>>)
    requires
        sorted_texts(a),
        sorted_texts(b),
        a.to_multiset() == b.to_multiset(),
    ensures
        a == b,
    decreases a.len(),
{
    vstd::seq_lib::to_multiset_len(a);
    vstd::seq_lib::to_multiset_len(b);
    if a.len() == 0 {
        assert(a =~= b);
    } else {
        vstd::seq_lib::to_multiset_contains(a, a[0]);
        vstd::seq_lib::to_multiset_contains(b, a[0]);
        vstd::seq_lib::to_multiset_contains(a, b[0]);
        vstd::seq_lib::to_multiset_contains(b, b[0]);
        assert(a.contains(a[0])) by { assert(a[0] == a[0]); }
        assert(b.contains(b[0])) by { assert(b[0] == b[0]); }
        let j = choose|j: int| 0 <= j < b.len() && b[j] == a[0];
        let i = choose|i: int| 0 <= i < a.len() && a[i] == b[0];
        if j > 0 { assert(str_le(b[0], b[j])); } else { law_str_le_reflexive(b[0]); }
        if i > 0 { assert(str_le(a[0], a[i])); } else { law_str_le_reflexive(a[0]); }
        law_str_le_antisymmetric(a[0], b[0]);
        vstd::seq_lib::to_multiset_remove(a, 0);
        vstd::seq_lib::to_multiset_remove(b, 0);
        assert(a.remove(0) =~= a.drop_first());
        assert(b.remove(0) =~= b.drop_first());
        assert(sorted_texts(a.drop_first())) by {
            assert forall|x: int, y: int| 0 <= x < y < a.drop_first().len() implies
                str_le(#[trigger] a.drop_first()[x], #[trigger] a.drop_first()[y]) by {
                assert(a.drop_first()[x] == a[x + 1] && a.drop_first()[y] == a[y + 1]);
            }
        }
        assert(sorted_texts(b.drop_first())) by {
            assert forall|x: int, y: int| 0 <= x < y < b.drop_first().len() implies
                str_le(#[trigger] b.drop_first()[x], #[trigger] b.drop_first()[y]) by {
                assert(b.drop_first()[x] == b[x + 1] && b.drop_first()[y] == b[y + 1]);
            }
        }
        law_sorted_texts_unique(a.drop_first(), b.drop_first());
        assert(a =~= seq![a[0]] + a.drop_first());
        assert(b =~= seq![b[0]] + b.drop_first());
    }
}

/// The items an NPC loves, in dictionary order.
pub fn sorted_loved_items(prefs: &Vec<(String, GiftPreference)>) -> (v: Vec<String>)
    ensures
        sorted_texts(texts_view(v@)),
        texts_view(v@).to_multiset() == loved_items(prefs@).to_multiset(),
{
    let mut out: Vec<String> = Vec::new();
    let mut i: usize = 0;
    proof {
        assert(texts_view(out@) =~= Seq::<Seq<char>>::empty());
        assert(prefs@.take(0) =~= Seq::<(String, GiftPreference)>::empty());
        assert(Seq::<Seq<char>>::empty().to_multiset() =~= vstd::multiset::Multiset::empty()) by {
            broadcast use vstd::seq_lib::group_to_multiset_ensures;
        }
    }
    while i < prefs.len()
        invariant
            i <= prefs.len(),
            sorted_texts(texts_view(out@)),
            texts_view(out@).to_multiset() == loved_items(prefs@.take(i as int)).to_multiset(),
        decreases prefs.len() - i,
    {
        proof {
            assert(prefs@.take(i as int + 1).drop_last() =~= prefs@.take(i as int));
            assert(prefs@.take(i as int + 1).last() == prefs@[i as int]);
        }
        if prefs[i].1 == GiftPreference::Loved {
            let name = string_of(prefs[i].0.as_str());
            proof {
                vstd::seq_lib::to_multiset_build(loved_items(prefs@.take(i as int)), name@);
            }
            insert_sorted(&mut out, name);
        }
        i = i + 1;
    }
    proof {
        assert(prefs@.take(prefs.len() as int) =~= prefs@);
    }
    out
}

/// Texts joined with a separator between each two.
pub open spec fn join_texts(s: Seq<Seq<char>>, sep: Seq<char>) -> Seq<char>
    decreases s.len(),
{
    if s.len() == 0 {
        Seq::empty()
    } else if s.len() == 1 {
        s[0]
    } else {
        join_texts(s.drop_last(), sep) + sep + s.last()
    }
}

/// "Loves: " and the loved items in dictionary order, comma-separated.
pub open spec fn loves_text_ok(prefs: Seq<(String, GiftPreference)>, t: Seq<char>) -> bool {
    exists|s: Seq<Seq<char>>| #[trigger] sorted_texts(s)
        && s.to_multiset() == loved_items(prefs).to_multiset()
        && t == "Loves: "@ + join_texts(s, ", "@)
}

/// The "Loves: ..." line of an NPC's details; `None` when it loves nothing.
pub fn loves_line(prefs: &Vec<(String, GiftPreference)>) -> (r: Option<String>)
    ensures
        r is None <==> loved_items(prefs@).len() == 0,
        r matches Some(t) ==> loves_text_ok(prefs@, t@),
{
    let items = sorted_loved_items(prefs);
    proof {
        vstd::seq_lib::to_multiset_len(texts_view(items@));
        vstd::seq_lib::to_multiset_len(loved_items(prefs@));
    }
    if items.len() == 0 {
        return None;
    }
    let mut t = string_of("Loves: ");
    let mut i: usize = 0;
    while i < items.len()
        invariant
            1 <= items.len(),
            i <= items.len(),
            t@ == "Loves: "@ + join_texts(texts_view(items@).take(i as int), ", "@),
        decreases items.len() - i,
    {
        let ghost before = t@;
        if i > 0 {
            push_str(&mut t, ", ");
        }
        push_str(&mut t, items[i].as_str());
        proof {
            let s = texts_view(items@).take(i as int + 1);
            assert(s.drop_last() =~= texts_view(items@).take(i as int));
            assert(s.last() == items@[i as int]@);
            if i == 0 {
                assert(texts_view(items@).take(0).len() == 0);
                assert(t@ =~= "Loves: "@ + join_texts(s, ", "@));
            } else {
                assert(t@ =~= "Loves: "@ + join_texts(s, ", "@));
            }
        }
        i = i + 1;
    }
    proof {
        assert(texts_view(items@).take(items.len() as int) =~= texts_view(items@));
        assert(sorted_texts(texts_view(items@)));
    }
    Some(t)
}

/// What the relationships screen shows of an NPC besides its friendship.
#[derive(Debug, Clone)]
pub struct NpcProfile {
    pub name: String,
    pub birthday_season: Season,
    pub birthday_day: u8,
    pub gift_preferences: Vec<(String, GiftPreference)>,
    pub is_marriageable: bool,
}

/// The detail panel of the selected NPC, line by line: its name, birthday
/// and friendship; what it loves, when it loves anything; and
/// "Marriageable" for those who are.
pub fn npc_detail_lines(profile: &NpcProfile, relationships: &Relationships, npc_id: &str) -> (lines: Vec<String>)
    ensures
        ({
            let loves = loved_items(profile.gift_preferences@).len() > 0;
            let n: int = 3 + (if loves { 1int } else { 0int });
            &&& lines.len() == n + (if profile.is_marriageable { 1int } else { 0int })
            &&& lines@[0]@ == "SELECTED: "@ + profile.name@
            &&& lines@[1]@ == "Birthday: "@ + season_label(profile.birthday_season)@ + " "@ + decimal(profile.birthday_day as nat)
            &&& lines@[2]@ == friendship_text(points_of(*relationships, npc_id@) as nat)
            &&& loves ==> loves_text_ok(profile.gift_preferences@, lines@[3]@)
            &&& profile.is_marriageable ==> lines@[n]@ == "Marriageable"@
        }),
{
    let mut lines: Vec<String> = Vec::new();
    let mut head = string_of("SELECTED: ");
    push_str(&mut head, profile.name.as_str());
    lines.push(head);
    lines.push(birthday_line(profile.birthday_season, profile.birthday_day));
    lines.push(friendship_line(relationships, npc_id));
    match loves_line(&profile.gift_preferences) {
        Some(t) => lines.push(t),
        None => {},
    }
    if profile.is_marriageable {
        lines.push(string_of("Marriageable"));
    }
    lines
}

/// One heart per full hundred friendship points, at most ten: below 1000
/// points the hearts are the hundreds in the points (800 give 8), and from
/// 1000 on they are ten.
pub proof fn law_hearts_per_hundred(points: nat)
    ensures
        hearts_for(points) <= 10,
        points >= 1000 ==> hearts_for(points) == 10,
        points < 1000 ==> 100 * hearts_for(points) <= points < 100 * (hearts_for(points) + 1),
{
}

} // verus!
