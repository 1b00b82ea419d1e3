use vstd::prelude::*;
use crate::world::{MapId, MapEdges, MapData, MapTransition, DoorTrigger, EdgeTarget, MapRegistry, map_index, map_index_of, map_at, map_from_index, lemma_map_at_index, MAP_COUNT};

verus! {

/// The maps an edge table leads to, in north, south, east, west order.
pub open spec fn edge_maps(e: MapEdges) -> Seq<MapId> {
    opt_map(e.north) + opt_map(e.south) + opt_map(e.east) + opt_map(e.west)
}

/// Every map a map's data leads to, with repeats: zone transitions, then
/// doors, then edges.
pub open spec fn link_seq(d: MapData) -> Seq<MapId> {
    d.transitions@.map_values(|t: MapTransition| t.to_map)
        + d.doors@.map_values(|x: DoorTrigger| x.to_map)
        + edge_maps(d.edges)
}

/// `s` without repeats, each element kept at its first occurrence.
pub open spec fn dedup(s: Seq<MapId>) -> Seq<MapId>
    decreases s.len(),
{
    if s.len() == 0 {
        s
    } else {
        let p = dedup(s.drop_last());
        if p.contains(s.last()) { p } else { p.push(s.last()) }
    }
}

proof fn lemma_dedup_contains(s: Seq<MapId>, x: MapId)
    ensures
        dedup(s).contains(x) <==> s.contains(x),
    decreases s.len(),
{
    if s.len() > 0 {
        lemma_dedup_contains(s.drop_last(), x);
        let p = dedup(s.drop_last());
        if s.drop_last().contains(x) {
            let k = choose|k: int| 0 <= k < s.drop_last().len() && s.drop_last()[k] == x;
            assert(s[k] == x);
        }
        if s.contains(x) {
            let k = choose|k: int| 0 <= k < s.len() && s[k] == x;
            if k < s.len() - 1 {
                assert(s.drop_last()[k] == x);
            }
        }
        if p.contains(s.last()) {
        } else {
            assert(p.push(s.last())[p.len() as int] == s.last());
            if p.contains(x) {
                let k = choose|k: int| 0 <= k < p.len() && p[k] == x;
                assert(p.push(s.last())[k] == x);
            }
            if p.push(s.last()).contains(x) {
                let k = choose|k: int| 0 <= k < p.len() + 1 && p.push(s.last())[k] == x;
                if k < p.len() {
                    assert(p[k] == x);
                }
            }
        }
    }
}

fn vec_contains(v: &Vec<MapId>, m: MapId) -> (r: bool)
    ensures
        r == v@.contains(m),
{
    let mut i: usize = 0;
    while i < v.len()
        invariant
            i <= v@.len(),
            forall|j: int| 0 <= j < i ==> v@[j] != m,
        decreases v@.len() - i,
    {
        if v[i] == m {
            return true;
        }
        i += 1;
    }
    false
}

pub fn push_unique_map(maps: &mut Vec<MapId>, map_id: MapId)
    ensures
        final(maps)@ == if old(maps)@.contains(map_id) { old(maps)@ } else { old(maps)@.push(map_id) },
{
    if !vec_contains(maps, map_id) {
        maps.push(map_id);
    }
}

/// The map an optional edge leads to, as a sequence of zero or one maps.
pub open spec fn opt_map(o: Option<(MapId, EdgeTarget)>) -> Seq<MapId> {
    if o is Some { seq![o.unwrap().0] } else { Seq::<MapId>::empty() }
}

fn push_edge_link(links: &mut Vec<MapId>, o: Option<(MapId, EdgeTarget)>, Ghost(s): Ghost<Seq<MapId>>)
    requires
        old(links)@ == dedup(s),
    ensures
        final(links)@ == dedup(s + opt_map(o)),
{
    if let Some((m, _)) = o {
        push_unique_map(links, m);
        proof {
            let t = s + opt_map(o);
            assert(t.drop_last() =~= s);
            assert(t.last() == m);
        }
    } else {
        proof { assert(s + opt_map(o) =~= s); }
    }
}

/// The distinct maps that a map's data leads to, in order of first mention.
pub fn linked_maps(map_data: &MapData) -> (r: Vec<MapId>)
    ensures
        r@ == dedup(link_seq(*map_data)),
{
    let ghost tseq = map_data.transitions@.map_values(|t: MapTransition| t.to_map);
    let ghost dseq = map_data.doors@.map_values(|x: DoorTrigger| x.to_map);
    let mut links: Vec<MapId> = Vec::new();
    let mut i: usize = 0;
    while i < map_data.transitions.len()
        invariant
            i <= map_data.transitions@.len(),
            tseq == map_data.transitions@.map_values(|t: MapTransition| t.to_map),
            links@ == dedup(tseq.take(i as int)),
        decreases map_data.transitions@.len() - i,
    {
        push_unique_map(&mut links, map_data.transitions[i].to_map);
        proof { assert(tseq.take(i as int + 1).drop_last() =~= tseq.take(i as int)); }
        i += 1;
    }
    proof { assert(tseq.take(i as int) =~= tseq); }
    let mut j: usize = 0;
    while j < map_data.doors.len()
        invariant
            j <= map_data.doors@.len(),
            tseq.len() == map_data.transitions@.len(),
            dseq == map_data.doors@.map_values(|x: DoorTrigger| x.to_map),
            links@ == dedup(tseq + dseq.take(j as int)),
        decreases map_data.doors@.len() - j,
    {
        push_unique_map(&mut links, map_data.doors[j].to_map);
        proof { assert((tseq + dseq.take(j as int + 1)).drop_last() =~= tseq + dseq.take(j as int)); }
        j += 1;
    }
    proof { assert(dseq.take(j as int) =~= dseq); }
    let ghost base = tseq + dseq;
    let e = map_data.edges;
    push_edge_link(&mut links, e.north, Ghost(base));
    push_edge_link(&mut links, e.south, Ghost(base + opt_map(e.north)));
    push_edge_link(&mut links, e.east, Ghost(base + opt_map(e.north) + opt_map(e.south)));
    push_edge_link(&mut links, e.west, Ghost(base + opt_map(e.north) + opt_map(e.south) + opt_map(e.east)));
    let ghost s4 = base + opt_map(e.north) + opt_map(e.south) + opt_map(e.east) + opt_map(e.west);
    proof { assert(s4 =~= link_seq(*map_data)); }
    links
}

/// Map `a` lists `b` among the maps its data leads to.
pub open spec fn linked(maps: Seq<(MapId, MapData)>, a: MapId, b: MapId) -> bool {
    exists|i: int| 0 <= i < maps.len() && maps[i].0 == a && #[trigger] link_seq(maps[i].1).contains(b)
}

/// Two maps are neighbours when either one's data leads to the other.
pub open spec fn adjacent(maps: Seq<(MapId, MapData)>, a: MapId, b: MapId) -> bool {
    linked(maps, a, b) || linked(maps, b, a)
}

/// The cell of the pair (a, b) in a 16 × 16 adjacency table.
pub open spec fn cell(a: MapId, b: MapId) -> int {
    (map_index(a) * 16 + map_index(b)) as int
}

pub open spec fn adjacency_is(adj: Seq<bool>, maps: Seq<(MapId, MapData)>) -> bool {
    &&& adj.len() == 256
    &&& forall|a: MapId, b: MapId| #[trigger] adj[cell(a, b)] == adjacent(maps, a, b)
}

/// Pairs linked through the first `n` registry entries, the last of them
/// only through its first `j` links.
spec fn linked_partial(maps: Seq<(MapId, MapData)>, a: MapId, b: MapId, n: int, j: int) -> bool {
    (exists|i: int| 0 <= i < n && maps[i].0 == a && #[trigger] link_seq(maps[i].1).contains(b))
        || (0 <= n < maps.len() && maps[n].0 == a && dedup(link_seq(maps[n].1)).take(j).contains(b))
}

proof fn lemma_cell_unique(a: MapId, b: MapId, c: MapId, d: MapId)
    ensures
        cell(a, b) == cell(c, d) <==> (a == c && b == d),
        0 <= cell(a, b) < 256,
{
    lemma_map_at_index(a);
    lemma_map_at_index(b);
    lemma_map_at_index(c);
    lemma_map_at_index(d);
}

/// The neighbour table of the registry's maps, as a 16 × 16 table indexed
/// by `cell`: a pair is marked when either map's data leads to the other.
pub fn build_map_adjacency(map_registry: &MapRegistry) -> (adj: Vec<bool>)
    ensures
        adjacency_is(adj@, map_registry.maps@),
{
    let ghost maps = map_registry.maps@;
    let mut adj: Vec<bool> = Vec::new();
    let mut k: usize = 0;
    while k < 256
        invariant
            k <= 256,
            adj@.len() == k,
            forall|t: int| 0 <= t < k ==> !(#[trigger] adj@[t]),
        decreases 256 - k,
    {
        adj.push(false);
        k += 1;
    }
    let mut i: usize = 0;
    while i < map_registry.maps.len()
        invariant
            maps == map_registry.maps@,
            i <= maps.len(),
            adj@.len() == 256,
            forall|a: MapId, b: MapId| #[trigger] adj@[cell(a, b)]
                == (linked_partial(maps, a, b, i as int, 0) || linked_partial(maps, b, a, i as int, 0)),
        decreases maps.len() - i,
    {
        let a = map_registry.maps[i].0;
        let links = linked_maps(&map_registry.maps[i].1);
        let ai = map_index_of(a);
        let mut j: usize = 0;
        while j < links.len()
            invariant
                maps == map_registry.maps@,
                i < maps.len(),
                a == maps[i as int].0,
                ai == map_index(a),
                links@ == dedup(link_seq(maps[i as int].1)),
                j <= links@.len(),
                adj@.len() == 256,
                forall|x: MapId, y: MapId| #[trigger] adj@[cell(x, y)]
                    == (linked_partial(maps, x, y, i as int, j as int) || linked_partial(maps, y, x, i as int, j as int)),
            decreases links@.len() - j,
        {
            let b = links[j];
            let bi = map_index_of(b);
            adj.set(ai * 16 + bi, true);
            adj.set(bi * 16 + ai, true);
            proof {
                assert(links@.take(j as int + 1) =~= links@.take(j as int).push(b));
                assert forall|x: MapId, y: MapId| #[trigger] adj@[cell(x, y)]
                    == (linked_partial(maps, x, y, i as int, j as int + 1) || linked_partial(maps, y, x, i as int, j as int + 1)) by {
                    lemma_cell_unique(x, y, a, b);
                    lemma_cell_unique(x, y, b, a);
                    if links@.take(j as int).contains(y) {
                        let t = choose|t: int| 0 <= t < links@.take(j as int).len() && #[trigger] links@.take(j as int)[t] == y;
                        assert(links@.take(j as int + 1)[t] == y);
                    }
                    if links@.take(j as int).contains(x) {
                        let t = choose|t: int| 0 <= t < links@.take(j as int).len() && #[trigger] links@.take(j as int)[t] == x;
                        assert(links@.take(j as int + 1)[t] == x);
                    }
                    assert(links@.take(j as int + 1)[j as int] == b);
                    if links@.take(j as int + 1).contains(y) && y != b {
                        let t = choose|t: int| 0 <= t < links@.take(j as int + 1).len() && #[trigger] links@.take(j as int + 1)[t] == y;
                        assert(links@.take(j as int)[t] == y);
                    }
                    if links@.take(j as int + 1).contains(x) && x != b {
                        let t = choose|t: int| 0 <= t < links@.take(j as int + 1).len() && #[trigger] links@.take(j as int + 1)[t] == x;
                        assert(links@.take(j as int)[t] == x);
                    }
                }
            }
            j += 1;
        }
        proof {
            assert(links@.take(links@.len() as int) =~= links@);
            assert forall|x: MapId, y: MapId| #[trigger] adj@[cell(x, y)]
                == (linked_partial(maps, x, y, i as int + 1, 0) || linked_partial(maps, y, x, i as int + 1, 0)) by {
                lemma_dedup_contains(link_seq(maps[i as int].1), y);
                lemma_dedup_contains(link_seq(maps[i as int].1), x);
                assert(dedup(link_seq(maps[i as int].1)).take(0).len() == 0);
                if i + 1 < maps.len() {
                    assert(dedup(link_seq(maps[i as int + 1].1)).take(0) =~= Seq::<MapId>::empty());
                }
            }
        }
        i += 1;
    }
    proof {
        assert forall|a: MapId, b: MapId| #[trigger] adj@[cell(a, b)] == adjacent(maps, a, b) by {
            assert(!linked_partial(maps, a, b, i as int, 0) || linked(maps, a, b));
        }
    }
    adj
}

/// Step `i` of the walk `p` goes between neighbouring maps.
pub open spec fn step_ok(maps: Seq<(MapId, MapData)>, p: Seq<MapId>, i: int) -> bool {
    adjacent(maps, p[i], p[i + 1])
}

/// A non-empty sequence of maps, each a neighbour of the one before.
pub open spec fn is_walk(maps: Seq<(MapId, MapData)>, p: Seq<MapId>) -> bool {
    &&& p.len() >= 1
    &&& forall|i: int| 0 <= i < p.len() - 1 ==> #[trigger] step_ok(maps, p, i)
}

/// `m` can be reached from `start` by walking between neighbouring maps.
pub open spec fn reachable(maps: Seq<(MapId, MapData)>, start: MapId, m: MapId) -> bool {
    exists|p: Seq<MapId>| #[trigger] is_walk(maps, p) && p[0] == start && p.last() == m
}

spec fn count_true(s: Seq<bool>) -> nat
    decreases s.len(),
{
    if s.len() == 0 { 0 } else { count_true(s.drop_last()) + if s.last() { 1nat } else { 0nat } }
}

proof fn lemma_count_true_le(s: Seq<bool>)
    ensures
        count_true(s) <= s.len(),
    decreases s.len(),
{
    if s.len() > 0 {
        lemma_count_true_le(s.drop_last());
    }
}

proof fn lemma_count_true_set(s: Seq<bool>, i: int)
    requires
        0 <= i < s.len(),
        !s[i],
    ensures
        count_true(s.update(i, true)) == count_true(s) + 1,
    decreases s.len(),
{
    let t = s.update(i, true);
    if i == s.len() - 1 {
        assert(t.drop_last() =~= s.drop_last());
    } else {
        assert(t.drop_last() =~= s.drop_last().update(i, true));
        lemma_count_true_set(s.drop_last(), i);
    }
}

proof fn lemma_walk_extend(maps: Seq<(MapId, MapData)>, start: MapId, m: MapId, b: MapId)
    requires
        reachable(maps, start, m),
        adjacent(maps, m, b),
    ensures
        reachable(maps, start, b),
{
    let p = choose|p: Seq<MapId>| #[trigger] is_walk(maps, p) && p[0] == start && p.last() == m;
    let q = p.push(b);
    assert forall|i: int| 0 <= i < q.len() - 1 implies #[trigger] step_ok(maps, q, i) by {
        if i < p.len() - 1 {
            assert(step_ok(maps, p, i));
        }
    }
    assert(is_walk(maps, q));
}

proof fn lemma_closed_contains_walks(maps: Seq<(MapId, MapData)>, set: Seq<MapId>, p: Seq<MapId>)
    requires
        is_walk(maps, p),
        set.contains(p[0]),
        forall|u: MapId, b: MapId| set.contains(u) && #[trigger] adjacent(maps, u, b) ==> set.contains(b),
    ensures
        set.contains(p.last()),
    decreases p.len(),
{
    if p.len() > 1 {
        let q = p.drop_last();
        assert forall|i: int| 0 <= i < q.len() - 1 implies #[trigger] step_ok(maps, q, i) by {
            assert(step_ok(maps, p, i));
        }
        lemma_closed_contains_walks(maps, set, q);
        assert(step_ok(maps, p, p.len() - 2));
    }
}

spec fn pending_has(pending: Seq<MapId>, head: int, x: MapId) -> bool {
    exists|k: int| head <= k < pending.len() && #[trigger] pending[k] == x
}

/// The maps reachable from `start` through the registry's neighbour links,
/// found breadth first; each map appears once, in the order visited.
pub fn reachable_world_maps(start: MapId, map_registry: &MapRegistry) -> (r: Vec<MapId>)
    ensures
        forall|m: MapId| #[trigger] r@.contains(m) <==> reachable(map_registry.maps@, start, m),
        r@.no_duplicates(),
{
    let ghost maps = map_registry.maps@;
    let adj = build_map_adjacency(map_registry);
    let mut visited: Vec<bool> = Vec::new();
    let mut k: usize = 0;
    while k < MAP_COUNT
        invariant
            k <= MAP_COUNT,
            visited@.len() == k,
            forall|t: int| 0 <= t < k ==> !(#[trigger] visited@[t]),
        decreases MAP_COUNT - k,
    {
        visited.push(false);
        k += 1;
    }
    proof {
        assert(count_true(visited@) == 0) by {
            let z = visited@;
            assert forall|n: nat| n <= z.len() implies #[trigger] count_true(z.take(n as int)) == 0 by {
                lemma_count_prefix_zero(z, n);
            }
            assert(z.take(z.len() as int) =~= z);
        }
    }
    let mut order: Vec<MapId> = Vec::new();
    let mut pending: Vec<MapId> = Vec::new();
    pending.push(start);
    proof {
        let p0 = seq![start];
        assert(is_walk(maps, p0));
        assert(pending@[0] == start);
    }
    let mut head: usize = 0;
    while head < pending.len()
        invariant
            maps == map_registry.maps@,
            adjacency_is(adj@, maps),
            visited@.len() == MAP_COUNT,
            forall|m: MapId| #[trigger] visited@[map_index(m) as int] == order@.contains(m),
            order@.no_duplicates(),
            order@.len() == count_true(visited@),
            head <= pending@.len(),
            forall|t: int| 0 <= t < pending@.len() ==> reachable(maps, start, #[trigger] pending@[t]),
            forall|m: MapId| #[trigger] order@.contains(m) ==> reachable(maps, start, m),
            order@.contains(start) || pending_has(pending@, head as int, start),
            forall|u: MapId, b: MapId| order@.contains(u) && #[trigger] adjacent(maps, u, b)
                ==> order@.contains(b) || pending_has(pending@, head as int, b),
        decreases MAP_COUNT - order@.len(), pending@.len() - head,
    {
        proof { lemma_count_true_le(visited@); }
        let m = pending[head];
        let ghost old_pending = pending@;
        let ghost old_head = head as int;
        head += 1;
        let mi = map_index_of(m);
        if visited[mi] {
            proof {
                assert forall|u: MapId, b: MapId| order@.contains(u) && #[trigger] adjacent(maps, u, b)
                    implies order@.contains(b) || pending_has(pending@, head as int, b) by {
                    if !order@.contains(b) {
                        let t = choose|t: int| old_head <= t < old_pending.len() && #[trigger] old_pending[t] == b;
                        if t == old_head {
                            assert(b == m);
                        } else {
                            assert(pending@[t] == b);
                        }
                    }
                }
                if !order@.contains(start) {
                    let t = choose|t: int| old_head <= t < old_pending.len() && #[trigger] old_pending[t] == start;
                    if t != old_head {
                        assert(pending@[t] == start);
                    }
                }
            }
            continue;
        }
        let ghost old_order = order@;
        let ghost old_visited = visited@;
        proof {
            assert(!old_order.contains(m));
            lemma_count_true_set(visited@, mi as int);
        }
        visited.set(mi, true);
        order.push(m);
        proof {
            assert forall|x: MapId| #[trigger] visited@[map_index(x) as int] == order@.contains(x) by {
                lemma_map_at_index(x);
                lemma_map_at_index(m);
                if x == m {
                    assert(order@[order@.len() - 1] == m);
                } else {
                    assert(map_index(x) != map_index(m));
                    if old_order.contains(x) {
                        let t = choose|t: int| 0 <= t < old_order.len() && old_order[t] == x;
                        assert(order@[t] == x);
                    }
                    if order@.contains(x) {
                        let t = choose|t: int| 0 <= t < order@.len() && order@[t] == x;
                        assert(old_order[t] == x);
                    }
                }
            }
            assert(order@.no_duplicates()) by {
                assert forall|a: int, b: int| 0 <= a < order@.len() && 0 <= b < order@.len() && a != b
                    implies order@[a] != order@[b] by {
                    if a < old_order.len() && b < old_order.len() {
                    } else if a < old_order.len() {
                        assert(old_order.contains(order@[a]));
                    } else if b < old_order.len() {
                        assert(old_order.contains(order@[b]));
                    }
                }
            }
            assert(reachable(maps, start, old_pending[old_head]));
            assert forall|x: MapId| #[trigger] order@.contains(x) implies reachable(maps, start, x) by {
                if x != m {
                    let t = choose|t: int| 0 <= t < order@.len() && order@[t] == x;
                    assert(old_order[t] == x);
                    assert(old_order.contains(x));
                }
            }
            assert forall|u: MapId, b: MapId| order@.contains(u) && u != m && #[trigger] adjacent(maps, u, b)
                implies order@.contains(b) || pending_has(pending@, head as int, b) by {
                let tu = choose|t: int| 0 <= t < order@.len() && order@[t] == u;
                assert(old_order[tu] == u);
                assert(old_order.contains(u));
                if old_order.contains(b) {
                    let tb = choose|t: int| 0 <= t < old_order.len() && old_order[t] == b;
                    assert(order@[tb] == b);
                } else {
                    let t = choose|t: int| old_head <= t < old_pending.len() && #[trigger] old_pending[t] == b;
                    if t == old_head {
                        assert(order@[order@.len() - 1] == m);
                    } else {
                        assert(pending@[t] == b);
                    }
                }
            }
            if !order@.contains(start) {
                assert(!old_order.contains(start)) by {
                    if old_order.contains(start) {
                        let t = choose|t: int| 0 <= t < old_order.len() && old_order[t] == start;
                        assert(order@[t] == start);
                    }
                }
                let t = choose|t: int| old_head <= t < old_pending.len() && #[trigger] old_pending[t] == start;
                if t == old_head {
                    assert(order@[order@.len() - 1] == m);
                } else {
                    assert(pending@[t] == start);
                }
            }
        }
        let mut j: usize = 0;
        while j < MAP_COUNT
            invariant
                maps == map_registry.maps@,
                adjacency_is(adj@, maps),
                mi == map_index(m),
                j <= MAP_COUNT,
                visited@.len() == MAP_COUNT,
                forall|x: MapId| #[trigger] visited@[map_index(x) as int] == order@.contains(x),
                order@.contains(m),
                reachable(maps, start, m),
                head <= pending@.len(),
                forall|t: int| 0 <= t < pending@.len() ==> reachable(maps, start, #[trigger] pending@[t]),
                forall|x: MapId| #[trigger] order@.contains(x) ==> reachable(maps, start, x),
                order@.contains(start) || pending_has(pending@, head as int, start),
                forall|u: MapId, b: MapId| order@.contains(u) && u != m && #[trigger] adjacent(maps, u, b)
                    ==> order@.contains(b) || pending_has(pending@, head as int, b),
                forall|t: nat| t < j ==> #[trigger] adjacent(maps, m, map_at(t))
                    ==> order@.contains(map_at(t)) || pending_has(pending@, head as int, map_at(t)),
            decreases MAP_COUNT - j,
        {
            let b = map_from_index(j);
            let ghost before = pending@;
            proof { assert(adj@[cell(m, b)] == adjacent(maps, m, b)); }
            if adj[mi * 16 + j] && !visited[j] {
                pending.push(b);
                proof {
                    lemma_walk_extend(maps, start, m, b);
                    assert(pending@[pending@.len() - 1] == b);
                }
            }
            proof {
                assert forall|x: MapId| pending_has(before, head as int, x) implies #[trigger] pending_has(pending@, head as int, x) by {
                    let t = choose|t: int| head <= t < before.len() && #[trigger] before[t] == x;
                    assert(pending@[t] == x);
                }
                assert forall|t: int| 0 <= t < pending@.len() implies reachable(maps, start, #[trigger] pending@[t]) by {
                    if t < before.len() {
                        assert(pending@[t] == before[t]);
                    }
                }
                assert(map_at(j as nat) == b);
            }
            j += 1;
        }
        proof {
            assert forall|u: MapId, b: MapId| order@.contains(u) && #[trigger] adjacent(maps, u, b)
                implies order@.contains(b) || pending_has(pending@, head as int, b) by {
                if u == m {
                    lemma_map_at_index(b);
                    assert(adjacent(maps, m, map_at(map_index(b))));
                }
            }
            assert(order@.len() == count_true(visited@));
            lemma_count_true_le(visited@);
        }
    }
    proof {
        assert forall|m: MapId| #[trigger] order@.contains(m) <==> reachable(maps, start, m) by {
            if reachable(maps, start, m) {
                let p = choose|p: Seq<MapId>| #[trigger] is_walk(maps, p) && p[0] == start && p.last() == m;
                assert forall|u: MapId, b: MapId| order@.contains(u) && #[trigger] adjacent(maps, u, b)
                    implies order@.contains(b) by {
                    assert(!pending_has(pending@, head as int, b));
                }
                lemma_closed_contains_walks(maps, order@, p);
            }
        }
    }
    order
}

proof fn lemma_count_prefix_zero(z: Seq<bool>, n: nat)
    requires
        n <= z.len(),
        forall|t: int| 0 <= t < z.len() ==> !(#[trigger] z[t]),
    ensures
        count_true(z.take(n as int)) == 0,
    decreases n,
{
    if n > 0 {
        lemma_count_prefix_zero(z, (n - 1) as nat);
        assert(z.take(n as int).drop_last() =~= z.take(n - 1));
    }
}

} // verus!
