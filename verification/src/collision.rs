//! Broad-phase collision detection on a uniform grid: entities are bucketed
//! by the cell they stand in, and every unordered pair that shares a cell
//! becomes a candidate for the exact distance test.

use std::collections::HashMap;
use vstd::prelude::*;
use crate::entity::EntityType;
use crate::entity::WebEntity;

verus! {

broadcast use vstd::std_specs::hash::group_hash_axioms;

/// Side of a grid cell, in world units.
pub const CELL_SIZE: u32 = 64;
/// Points scored by a collision that involves a player.
pub const PLAYER_HIT_SCORE: i32 = 10;

/// Grid coordinates of a cell.
pub type Cell = (i32, i32);

/// The grid of the broad phase. It is rebuilt from scratch on every update.
#[derive(Debug)]
pub struct WebCollisionSystem {
    /// Bucket number of every occupied cell, by the cell's key.
    pub index: HashMap<u64, usize>,
    /// The entities standing in each occupied cell, by position in the store.
    pub buckets: Vec<Vec<usize>>,
}

/// A cell's key in the index: both coordinates shifted to be non-negative,
/// one in the high half and one in the low half.
pub open spec fn cell_key(c: Cell) -> u64 {
    ((c.0 + 0x8000_0000) * 0x1_0000_0000 + (c.1 + 0x8000_0000)) as u64
}

/// The cell each entity occupies: that of an active entity for which a cell
/// was given, none for the others.
pub open spec fn occupancy(entities: Seq<WebEntity>, cells: Seq<Cell>) -> Seq<Option<Cell>> {
    Seq::new(
        entities.len(),
        |i: int|
            if i < cells.len() && entities[i].active {
                Some(cells[i])
            } else {
                None
            },
    )
}

/// Entities `a` and `b` are a candidate pair: distinct, in this order, and in the same cell.
pub open spec fn is_candidate(occ: Seq<Option<Cell>>, a: int, b: int) -> bool {
    0 <= a < b < occ.len() && occ[a] is Some && occ[a] == occ[b]
}

/// Whether a pair of store positions involves a player.
pub open spec fn involves_player(entities: Seq<WebEntity>, pair: (usize, usize)) -> bool {
    pair.0 < entities.len() && pair.1 < entities.len() && (entities[pair.0 as int].entity_type
        == EntityType::Player || entities[pair.1 as int].entity_type == EntityType::Player)
}

/// The pairs of `hits` that involve a player, in their order.
pub open spec fn player_hits(entities: Seq<WebEntity>, hits: Seq<(usize, usize)>) -> Seq<
    (usize, usize),
>
    decreases hits.len(),
{
    if hits.len() == 0 {
        Seq::empty()
    } else if involves_player(entities, hits.last()) {
        player_hits(entities, hits.drop_last()).push(hits.last())
    } else {
        player_hits(entities, hits.drop_last())
    }
}

/// No more collisions involve a player than there are collisions.
pub proof fn lemma_player_hits_len(entities: Seq<WebEntity>, hits: Seq<(usize, usize)>)
    ensures
        player_hits(entities, hits).len() <= hits.len(),
    decreases hits.len(),
{
    if hits.len() > 0 {
        lemma_player_hits_len(entities, hits.drop_last());
    }
}

/// Different cells have different keys.
pub proof fn lemma_cell_key_injective(c: Cell, d: Cell)
    requires
        cell_key(c) == cell_key(d),
    ensures
        c == d,
{
    let (cx, cy) = c;
    let (dx, dy) = d;
    assert(0 <= cx + 0x8000_0000 < 0x1_0000_0000);
    assert(0 <= dx + 0x8000_0000 < 0x1_0000_0000);
    if cx < dx {
        assert((cx + 0x8000_0000) * 0x1_0000_0000 + 0x1_0000_0000 <= (dx + 0x8000_0000)
            * 0x1_0000_0000);
    } else if dx < cx {
        assert((dx + 0x8000_0000) * 0x1_0000_0000 + 0x1_0000_0000 <= (cx + 0x8000_0000)
            * 0x1_0000_0000);
    }
}

/// Key of the cell that entity `e` occupies.
pub open spec fn key_at(occ: Seq<Option<Cell>>, e: int) -> u64 {
    cell_key(occ[e]->0)
}

/// Member `k` of bucket `b` is an entity among the first `m`, stands in a
/// cell, and the index sends that cell to bucket `b`.
pub open spec fn member_ok(
    index: Map<u64, usize>,
    buckets: Seq<Vec<usize>>,
    occ: Seq<Option<Cell>>,
    m: int,
    b: int,
    k: int,
) -> bool {
    let e = buckets[b]@[k] as int;
    &&& 0 <= e < m
    &&& occ[e] is Some
    &&& index.contains_key(key_at(occ, e))
    &&& index[key_at(occ, e)] == b
}

/// The index sends `key` to a bucket whose first member stands in the cell of that key.
pub open spec fn keyed_ok(
    index: Map<u64, usize>,
    buckets: Seq<Vec<usize>>,
    occ: Seq<Option<Cell>>,
    key: u64,
) -> bool {
    &&& index[key] < buckets.len()
    &&& buckets[index[key] as int]@.len() > 0
    &&& key_at(occ, buckets[index[key] as int]@[0] as int) == key
}

/// Entity `i` is listed in the bucket of its cell.
pub open spec fn placed_ok(
    index: Map<u64, usize>,
    buckets: Seq<Vec<usize>>,
    occ: Seq<Option<Cell>>,
    i: int,
) -> bool {
    let key = key_at(occ, i);
    &&& index.contains_key(key)
    &&& index[key] < buckets.len()
    &&& buckets[index[key] as int]@.contains(i as usize)
}

/// The grid holds exactly the first `m` entities of `occ`, each in the bucket
/// of its cell, and lists every bucket in increasing order.
pub open spec fn grid_ok(
    index: Map<u64, usize>,
    buckets: Seq<Vec<usize>>,
    occ: Seq<Option<Cell>>,
    m: int,
) -> bool {
    &&& forall|key: u64| #[trigger] index.contains_key(key) ==> keyed_ok(index, buckets, occ, key)
    &&& forall|b: int, k: int|
        0 <= b < buckets.len() && 0 <= k < buckets[b]@.len() ==> #[trigger] member_ok(
            index,
            buckets,
            occ,
            m,
            b,
            k,
        )
    &&& forall|b: int, k1: int, k2: int|
        0 <= b < buckets.len() && 0 <= k1 < k2 < buckets[b]@.len() ==> #[trigger] buckets[b]@[k1]
            < #[trigger] buckets[b]@[k2]
    &&& forall|i: int| 0 <= i < m && occ[i] is Some ==> #[trigger] placed_ok(index, buckets, occ, i)
}

/// Position of a pair in the order in which the buckets are walked.
pub open spec fn walked_before(p: (int, int, int), b: int, i: int, j: int) -> bool {
    p.0 < b || (p.0 == b && (p.1 < i || (p.1 == i && p.2 < j)))
}

/// A position names two members of one bucket, the first before the second.
pub open spec fn valid_position(buckets: Seq<Vec<usize>>, p: (int, int, int)) -> bool {
    0 <= p.0 < buckets.len() && 0 <= p.1 < p.2 < buckets[p.0]@.len()
}

/// The two entities that stand at a position.
pub open spec fn pair_at(buckets: Seq<Vec<usize>>, p: (int, int, int)) -> (usize, usize) {
    (buckets[p.0]@[p.1], buckets[p.0]@[p.2])
}

/// Two positions that name the same pair of entities are the same position.
pub proof fn lemma_positions_distinct(
    index: Map<u64, usize>,
    buckets: Seq<Vec<usize>>,
    occ: Seq<Option<Cell>>,
    p: (int, int, int),
    q: (int, int, int),
)
    requires
        grid_ok(index, buckets, occ, occ.len() as int),
        valid_position(buckets, p),
        valid_position(buckets, q),
        pair_at(buckets, p) == pair_at(buckets, q),
    ensures
        p == q,
{
    let m = occ.len() as int;
    assert(member_ok(index, buckets, occ, m, p.0, p.1));
    assert(member_ok(index, buckets, occ, m, q.0, q.1));
    assert(p.0 == q.0);
    let bucket = buckets[p.0]@;
    if p.1 < q.1 {
        assert(bucket[p.1] < bucket[q.1]);
    } else if q.1 < p.1 {
        assert(bucket[q.1] < bucket[p.1]);
    }
    if p.2 < q.2 {
        assert(bucket[p.2] < bucket[q.2]);
    } else if q.2 < p.2 {
        assert(bucket[q.2] < bucket[p.2]);
    }
}

/// Two members of one bucket are a candidate pair.
pub proof fn lemma_position_is_candidate(
    index: Map<u64, usize>,
    buckets: Seq<Vec<usize>>,
    occ: Seq<Option<Cell>>,
    p: (int, int, int),
)
    requires
        grid_ok(index, buckets, occ, occ.len() as int),
        valid_position(buckets, p),
    ensures
        is_candidate(occ, pair_at(buckets, p).0 as int, pair_at(buckets, p).1 as int),
{
    let m = occ.len() as int;
    assert(member_ok(index, buckets, occ, m, p.0, p.1));
    assert(member_ok(index, buckets, occ, m, p.0, p.2));
    let a = buckets[p.0]@[p.1] as int;
    let b = buckets[p.0]@[p.2] as int;
    assert(buckets[p.0]@[p.1] < buckets[p.0]@[p.2]);
    assert(keyed_ok(index, buckets, occ, key_at(occ, a)));
    assert(keyed_ok(index, buckets, occ, key_at(occ, b)));
    lemma_cell_key_injective(occ[a]->0, occ[b]->0);
}

/// Every candidate pair stands at some position of the grid.
pub proof fn lemma_candidate_has_position(
    index: Map<u64, usize>,
    buckets: Seq<Vec<usize>>,
    occ: Seq<Option<Cell>>,
    a: int,
    b: int,
) -> (p: (int, int, int))
    requires
        grid_ok(index, buckets, occ, occ.len() as int),
        is_candidate(occ, a, b),
        occ.len() <= usize::MAX,
    ensures
        valid_position(buckets, p),
        pair_at(buckets, p) == (a as usize, b as usize),
{
    let m = occ.len() as int;
    assert(placed_ok(index, buckets, occ, a));
    assert(placed_ok(index, buckets, occ, b));
    assert(keyed_ok(index, buckets, occ, key_at(occ, a)));
    let n = index[key_at(occ, a)] as int;
    let bucket = buckets[n]@;
    let ka = choose|k: int| 0 <= k < bucket.len() && bucket[k] == a as usize;
    let kb = choose|k: int| 0 <= k < bucket.len() && bucket[k] == b as usize;
    if kb < ka {
        assert(bucket[kb] < bucket[ka]);
    }
    (n, ka, kb)
}

impl WebCollisionSystem {
    /// A grid with no cell occupied.
    pub fn new() -> (grid: Self)
        ensures
            grid.buckets@.len() == 0,
            grid.index@ == Map::<u64, usize>::empty(),
    {
        WebCollisionSystem { index: HashMap::new(), buckets: Vec::new() }
    }

    /// Key of `cell` in the index.
    pub fn key_of(cell: Cell) -> (key: u64)
        ensures
            key == cell_key(cell),
    {
        let high: u64 = (cell.0 as i64 + 0x8000_0000) as u64;
        let low: u64 = (cell.1 as i64 + 0x8000_0000) as u64;
        high * 0x1_0000_0000 + low
    }

    /// Clears the grid and files every active entity under the cell given for it.
    fn rebuild(&mut self, entities: &Vec<WebEntity>, cells: &Vec<Cell>)
        ensures
            grid_ok(
                final(self).index@,
                final(self).buckets@,
                occupancy(entities@, cells@),
                entities.len() as int,
            ),
    {
        self.index.clear();
        self.buckets.clear();
        let ghost occ = occupancy(entities@, cells@);
        let n: usize = entities.len();
        let mut i: usize = 0;
        while i < n
            invariant
                i <= n,
                n == entities.len(),
                occ == occupancy(entities@, cells@),
                grid_ok(self.index@, self.buckets@, occ, i as int),
            decreases n - i,
        {
            let ghost index0 = self.index@;
            let ghost buckets0 = self.buckets@;
            if i < cells.len() && entities[i].active {
                let key: u64 = Self::key_of(cells[i]);
                assert(occ[i as int] == Some(cells[i as int]));
                assert(key == key_at(occ, i as int));
                let slot: Option<usize> = match self.index.get(&key) {
                    Some(b) => Some(*b),
                    None => None,
                };
                match slot {
                    Some(b) => {
                        assert(index0.contains_key(key) && index0[key] == b);
                        assert(keyed_ok(index0, buckets0, occ, key));
                        self.buckets[b].push(i);
                        proof {
                            let buckets1 = self.buckets@;
                            assert(buckets1.len() == buckets0.len());
                            assert(buckets1[b as int]@ == buckets0[b as int]@.push(i));
                            assert(forall|c: int|
                                0 <= c < buckets0.len() && c != b ==> buckets1[c] == buckets0[c]);
                            assert forall|other: u64| #[trigger]
                                index0.contains_key(other) implies keyed_ok(
                                index0,
                                buckets1,
                                occ,
                                other,
                            ) by {
                                assert(keyed_ok(index0, buckets0, occ, other));
                                let c = index0[other] as int;
                                assert(buckets1[c]@[0] == buckets0[c]@[0]);
                            }
                            assert forall|c: int, k: int|
                                0 <= c < buckets1.len() && 0 <= k
                                    < buckets1[c]@.len() implies #[trigger] member_ok(
                                index0,
                                buckets1,
                                occ,
                                i + 1,
                                c,
                                k,
                            ) by {
                                if c == b && k == buckets0[b as int]@.len() {
                                } else {
                                    assert(member_ok(index0, buckets0, occ, i as int, c, k));
                                }
                            }
                            assert forall|c: int, k1: int, k2: int|
                                0 <= c < buckets1.len() && 0 <= k1 < k2
                                    < buckets1[c]@.len() implies #[trigger] buckets1[c]@[k1]
                                < #[trigger] buckets1[c]@[k2] by {
                                if c == b && k2 == buckets0[b as int]@.len() {
                                    assert(member_ok(index0, buckets0, occ, i as int, c, k1));
                                } else {
                                    assert(buckets0[c]@[k1] < buckets0[c]@[k2]);
                                }
                            }
                            assert forall|e: int| 0 <= e < i + 1 && occ[e] is Some implies #[trigger] placed_ok(
                                index0,
                                buckets1,
                                occ,
                                e,
                            ) by {
                                if e == i {
                                    assert(buckets1[b as int]@[buckets0[b as int]@.len() as int]
                                        == i);
                                } else {
                                    assert(placed_ok(index0, buckets0, occ, e));
                                    let c = index0[key_at(occ, e)] as int;
                                    let k = choose|k: int|
                                        0 <= k < buckets0[c]@.len() && buckets0[c]@[k]
                                            == e as usize;
                                    assert(buckets1[c]@[k] == e as usize);
                                }
                            }
                        }
                    },
                    None => {
                        assert(!index0.contains_key(key));
                        let fresh: usize = self.buckets.len();
                        self.index.insert(key, fresh);
                        let mut members: Vec<usize> = Vec::new();
                        members.push(i);
                        self.buckets.push(members);
                        proof {
                            let index1 = self.index@;
                            let buckets1 = self.buckets@;
                            assert(index1 == index0.insert(key, fresh));
                            assert(buckets1 == buckets0.push(members));
                            assert(members@ =~= seq![i]);
                            assert forall|other: u64| #[trigger]
                                index1.contains_key(other) implies keyed_ok(
                                index1,
                                buckets1,
                                occ,
                                other,
                            ) by {
                                if other != key {
                                    assert(keyed_ok(index0, buckets0, occ, other));
                                    let c = index0[other] as int;
                                    assert(buckets1[c] == buckets0[c]);
                                }
                            }
                            assert forall|c: int, k: int|
                                0 <= c < buckets1.len() && 0 <= k
                                    < buckets1[c]@.len() implies #[trigger] member_ok(
                                index1,
                                buckets1,
                                occ,
                                i + 1,
                                c,
                                k,
                            ) by {
                                if c == fresh {
                                } else {
                                    assert(member_ok(index0, buckets0, occ, i as int, c, k));
                                }
                            }
                            assert forall|c: int, k1: int, k2: int|
                                0 <= c < buckets1.len() && 0 <= k1 < k2
                                    < buckets1[c]@.len() implies #[trigger] buckets1[c]@[k1]
                                < #[trigger] buckets1[c]@[k2] by {
                                if c < fresh {
                                    assert(buckets0[c]@[k1] < buckets0[c]@[k2]);
                                }
                            }
                            assert forall|e: int| 0 <= e < i + 1 && occ[e] is Some implies #[trigger] placed_ok(
                                index1,
                                buckets1,
                                occ,
                                e,
                            ) by {
                                if e == i {
                                    assert(buckets1[fresh as int]@[0] == i);
                                } else {
                                    assert(placed_ok(index0, buckets0, occ, e));
                                    let c = index0[key_at(occ, e)] as int;
                                    assert(buckets1[c] == buckets0[c]);
                                }
                            }
                        }
                    },
                }
            } else {
                proof {
                    assert(occ[i as int] is None);
                    assert forall|c: int, k: int|
                        0 <= c < buckets0.len() && 0 <= k
                            < buckets0[c]@.len() implies #[trigger] member_ok(
                        index0,
                        buckets0,
                        occ,
                        i + 1,
                        c,
                        k,
                    ) by {
                        assert(member_ok(index0, buckets0, occ, i as int, c, k));
                    }
                }
            }
            i = i + 1;
        }
    }

    /// Rebuilds the grid from the cells given for the entities and returns
    /// the candidate pairs: every two active entities that share a cell, each
    /// pair once, the entity earlier in the store first. An entity for which
    /// no cell is given takes no part.
    pub fn update(&mut self, entities: &Vec<WebEntity>, cells: &Vec<Cell>) -> (pairs: Vec<
        (usize, usize),
    >)
        ensures
            forall|k: int|
                0 <= k < pairs@.len() ==> is_candidate(
                    occupancy(entities@, cells@),
                    (#[trigger] pairs@[k]).0 as int,
                    pairs@[k].1 as int,
                ),
            forall|a: int, b: int| #[trigger]
                is_candidate(occupancy(entities@, cells@), a, b) ==> pairs@.contains(
                    (a as usize, b as usize),
                ),
            pairs@.no_duplicates(),
            grid_ok(
                final(self).index@,
                final(self).buckets@,
                occupancy(entities@, cells@),
                entities.len() as int,
            ),
    {
        self.rebuild(entities, cells);
        let ghost occ = occupancy(entities@, cells@);
        assert(occ.len() == entities.len());
        let ghost index = self.index@;
        let ghost buckets = self.buckets@;
        let mut pairs: Vec<(usize, usize)> = Vec::new();
        let ghost mut origin: Seq<(int, int, int)> = Seq::empty();
        let count: usize = self.buckets.len();
        let mut b: usize = 0;
        while b < count
            invariant
                b <= count,
                count == buckets.len(),
                self.buckets@ == buckets,
                grid_ok(index, buckets, occ, occ.len() as int),
                origin.len() == pairs@.len(),
                forall|k: int|
                    0 <= k < origin.len() ==> valid_position(buckets, #[trigger] origin[k])
                        && walked_before(origin[k], b as int, 0, 0) && pairs@[k] == pair_at(
                        buckets,
                        origin[k],
                    ),
                forall|p: (int, int, int)|
                    valid_position(buckets, p) && #[trigger] walked_before(p, b as int, 0, 0)
                        ==> pairs@.contains(pair_at(buckets, p)),
                pairs@.no_duplicates(),
            decreases count - b,
        {
            let size: usize = self.buckets[b].len();
            let mut i: usize = 0;
            while i < size
                invariant
                    b < count,
                    i <= size,
                    size == buckets[b as int]@.len(),
                    count == buckets.len(),
                    self.buckets@ == buckets,
                    grid_ok(index, buckets, occ, occ.len() as int),
                    origin.len() == pairs@.len(),
                    forall|k: int|
                        0 <= k < origin.len() ==> valid_position(buckets, #[trigger] origin[k])
                            && walked_before(origin[k], b as int, i as int, 0) && pairs@[k]
                            == pair_at(buckets, origin[k]),
                    forall|p: (int, int, int)|
                        valid_position(buckets, p) && #[trigger] walked_before(
                            p,
                            b as int,
                            i as int,
                            0,
                        ) ==> pairs@.contains(pair_at(buckets, p)),
                    pairs@.no_duplicates(),
                decreases size - i,
            {
                let mut j: usize = i + 1;
                proof {
                    assert forall|p: (int, int, int)|
                        valid_position(buckets, p) && #[trigger] walked_before(
                            p,
                            b as int,
                            i as int,
                            j as int,
                        ) implies pairs@.contains(pair_at(buckets, p)) by {
                        assert(walked_before(p, b as int, i as int, 0));
                    }
                }
                while j < size
                    invariant
                        b < count,
                        i < size,
                        i < j <= size,
                        size == buckets[b as int]@.len(),
                        count == buckets.len(),
                        self.buckets@ == buckets,
                        grid_ok(index, buckets, occ, occ.len() as int),
                        origin.len() == pairs@.len(),
                        forall|k: int|
                            0 <= k < origin.len() ==> valid_position(buckets, #[trigger] origin[k])
                                && walked_before(origin[k], b as int, i as int, j as int)
                                && pairs@[k] == pair_at(buckets, origin[k]),
                        forall|p: (int, int, int)|
                            valid_position(buckets, p) && #[trigger] walked_before(
                                p,
                                b as int,
                                i as int,
                                j as int,
                            ) ==> pairs@.contains(pair_at(buckets, p)),
                        pairs@.no_duplicates(),
                    decreases size - j,
                {
                    let first: usize = self.buckets[b][i];
                    let second: usize = self.buckets[b][j];
                    let ghost here = (b as int, i as int, j as int);
                    let ghost earlier = pairs@;
                    proof {
                        assert(valid_position(buckets, here));
                        assert forall|k: int| 0 <= k < earlier.len() implies earlier[k] != (
                            first,
                            second,
                        ) by {
                            if earlier[k] == (first, second) {
                                lemma_positions_distinct(index, buckets, occ, origin[k], here);
                            }
                        }
                    }
                    pairs.push((first, second));
                    proof {
                        origin = origin.push(here);
                        assert forall|p: (int, int, int)|
                            valid_position(buckets, p) && #[trigger] walked_before(
                                p,
                                b as int,
                                i as int,
                                j + 1,
                            ) implies pairs@.contains(pair_at(buckets, p)) by {
                            if p == here {
                                assert(pairs@[earlier.len() as int] == pair_at(buckets, p));
                            } else {
                                assert(walked_before(p, b as int, i as int, j as int));
                                let k = choose|k: int|
                                    0 <= k < earlier.len() && earlier[k] == pair_at(buckets, p);
                                assert(pairs@[k] == pair_at(buckets, p));
                            }
                        }
                    }
                    j = j + 1;
                }
                proof {
                    assert forall|p: (int, int, int)|
                        valid_position(buckets, p) && #[trigger] walked_before(
                            p,
                            b as int,
                            i + 1,
                            0,
                        ) implies pairs@.contains(pair_at(buckets, p)) by {
                        assert(walked_before(p, b as int, i as int, j as int));
                    }
                }
                i = i + 1;
            }
            proof {
                assert forall|p: (int, int, int)|
                    valid_position(buckets, p) && #[trigger] walked_before(
                        p,
                        b + 1,
                        0,
                        0,
                    ) implies pairs@.contains(pair_at(buckets, p)) by {
                    assert(walked_before(p, b as int, i as int, 0));
                }
            }
            b = b + 1;
        }
        proof {
            assert forall|k: int| 0 <= k < pairs@.len() implies is_candidate(
                occ,
                (#[trigger] pairs@[k]).0 as int,
                pairs@[k].1 as int,
            ) by {
                lemma_position_is_candidate(index, buckets, occ, origin[k]);
            }
            assert forall|x: int, y: int| #[trigger] is_candidate(occ, x, y) implies pairs@.contains(
                (x as usize, y as usize),
            ) by {
                let p = lemma_candidate_has_position(index, buckets, occ, x, y);
                assert(walked_before(p, count as int, 0, 0));
            }
        }
        pairs
    }

    /// Picks out of the pairs that the distance test confirmed those that
    /// involve a player, in their order. Each of them scores and asks for a
    /// particle burst. A pair that names no stored entity is passed over.
    pub fn player_collisions(entities: &Vec<WebEntity>, hits: &Vec<(usize, usize)>) -> (events:
        Vec<(usize, usize)>)
        ensures
            events@ == player_hits(entities@, hits@),
            events@.len() <= hits@.len(),
    {
        let mut events: Vec<(usize, usize)> = Vec::new();
        let mut k: usize = 0;
        while k < hits.len()
            invariant
                k <= hits.len(),
                events@ == player_hits(entities@, hits@.take(k as int)),
            decreases hits.len() - k,
        {
            assert(hits@.take(k + 1).drop_last() =~= hits@.take(k as int));
            let pair: (usize, usize) = hits[k];
            if pair.0 < entities.len() && pair.1 < entities.len() {
                let first_is_player: bool = match entities[pair.0].entity_type {
                    EntityType::Player => true,
                    _ => false,
                };
                let second_is_player: bool = match entities[pair.1].entity_type {
                    EntityType::Player => true,
                    _ => false,
                };
                if first_is_player || second_is_player {
                    events.push(pair);
                }
            }
            k = k + 1;
        }
        proof {
            assert(hits@.take(k as int) =~= hits@);
            lemma_player_hits_len(entities@, hits@);
        }
        events
    }
}

} // verus!
