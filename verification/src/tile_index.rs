//! A lookup table from tile coordinates to entity identifiers, used for
//! the solid-tile and interactable-tile registries. It is a flat list of
//! pairs with pairwise-distinct coordinates, viewed as a finite map.

use vstd::prelude::*;

use crate::tiles::TileCoordinate;

verus! {

/// The coordinates in `s` are pairwise distinct.
pub open spec fn keys_distinct(s: Seq<(TileCoordinate, u64)>) -> bool {
    forall|i: int, j: int|
        0 <= i < j < s.len() ==> (#[trigger] s[i]).0 != (#[trigger] s[j]).0
}

/// The finite map an entry list stands for; a later entry wins where
/// coordinates repeat.
pub open spec fn map_of(s: Seq<(TileCoordinate, u64)>) -> Map<TileCoordinate, u64>
    decreases s.len(),
{
    if s.len() == 0 {
        Map::empty()
    } else {
        map_of(s.drop_last()).insert(s.last().0, s.last().1)
    }
}

/// A coordinate is in the domain of `map_of(s)` exactly when some entry
/// of `s` carries it.
pub proof fn lemma_map_of_dom(s: Seq<(TileCoordinate, u64)>)
    ensures
        forall|c: TileCoordinate| #[trigger]
            map_of(s).dom().contains(c) <==> exists|i: int|
                0 <= i < s.len() && (#[trigger] s[i]).0 == c,
    decreases s.len(),
{
    if s.len() > 0 {
        lemma_map_of_dom(s.drop_last());
        assert forall|c: TileCoordinate| #[trigger]
            map_of(s).dom().contains(c) implies exists|i: int|
            0 <= i < s.len() && (#[trigger] s[i]).0 == c by {
            if c == s.last().0 {
                assert(s[s.len() - 1].0 == c);
            } else {
                assert(map_of(s.drop_last()).dom().contains(c));
                let i = choose|i: int| 0 <= i < s.drop_last().len() && (#[trigger] s.drop_last()[i]).0 == c;
                assert(s[i].0 == c);
            }
        }
        assert forall|c: TileCoordinate|
            (exists|i: int| 0 <= i < s.len() && (#[trigger] s[i]).0 == c) implies #[trigger]
            map_of(s).dom().contains(c) by {
            let i = choose|i: int| 0 <= i < s.len() && (#[trigger] s[i]).0 == c;
            if i == s.len() - 1 {
                assert(map_of(s).dom().contains(s.last().0));
            } else {
                assert(s.drop_last()[i].0 == c);
                assert(map_of(s.drop_last()).dom().contains(c));
            }
        }
    }
}

/// With distinct coordinates, `map_of(s)` sends each entry's coordinate
/// to that entry's entity.
pub proof fn lemma_map_of_value(s: Seq<(TileCoordinate, u64)>)
    requires
        keys_distinct(s),
    ensures
        forall|i: int| 0 <= i < s.len() ==> map_of(s)[(#[trigger] s[i]).0] == s[i].1,
    decreases s.len(),
{
    if s.len() > 0 {
        assert(keys_distinct(s.drop_last()));
        lemma_map_of_value(s.drop_last());
        assert forall|i: int| 0 <= i < s.len() implies map_of(s)[(#[trigger] s[i]).0] == s[i].1 by {
            if i < s.len() - 1 {
                assert(s[i].0 != s[s.len() - 1].0);
                assert(s.drop_last()[i] == s[i]);
            }
        }
    }
}

/// Appending an entry inserts it into the map view.
pub proof fn lemma_map_of_push(s: Seq<(TileCoordinate, u64)>, c: TileCoordinate, e: u64)
    ensures
        map_of(s.push((c, e))) == map_of(s).insert(c, e),
{
    assert(s.push((c, e)).drop_last() =~= s);
    assert(s.push((c, e)).last() == (c, e));
}

/// A registry of tiles: which entity, if any, occupies each coordinate.
/// One instance tracks the solid (blocking) tiles, another the
/// interactable ones.
pub struct TileIndex {
    entries: Vec<(TileCoordinate, u64)>,
}

impl View for TileIndex {
    type V = Map<TileCoordinate, u64>;

    closed spec fn view(&self) -> Map<TileCoordinate, u64> {
        map_of(self.entries@)
    }
}

/// Position of the entry carrying `coordinate`, if one exists.
fn find_key(entries: &Vec<(TileCoordinate, u64)>, coordinate: TileCoordinate) -> (r: Option<
    usize,
>)
    ensures
        match r {
            Some(i) => i < entries@.len() && entries@[i as int].0 == coordinate,
            None => forall|j: int|
                0 <= j < entries@.len() ==> (#[trigger] entries@[j]).0 != coordinate,
        },
{
    let mut i: usize = 0;
    while i < entries.len()
        invariant
            i <= entries@.len(),
            forall|j: int| 0 <= j < i ==> (#[trigger] entries@[j]).0 != coordinate,
        decreases entries@.len() - i,
    {
        if entries[i].0 == coordinate {
            return Some(i);
        }
        i += 1;
    }
    None
}

impl TileIndex {
    #[verifier::type_invariant]
    spec fn wf(self) -> bool {
        keys_distinct(self.entries@)
    }

    /// An empty registry.
    pub fn new() -> (t: Self)
        ensures
            t@ == Map::<TileCoordinate, u64>::empty(),
    {
        TileIndex { entries: Vec::new() }
    }

    /// Registers `entity` at `coordinate`. An entity previously
    /// registered at the same coordinate is replaced and returned.
    pub fn insert(&mut self, coordinate: TileCoordinate, entity: u64) -> (replaced: Option<u64>)
        ensures
            final(self)@ == old(self)@.insert(coordinate, entity),
            replaced == (if old(self)@.dom().contains(coordinate) {
                Some(old(self)@[coordinate])
            } else {
                None::<u64>
            }),
    {
        proof {
            use_type_invariant(&*self);
        }
        let mut es: Vec<(TileCoordinate, u64)> = Vec::new();
        core::mem::swap(&mut es, &mut self.entries);
        let ghost s0 = es@;
        proof {
            lemma_map_of_dom(s0);
            lemma_map_of_value(s0);
        }
        let replaced: Option<u64>;
        match find_key(&es, coordinate) {
            Some(i) => {
                replaced = Some(es[i].1);
                es[i] = (coordinate, entity);
                proof {
                    let s1 = s0.update(i as int, (coordinate, entity));
                    assert forall|a: int, b: int| 0 <= a < b < s1.len() implies (#[trigger] s1[a]).0
                        != (#[trigger] s1[b]).0 by {
                        assert(s1[a].0 == s0[a].0);
                        assert(s1[b].0 == s0[b].0);
                    }
                    lemma_map_of_dom(s1);
                    lemma_map_of_value(s1);
                    assert forall|k: TileCoordinate| #[trigger]
                        map_of(s1).dom().contains(k) implies map_of(s0).insert(
                        coordinate,
                        entity,
                    ).dom().contains(k) && map_of(s1)[k] == map_of(s0).insert(
                        coordinate,
                        entity,
                    )[k] by {
                        let j = choose|j: int| 0 <= j < s1.len() && (#[trigger] s1[j]).0 == k;
                        if j == i {
                            assert(map_of(s1)[k] == entity);
                        } else {
                            assert(s1[j] == s0[j]);
                            assert(s0[j].0 != s0[i as int].0);
                            assert(map_of(s0)[k] == s0[j].1);
                        }
                    }
                    assert forall|k: TileCoordinate| #[trigger]
                        map_of(s0).insert(coordinate, entity).dom().contains(
                        k,
                    ) implies map_of(s1).dom().contains(k) by {
                        if k == coordinate {
                            assert(s1[i as int].0 == k);
                        } else {
                            let j = choose|j: int| 0 <= j < s0.len() && (#[trigger] s0[j]).0 == k;
                            assert(s1[j].0 == k);
                        }
                    }
                    assert(map_of(s1) =~= map_of(s0).insert(coordinate, entity));
                }
            },
            None => {
                replaced = None;
                proof {
                    lemma_map_of_push(s0, coordinate, entity);
                    assert forall|a: int, b: int|
                        0 <= a < b < s0.push((coordinate, entity)).len() implies (#[trigger] s0.push(
                        (coordinate, entity),
                    )[a]).0 != (#[trigger] s0.push((coordinate, entity))[b]).0 by {
                        if b < s0.len() {
                            assert(s0[a].0 != s0[b].0);
                        } else {
                            assert(s0[a].0 != coordinate);
                        }
                    }
                }
                es.push((coordinate, entity));
            },
        }
        self.entries = es;
        replaced
    }

    /// Entity registered at `coordinate`, if any.
    pub fn get(&self, coordinate: TileCoordinate) -> (r: Option<u64>)
        ensures
            r == (if self@.dom().contains(coordinate) {
                Some(self@[coordinate])
            } else {
                None::<u64>
            }),
    {
        proof {
            use_type_invariant(self);
            lemma_map_of_dom(self.entries@);
            lemma_map_of_value(self.entries@);
        }
        match find_key(&self.entries, coordinate) {
            Some(i) => Some(self.entries[i].1),
            None => None,
        }
    }

    /// Drops every registration that points at `entity`, keeping all
    /// others. Used when an entity despawns.
    pub fn remove_entity(&mut self, entity: u64)
        ensures
            final(self)@ == Map::new(
                |k: TileCoordinate| old(self)@.dom().contains(k) && old(self)@[k] != entity,
                |k: TileCoordinate| old(self)@[k],
            ),
    {
        proof {
            use_type_invariant(&*self);
        }
        let mut es: Vec<(TileCoordinate, u64)> = Vec::new();
        core::mem::swap(&mut es, &mut self.entries);
        let ghost s0 = es@;
        let mut kept: Vec<(TileCoordinate, u64)> = Vec::new();
        let mut i: usize = 0;
        while i < es.len()
            invariant
                i <= es@.len(),
                es@ == s0,
                kept@ == without_entity(s0.take(i as int), entity),
            decreases es@.len() - i,
        {
            let pair = es[i];
            proof {
                assert(s0.take(i + 1).drop_last() =~= s0.take(i as int));
                assert(s0.take(i + 1).last() == s0[i as int]);
            }
            if pair.1 != entity {
                kept.push(pair);
            }
            i += 1;
        }
        proof {
            assert(s0.take(s0.len() as int) =~= s0);
            lemma_without_entity_char(s0, entity);
            let r = without_entity(s0, entity);
            lemma_map_of_dom(s0);
            lemma_map_of_value(s0);
            lemma_map_of_dom(r);
            lemma_map_of_value(r);
            let target = Map::new(
                |k: TileCoordinate| map_of(s0).dom().contains(k) && map_of(s0)[k] != entity,
                |k: TileCoordinate| map_of(s0)[k],
            );
            assert forall|k: TileCoordinate| #[trigger]
                map_of(r).dom().contains(k) implies target.dom().contains(k) && map_of(r)[k]
                == target[k] by {
                let j = choose|j: int| 0 <= j < r.len() && (#[trigger] r[j]).0 == k;
                assert(r.contains(r[j]));
                let p = r[j];
                assert(s0.contains(p) && p.1 != entity);
                let j0 = choose|j0: int| 0 <= j0 < s0.len() && s0[j0] == p;
                assert(s0[j0].0 == k);
                assert(map_of(s0)[k] == p.1);
                assert(map_of(r)[k] == p.1);
            }
            assert forall|k: TileCoordinate| #[trigger]
                target.dom().contains(k) implies map_of(r).dom().contains(k) by {
                let j0 = choose|j0: int| 0 <= j0 < s0.len() && (#[trigger] s0[j0]).0 == k;
                let p = s0[j0];
                assert(s0.contains(p));
                assert(map_of(s0)[k] == p.1);
                assert(r.contains(p));
                let j = choose|j: int| 0 <= j < r.len() && r[j] == p;
                assert(r[j].0 == k);
            }
            assert(map_of(r) =~= target);
        }
        self.entries = kept;
    }

    /// Forgets every registration.
    pub fn clear(&mut self)
        ensures
            final(self)@ == Map::<TileCoordinate, u64>::empty(),
    {
        self.entries = Vec::new();
    }
}

/// The entries of `s` whose entity is not `entity`, in order.
pub open spec fn without_entity(s: Seq<(TileCoordinate, u64)>, entity: u64) -> Seq<
    (TileCoordinate, u64),
>
    decreases s.len(),
{
    if s.len() == 0 {
        Seq::empty()
    } else if s.last().1 == entity {
        without_entity(s.drop_last(), entity)
    } else {
        without_entity(s.drop_last(), entity).push(s.last())
    }
}

/// Filtering entries out keeps coordinates distinct, and an entry
/// survives exactly when it was present and names another entity.
pub proof fn lemma_without_entity_char(s: Seq<(TileCoordinate, u64)>, entity: u64)
    requires
        keys_distinct(s),
    ensures
        keys_distinct(without_entity(s, entity)),
        forall|p: (TileCoordinate, u64)| #[trigger]
            without_entity(s, entity).contains(p) <==> s.contains(p) && p.1 != entity,
    decreases s.len(),
{
    if s.len() > 0 {
        let s1 = s.drop_last();
        assert(keys_distinct(s1));
        lemma_without_entity_char(s1, entity);
        let r1 = without_entity(s1, entity);
        let r = without_entity(s, entity);
        assert forall|p: (TileCoordinate, u64)| #[trigger] s1.contains(p) implies s.contains(
            p,
        ) by {
            let j = choose|j: int| 0 <= j < s1.len() && s1[j] == p;
            assert(s[j] == p);
        }
        assert forall|p: (TileCoordinate, u64)| #[trigger] s.contains(p) implies s1.contains(p) || p
            == s.last() by {
            let j = choose|j: int| 0 <= j < s.len() && s[j] == p;
            if j < s.len() - 1 {
                assert(s1[j] == p);
            }
        }
        if s.last().1 == entity {
            assert forall|p: (TileCoordinate, u64)| #[trigger] r.contains(p) implies s.contains(p)
                && p.1 != entity by {}
            assert forall|p: (TileCoordinate, u64)| s.contains(p) && p.1 != entity implies #[trigger]
                r.contains(p) by {
                assert(p != s.last());
            }
        } else {
            assert forall|p: (TileCoordinate, u64)| #[trigger] r.contains(p) implies s.contains(p)
                && p.1 != entity by {
                let j = choose|j: int| 0 <= j < r.len() && r[j] == p;
                if j < r.len() - 1 {
                    assert(r1[j] == p);
                    assert(r1.contains(p));
                } else {
                    assert(p == s.last());
                    let n = s.len() - 1;
                    assert(s[n] == p);
                }
            }
            assert forall|p: (TileCoordinate, u64)| s.contains(p) && p.1 != entity implies #[trigger]
                r.contains(p) by {
                if p == s.last() {
                    let n = r.len() - 1;
                    assert(r[n] == p);
                } else {
                    assert(s1.contains(p));
                    assert(r1.contains(p));
                    let j = choose|j: int| 0 <= j < r1.len() && r1[j] == p;
                    assert(r[j] == p);
                }
            }
            // coordinates stay distinct after appending the kept entry
            assert forall|a: int, b: int| 0 <= a < b < r.len() implies (#[trigger] r[a]).0
                != (#[trigger] r[b]).0 by {
                if b == r.len() - 1 {
                    assert(r1.contains(r1[a]));
                    let p = r1[a];
                    assert(s1.contains(p));
                    let j = choose|j: int| 0 <= j < s1.len() && s1[j] == p;
                    assert(s[j] == p);
                    assert(s[j].0 != s.last().0);
                } else {
                    assert(r1[a].0 != r1[b].0);
                }
            }
        }
    }
}

} // verus!
