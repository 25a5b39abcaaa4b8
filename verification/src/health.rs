//! Health and heart pickups: an entity standing on a heart absorbs it,
//! but only when the gain still fits under its maximum.

use vstd::prelude::*;

use crate::tiles::TileCoordinate;
use crate::tiles::same_cell;

verus! {

/// A number of hearts, either carried as health or lying on the floor.
#[derive(Clone, Copy, PartialEq, Eq, Structural, Debug)]
pub struct Hearts(pub usize);

/// Current and maximum health of an entity.
#[derive(Clone, Copy, PartialEq, Eq, Structural, Debug)]
pub struct Health {
    pub hearts: Hearts,
    pub max: Hearts,
}

/// An entity picked up this many hearts.
#[derive(Clone, Copy, PartialEq, Eq, Structural, Debug)]
pub struct PickedUpHearts {
    pub entity: u64,
    pub hearts: Hearts,
}

/// A heart lying in the world: its cell, its value, its entity.
pub type HeartItem = (TileCoordinate, Hearts, u64);

/// A health-bearing entity: its cell, its health, its entity.
pub type HealthBearer = (TileCoordinate, Health, u64);

/// The health a bearer at `coord` holds after walking the heart list in
/// order: each heart on the same cell is absorbed when the new total
/// still fits under the maximum, and skipped otherwise.
pub open spec fn spec_health_after(h: Health, coord: TileCoordinate, hearts: Seq<HeartItem>) -> Health
    decreases hearts.len(),
{
    if hearts.len() == 0 {
        h
    } else {
        let prev = spec_health_after(h, coord, hearts.drop_last());
        let item = hearts.last();
        if same_cell(coord, item.0) && prev.hearts.0 + item.1.0 <= prev.max.0 {
            Health { hearts: Hearts((prev.hearts.0 + item.1.0) as usize), max: prev.max }
        } else {
            prev
        }
    }
}

/// The pickup events one bearer emits while walking the heart list.
pub open spec fn spec_bearer_events(
    h: Health,
    coord: TileCoordinate,
    entity: u64,
    hearts: Seq<HeartItem>,
) -> Seq<PickedUpHearts>
    decreases hearts.len(),
{
    if hearts.len() == 0 {
        Seq::empty()
    } else {
        let prefix = spec_bearer_events(h, coord, entity, hearts.drop_last());
        let prev = spec_health_after(h, coord, hearts.drop_last());
        let item = hearts.last();
        if same_cell(coord, item.0) && prev.hearts.0 + item.1.0 <= prev.max.0 {
            prefix.push(PickedUpHearts { entity, hearts: item.1 })
        } else {
            prefix
        }
    }
}

/// The heart entities one bearer consumes while walking the heart list.
pub open spec fn spec_bearer_despawns(
    h: Health,
    coord: TileCoordinate,
    hearts: Seq<HeartItem>,
) -> Seq<u64>
    decreases hearts.len(),
{
    if hearts.len() == 0 {
        Seq::empty()
    } else {
        let prefix = spec_bearer_despawns(h, coord, hearts.drop_last());
        let prev = spec_health_after(h, coord, hearts.drop_last());
        let item = hearts.last();
        if same_cell(coord, item.0) && prev.hearts.0 + item.1.0 <= prev.max.0 {
            prefix.push(item.2)
        } else {
            prefix
        }
    }
}

/// The pickup events of a whole roster of bearers, bearer by bearer.
pub open spec fn spec_all_events(bearers: Seq<HealthBearer>, hearts: Seq<HeartItem>) -> Seq<
    PickedUpHearts,
>
    decreases bearers.len(),
{
    if bearers.len() == 0 {
        Seq::empty()
    } else {
        let b = bearers.last();
        spec_all_events(bearers.drop_last(), hearts) + spec_bearer_events(b.1, b.0, b.2, hearts)
    }
}

/// The heart entities consumed by a whole roster of bearers. A heart
/// consumed by several bearers in the same pass appears once per
/// consumer, as each consumption asks for its removal.
pub open spec fn spec_all_despawns(bearers: Seq<HealthBearer>, hearts: Seq<HeartItem>) -> Seq<u64>
    decreases bearers.len(),
{
    if bearers.len() == 0 {
        Seq::empty()
    } else {
        let b = bearers.last();
        spec_all_despawns(bearers.drop_last(), hearts) + spec_bearer_despawns(b.1, b.0, hearts)
    }
}

/// Walking the heart list never changes the maximum, and the carried
/// health either stays under the maximum or is never touched at all.
pub proof fn lemma_health_after_bounds(h: Health, coord: TileCoordinate, hearts: Seq<HeartItem>)
    ensures
        spec_health_after(h, coord, hearts).max == h.max,
        spec_health_after(h, coord, hearts).hearts.0 <= h.max.0 || spec_health_after(
            h,
            coord,
            hearts,
        ) == h,
    decreases hearts.len(),
{
    if hearts.len() > 0 {
        lemma_health_after_bounds(h, coord, hearts.drop_last());
    }
}

/// Health that starts under its maximum stays under it, whatever hearts
/// are walked: the pickup rule caps the total.
pub proof fn lemma_pickup_capped(h: Health, coord: TileCoordinate, hearts: Seq<HeartItem>)
    requires
        h.hearts.0 <= h.max.0,
    ensures
        spec_health_after(h, coord, hearts).hearts.0 <= h.max.0,
    decreases hearts.len(),
{
    if hearts.len() > 0 {
        lemma_pickup_capped(h, coord, hearts.drop_last());
        lemma_health_after_bounds(h, coord, hearts.drop_last());
    }
}

/// One pass of heart pickups: every bearer walks the heart list in
/// order and absorbs each heart on its cell whose gain fits under its
/// maximum. Returns the pickup events and the consumed heart entities,
/// in bearer-major order. Heart removal is deferred, so two bearers on
/// one cell both absorb the same heart, as both see it still present.
pub fn check_for_heart(bearers: &mut Vec<HealthBearer>, hearts: &Vec<HeartItem>) -> (r: (
    Vec<PickedUpHearts>,
    Vec<u64>,
))
    requires
        forall|b: int, j: int|
            0 <= b < old(bearers)@.len() && 0 <= j < hearts@.len() ==> (#[trigger] old(
                bearers,
            )@[b]).1.hearts.0 + (#[trigger] hearts@[j]).1.0 <= usize::MAX && old(
                bearers,
            )@[b].1.max.0 + hearts@[j].1.0 <= usize::MAX,
    ensures
        final(bearers)@.len() == old(bearers)@.len(),
        forall|b: int|
            0 <= b < old(bearers)@.len() ==> (#[trigger] final(bearers)@[b]).0 == old(
                bearers,
            )@[b].0 && final(bearers)@[b].2 == old(bearers)@[b].2 && final(bearers)@[b].1
                == spec_health_after(old(bearers)@[b].1, old(bearers)@[b].0, hearts@),
        r.0@ == spec_all_events(old(bearers)@, hearts@),
        r.1@ == spec_all_despawns(old(bearers)@, hearts@),
{
    let ghost bs0 = bearers@;
    let mut events: Vec<PickedUpHearts> = Vec::new();
    let mut despawned: Vec<u64> = Vec::new();
    let mut b: usize = 0;
    while b < bearers.len()
        invariant
            b <= bearers@.len(),
            bearers@.len() == bs0.len(),
            forall|q: int| b <= q < bs0.len() ==> (#[trigger] bearers@[q]) == bs0[q],
            forall|q: int|
                0 <= q < b ==> (#[trigger] bearers@[q]).0 == bs0[q].0 && bearers@[q].2 == bs0[q].2
                    && bearers@[q].1 == spec_health_after(bs0[q].1, bs0[q].0, hearts@),
            events@ == spec_all_events(bs0.take(b as int), hearts@),
            despawned@ == spec_all_despawns(bs0.take(b as int), hearts@),
            forall|q: int, j: int|
                0 <= q < bs0.len() && 0 <= j < hearts@.len() ==> (#[trigger] bs0[q]).1.hearts.0 + (
                #[trigger] hearts@[j]).1.0 <= usize::MAX && bs0[q].1.max.0 + hearts@[j].1.0
                    <= usize::MAX,
        decreases bearers@.len() - b,
    {
        let (coord, h0, id) = bearers[b];
        let ghost hinit = h0;
        let mut h = h0;
        let mut j: usize = 0;
        while j < hearts.len()
            invariant
                j <= hearts@.len(),
                h == spec_health_after(hinit, coord, hearts@.take(j as int)),
                events@ == spec_all_events(bs0.take(b as int), hearts@) + spec_bearer_events(
                    hinit,
                    coord,
                    id,
                    hearts@.take(j as int),
                ),
                despawned@ == spec_all_despawns(bs0.take(b as int), hearts@)
                    + spec_bearer_despawns(hinit, coord, hearts@.take(j as int)),
                forall|jj: int|
                    0 <= jj < hearts@.len() ==> hinit.hearts.0 + (#[trigger] hearts@[jj]).1.0
                        <= usize::MAX && hinit.max.0 + hearts@[jj].1.0 <= usize::MAX,
            decreases hearts@.len() - j,
        {
            let (hcoord, hvalue, hid) = hearts[j];
            proof {
                assert(hearts@.take(j + 1).drop_last() =~= hearts@.take(j as int));
                assert(hearts@.take(j + 1).last() == hearts@[j as int]);
                lemma_health_after_bounds(hinit, coord, hearts@.take(j as int));
            }
            if coord.eq2d(&hcoord) && h.hearts.0 + hvalue.0 <= h.max.0 {
                h = Health { hearts: Hearts(h.hearts.0 + hvalue.0), max: h.max };
                events.push(PickedUpHearts { entity: id, hearts: hvalue });
                despawned.push(hid);
            }
            j += 1;
        }
        proof {
            assert(hearts@.take(hearts@.len() as int) =~= hearts@);
        }
        bearers[b] = (coord, h, id);
        proof {
            assert(bs0.take(b + 1).drop_last() =~= bs0.take(b as int));
            assert(bs0.take(b + 1).last() == bs0[b as int]);
        }
        b += 1;
    }
    proof {
        assert(bs0.take(bs0.len() as int) =~= bs0);
    }
    (events, despawned)
}

} // verus!
