//! Grid movement: where a directional input sends a player, which moves
//! are blocked by solid tiles, and which trigger an interaction.

use vstd::prelude::*;

use crate::controls::Direction;
use crate::tile_index::TileIndex;
use crate::tiles::TileCoordinate;

verus! {

/// A player moved from `start` to `end`.
#[derive(Clone, Copy, PartialEq, Eq, Structural, Debug)]
pub struct MoveTriggered {
    pub mover: u64,
    pub start: TileCoordinate,
    pub end: TileCoordinate,
}

/// A player's move was blocked by a solid entity.
#[derive(Clone, Copy, PartialEq, Eq, Structural, Debug)]
pub struct MoveBlocked {
    pub mover: u64,
    pub blocked_by: u64,
}

/// A player stepped against an interactable entity.
#[derive(Clone, Copy, PartialEq, Eq, Structural, Debug)]
pub struct InteractionTriggered {
    pub triggered_by: u64,
    pub interacted_with: u64,
}

/// How one directional input ends for one player: a move, or a bump.
#[derive(Clone, Copy, PartialEq, Eq, Structural, Debug)]
pub enum MoveOutcome {
    Moved(MoveTriggered),
    Blocked(MoveBlocked),
}

/// Everything one directional input does to one player.
#[derive(Clone, Copy, PartialEq, Eq, Structural, Debug)]
pub struct MoveResolution {
    pub interaction: Option<InteractionTriggered>,
    pub outcome: MoveOutcome,
}

/// The cell one step in `direction` from `c`, on the same depth.
pub open spec fn spec_move_target(c: TileCoordinate, direction: Direction) -> TileCoordinate {
    match direction {
        Direction::Left => TileCoordinate { x: (c.x - 1) as i32, y: c.y, z: c.z },
        Direction::Right => TileCoordinate { x: (c.x + 1) as i32, y: c.y, z: c.z },
        Direction::Up => TileCoordinate { x: c.x, y: (c.y + 1) as i32, z: c.z },
        Direction::Down => TileCoordinate { x: c.x, y: (c.y - 1) as i32, z: c.z },
    }
}

/// The coordinate has room to step in every direction without leaving
/// the representable grid.
pub open spec fn coordinate_in_bounds(c: TileCoordinate) -> bool {
    i32::MIN < c.x < i32::MAX && i32::MIN < c.y < i32::MAX
}

/// Computes the cell one step in `direction` from `c`.
pub fn move_target(c: TileCoordinate, direction: Direction) -> (t: TileCoordinate)
    requires
        coordinate_in_bounds(c),
    ensures
        t == spec_move_target(c, direction),
{
    match direction {
        Direction::Left => TileCoordinate { x: c.x - 1, y: c.y, z: c.z },
        Direction::Right => TileCoordinate { x: c.x + 1, y: c.y, z: c.z },
        Direction::Up => TileCoordinate { x: c.x, y: c.y + 1, z: c.z },
        Direction::Down => TileCoordinate { x: c.x, y: c.y - 1, z: c.z },
    }
}

/// What one directional input does to one player: the target cell is
/// looked up in the interactable registry (an interaction fires when it
/// is occupied) and in the solid registry (an occupant blocks the move,
/// otherwise the player moves).
pub open spec fn spec_resolve(
    mover: u64,
    position: TileCoordinate,
    direction: Direction,
    solids: Map<TileCoordinate, u64>,
    interactables: Map<TileCoordinate, u64>,
) -> MoveResolution {
    let end = spec_move_target(position, direction);
    MoveResolution {
        interaction: if interactables.dom().contains(end) {
            Some(
                InteractionTriggered {
                    triggered_by: mover,
                    interacted_with: interactables[end],
                },
            )
        } else {
            None
        },
        outcome: if solids.dom().contains(end) {
            MoveOutcome::Blocked(MoveBlocked { mover, blocked_by: solids[end] })
        } else {
            MoveOutcome::Moved(MoveTriggered { mover, start: position, end })
        },
    }
}

/// Resolves one directional input for one player against the solid and
/// interactable registries.
pub fn resolve_move(
    mover: u64,
    position: TileCoordinate,
    direction: Direction,
    solids: &TileIndex,
    interactables: &TileIndex,
) -> (r: MoveResolution)
    requires
        coordinate_in_bounds(position),
    ensures
        r == spec_resolve(mover, position, direction, solids@, interactables@),
{
    let end = move_target(position, direction);
    let interaction = match interactables.get(end) {
        Some(entity) => Some(InteractionTriggered { triggered_by: mover, interacted_with: entity }),
        None => None,
    };
    let outcome = match solids.get(end) {
        Some(entity) => MoveOutcome::Blocked(MoveBlocked { mover, blocked_by: entity }),
        None => MoveOutcome::Moved(MoveTriggered { mover, start: position, end }),
    };
    MoveResolution { interaction, outcome }
}

/// Resolutions of one directional input for a roster of players, in
/// roster order. Every player reacts to the same input from the
/// position it held when the input arrived.
pub open spec fn spec_resolutions_for_event(
    direction: Direction,
    players: Seq<(u64, TileCoordinate)>,
    solids: Map<TileCoordinate, u64>,
    interactables: Map<TileCoordinate, u64>,
) -> Seq<MoveResolution>
    decreases players.len(),
{
    if players.len() == 0 {
        Seq::empty()
    } else {
        spec_resolutions_for_event(direction, players.drop_last(), solids, interactables).push(
            spec_resolve(players.last().0, players.last().1, direction, solids, interactables),
        )
    }
}

/// Resolutions of a whole batch of directional inputs, event by event:
/// the resolutions of the first event for every player, then of the
/// second, and so on. Positions are not updated between events, as a
/// frame's inputs are all read before any move is applied.
pub open spec fn spec_resolutions(
    events: Seq<Direction>,
    players: Seq<(u64, TileCoordinate)>,
    solids: Map<TileCoordinate, u64>,
    interactables: Map<TileCoordinate, u64>,
) -> Seq<MoveResolution>
    decreases events.len(),
{
    if events.len() == 0 {
        Seq::empty()
    } else {
        spec_resolutions(events.drop_last(), players, solids, interactables)
            + spec_resolutions_for_event(events.last(), players, solids, interactables)
    }
}

/// One event's resolution list has one entry per player, in roster
/// order, each the resolution of that player against the registries.
pub proof fn lemma_resolutions_for_event_indexing(
    direction: Direction,
    players: Seq<(u64, TileCoordinate)>,
    solids: Map<TileCoordinate, u64>,
    interactables: Map<TileCoordinate, u64>,
)
    ensures
        spec_resolutions_for_event(direction, players, solids, interactables).len()
            == players.len(),
        forall|p: int|
            0 <= p < players.len() ==> spec_resolutions_for_event(
                direction,
                players,
                solids,
                interactables,
            )[p] == spec_resolve(
                (#[trigger] players[p]).0,
                players[p].1,
                direction,
                solids,
                interactables,
            ),
    decreases players.len(),
{
    if players.len() > 0 {
        lemma_resolutions_for_event_indexing(direction, players.drop_last(), solids, interactables);
        assert forall|p: int| 0 <= p < players.len() implies spec_resolutions_for_event(
            direction,
            players,
            solids,
            interactables,
        )[p] == spec_resolve(
            (#[trigger] players[p]).0,
            players[p].1,
            direction,
            solids,
            interactables,
        ) by {
            if p < players.len() - 1 {
                assert(players.drop_last()[p] == players[p]);
            }
        }
    }
}

/// A batch's resolution list is event-major: one block per event, each
/// block one entry per player, every entry the resolution of that
/// player against that event.
pub proof fn lemma_resolutions_indexing(
    events: Seq<Direction>,
    players: Seq<(u64, TileCoordinate)>,
    solids: Map<TileCoordinate, u64>,
    interactables: Map<TileCoordinate, u64>,
)
    ensures
        spec_resolutions(events, players, solids, interactables).len() == events.len()
            * players.len(),
        forall|e: int, p: int|
            #![trigger events[e], players[p]]
            0 <= e < events.len() && 0 <= p < players.len() ==> spec_resolutions(
                events,
                players,
                solids,
                interactables,
            )[e * players.len() + p] == spec_resolve(
                players[p].0,
                players[p].1,
                events[e],
                solids,
                interactables,
            ),
    decreases events.len(),
{
    let all = spec_resolutions(events, players, solids, interactables);
    let n = events.len() as int;
    let m = players.len() as int;
    if events.len() > 0 {
        lemma_resolutions_indexing(events.drop_last(), players, solids, interactables);
        lemma_resolutions_for_event_indexing(events.last(), players, solids, interactables);
        assert((n - 1) * m + m == n * m) by (nonlinear_arith);
        assert forall|e: int, p: int|
            0 <= e < n && 0 <= p < m implies all[e * m + p] == spec_resolve(
            (#[trigger] players[p]).0,
            players[p].1,
            #[trigger] events[e],
            solids,
            interactables,
        ) by {
            let prefix = spec_resolutions(events.drop_last(), players, solids, interactables);
            if e < n - 1 {
                assert(0 <= e * m + p < (n - 1) * m) by (nonlinear_arith)
                    requires
                        0 <= e < n - 1,
                        0 <= p < m,
                ;
                assert(events.drop_last()[e] == events[e]);
                assert(all[e * m + p] == prefix[e * m + p]);
            } else {
                assert(e * m + p == prefix.len() + p) by (nonlinear_arith)
                    requires
                        e == n - 1,
                        prefix.len() == (n - 1) * m,
                ;
            }
        }
    }
}

/// Resolves a frame's directional inputs for every player. Each event
/// is resolved for each player in order; player positions are the ones
/// given, unchanged throughout the batch.
pub fn handle_input(
    events: &Vec<Direction>,
    players: &Vec<(u64, TileCoordinate)>,
    solids: &TileIndex,
    interactables: &TileIndex,
) -> (resolutions: Vec<MoveResolution>)
    requires
        forall|p: int|
            0 <= p < players@.len() ==> coordinate_in_bounds((#[trigger] players@[p]).1),
    ensures
        resolutions@ == spec_resolutions(events@, players@, solids@, interactables@),
{
    let mut resolutions: Vec<MoveResolution> = Vec::new();
    let mut e: usize = 0;
    while e < events.len()
        invariant
            e <= events@.len(),
            forall|p: int|
                0 <= p < players@.len() ==> coordinate_in_bounds((#[trigger] players@[p]).1),
            resolutions@ == spec_resolutions(
                events@.take(e as int),
                players@,
                solids@,
                interactables@,
            ),
        decreases events@.len() - e,
    {
        let direction = events[e];
        let ghost before_event = resolutions@;
        let mut p: usize = 0;
        while p < players.len()
            invariant
                p <= players@.len(),
                e < events@.len(),
                direction == events@[e as int],
                forall|q: int|
                    0 <= q < players@.len() ==> coordinate_in_bounds((#[trigger] players@[q]).1),
                resolutions@ == before_event + spec_resolutions_for_event(
                    direction,
                    players@.take(p as int),
                    solids@,
                    interactables@,
                ),
            decreases players@.len() - p,
        {
            let (mover, position) = players[p];
            let r = resolve_move(mover, position, direction, solids, interactables);
            resolutions.push(r);
            proof {
                assert(players@.take(p + 1).drop_last() =~= players@.take(p as int));
                assert(players@.take(p + 1).last() == players@[p as int]);
            }
            p += 1;
        }
        proof {
            assert(players@.take(players@.len() as int) =~= players@);
            assert(events@.take(e + 1).drop_last() =~= events@.take(e as int));
            assert(events@.take(e + 1).last() == events@[e as int]);
        }
        e += 1;
    }
    proof {
        assert(events@.take(events@.len() as int) =~= events@);
    }
    resolutions
}

} // verus!
