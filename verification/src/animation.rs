//! Move animations: a once-only millisecond timer and the straight-line
//! interpolation of a sprite between two tiles' world positions.

use vstd::prelude::*;

use crate::tiles::PIXELS_PER_TILE;
use crate::tiles::TileCoordinate;
use crate::tiles::WorldPosition;

verus! {

/// How long a move animation runs, in milliseconds.
pub const ANIM_DURATION: u64 = 200;

/// A once-only timer counted in whole milliseconds. It accumulates
/// ticked time up to its duration and then stays there.
#[derive(Clone, Copy, PartialEq, Eq, Structural, Debug)]
pub struct AnimationTimer {
    pub elapsed_ms: u64,
    pub duration_ms: u64,
}

impl AnimationTimer {
    /// A fresh timer that will run for `duration_ms`.
    pub fn new(duration_ms: u64) -> (t: Self)
        ensures
            t.elapsed_ms == 0,
            t.duration_ms == duration_ms,
    {
        AnimationTimer { elapsed_ms: 0, duration_ms }
    }

    /// The timer has used up its whole duration.
    pub open spec fn spec_finished(&self) -> bool {
        self.elapsed_ms >= self.duration_ms
    }

    /// Advances the timer by `delta_ms`, saturating at the duration,
    /// and reports whether the timer is (now or already) finished.
    pub fn tick(&mut self, delta_ms: u64) -> (finished: bool)
        ensures
            final(self).duration_ms == old(self).duration_ms,
            final(self).elapsed_ms == (if old(self).elapsed_ms + delta_ms >= old(
                self,
            ).duration_ms {
                old(self).duration_ms
            } else {
                (old(self).elapsed_ms + delta_ms) as u64
            }),
            finished == final(self).spec_finished(),
    {
        if delta_ms >= self.duration_ms || self.elapsed_ms >= self.duration_ms - delta_ms {
            self.elapsed_ms = self.duration_ms;
        } else {
            self.elapsed_ms = self.elapsed_ms + delta_ms;
        }
        self.elapsed_ms >= self.duration_ms
    }

    /// The timer still runs.
    pub fn finished(&self) -> (r: bool)
        ensures
            r == self.spec_finished(),
    {
        self.elapsed_ms >= self.duration_ms
    }
}

/// A sprite sliding from the cell `start` to the cell `end`, driven by
/// a timer.
#[derive(Clone, Copy, PartialEq, Eq, Structural, Debug)]
pub struct MoveAnimation {
    pub timer: AnimationTimer,
    pub start: TileCoordinate,
    pub end: TileCoordinate,
}

impl MoveAnimation {
    /// An animation from `start` to `end` over the standard duration.
    pub fn new(start: TileCoordinate, end: TileCoordinate) -> (a: Self)
        ensures
            a.timer.elapsed_ms == 0,
            a.timer.duration_ms == ANIM_DURATION,
            a.start == start,
            a.end == end,
    {
        MoveAnimation { timer: AnimationTimer::new(ANIM_DURATION), start, end }
    }
}

impl Default for MoveAnimation {
    /// A standard-duration animation resting on the origin cell.
    fn default() -> (a: Self)
        ensures
            a.timer.elapsed_ms == 0,
            a.timer.duration_ms == ANIM_DURATION,
            a.start == (TileCoordinate { x: 0, y: 0, z: 0 }),
            a.end == (TileCoordinate { x: 0, y: 0, z: 0 }),
    {
        MoveAnimation {
            timer: AnimationTimer::new(ANIM_DURATION),
            start: TileCoordinate { x: 0, y: 0, z: 0 },
            end: TileCoordinate { x: 0, y: 0, z: 0 },
        }
    }
}

/// The point `t/d` of the way from `s` to `e`, rounded towards `s`.
pub open spec fn spec_lerp(s: int, e: int, t: int, d: int) -> int {
    if e >= s {
        s + ((e - s) * t) / d
    } else {
        s - ((s - e) * t) / d
    }
}

/// The interpolant stays between its endpoints.
pub proof fn lemma_lerp_bounds(s: int, e: int, t: int, d: int)
    requires
        0 < d,
        0 <= t <= d,
    ensures
        e >= s ==> s <= spec_lerp(s, e, t, d) <= e,
        e < s ==> e <= spec_lerp(s, e, t, d) <= s,
{
    if e >= s {
        assert(0 <= ((e - s) * t) / d <= e - s) by (nonlinear_arith)
            requires
                0 < d,
                0 <= t <= d,
                e >= s,
        ;
    } else {
        assert(0 <= ((s - e) * t) / d <= s - e) by (nonlinear_arith)
            requires
                0 < d,
                0 <= t <= d,
                e < s,
        ;
    }
}

/// At time zero the interpolant sits on `s`; at full time, on `e`.
pub proof fn lemma_lerp_endpoints(s: int, e: int, d: int)
    requires
        0 < d,
    ensures
        spec_lerp(s, e, 0, d) == s,
        spec_lerp(s, e, d, d) == e,
{
    assert(spec_lerp(s, e, 0, d) == s) by (nonlinear_arith)
        requires
            0 < d,
    ;
    assert(spec_lerp(s, e, d, d) == e) by (nonlinear_arith)
        requires
            0 < d,
    ;
}

/// The point `t/d` of the way from `s` to `e`, in whole pixels.
fn lerp_i64(s: i64, e: i64, t: u64, d: u64) -> (r: i64)
    requires
        0 < d,
        t <= d,
    ensures
        r == spec_lerp(s as int, e as int, t as int, d as int),
{
    proof {
        lemma_lerp_bounds(s as int, e as int, t as int, d as int);
    }
    if e >= s {
        let diff = (e as i128 - s as i128) as u128;
        proof {
            assert(diff <= 0xffff_ffff_ffff_ffffu128);
            assert(diff * (t as u128) <= 0xffff_ffff_ffff_ffffu128 * 0xffff_ffff_ffff_ffffu128)
                by (nonlinear_arith)
                requires
                    diff <= 0xffff_ffff_ffff_ffffu128,
                    t <= 0xffff_ffff_ffff_ffffu64,
            ;
        }
        let offset = (diff * (t as u128)) / (d as u128);
        proof {
            assert(diff * (t as u128) <= diff * (d as u128)) by (nonlinear_arith)
                requires
                    t <= d,
                    0 <= diff,
            ;
            assert(offset == ((e - s) * t) / (d as int));
        }
        (s as i128 + offset as i128) as i64
    } else {
        let diff = (s as i128 - e as i128) as u128;
        proof {
            assert(diff <= 0xffff_ffff_ffff_ffffu128);
            assert(diff * (t as u128) <= 0xffff_ffff_ffff_ffffu128 * 0xffff_ffff_ffff_ffffu128)
                by (nonlinear_arith)
                requires
                    diff <= 0xffff_ffff_ffff_ffffu128,
                    t <= 0xffff_ffff_ffff_ffffu64,
            ;
        }
        let offset = (diff * (t as u128)) / (d as u128);
        proof {
            assert(diff * (t as u128) <= diff * (d as u128)) by (nonlinear_arith)
                requires
                    t <= d,
                    0 <= diff,
            ;
            assert(offset == ((s - e) * t) / (d as int));
        }
        (s as i128 - offset as i128) as i64
    }
}

/// Where the animated sprite stands in world space: each axis is the
/// timer's fraction of the way from the start cell's world position to
/// the end cell's; depth is pinned to zero while the slide runs.
pub open spec fn spec_animated_world_position(a: MoveAnimation) -> WorldPosition {
    WorldPosition {
        x: spec_lerp(
            PIXELS_PER_TILE * a.start.x,
            PIXELS_PER_TILE * a.end.x,
            a.timer.elapsed_ms as int,
            a.timer.duration_ms as int,
        ) as i64,
        y: spec_lerp(
            PIXELS_PER_TILE * a.start.y,
            PIXELS_PER_TILE * a.end.y,
            a.timer.elapsed_ms as int,
            a.timer.duration_ms as int,
        ) as i64,
        z: 0,
    }
}

/// Computes where the animated sprite stands in world space.
pub fn animated_world_position(a: &MoveAnimation) -> (p: WorldPosition)
    requires
        a.timer.duration_ms > 0,
        a.timer.elapsed_ms <= a.timer.duration_ms,
    ensures
        p == spec_animated_world_position(*a),
{
    let sw = a.start.world_position();
    let ew = a.end.world_position();
    proof {
        lemma_lerp_bounds(sw.x as int, ew.x as int, a.timer.elapsed_ms as int, a.timer.duration_ms as int);
        lemma_lerp_bounds(sw.y as int, ew.y as int, a.timer.elapsed_ms as int, a.timer.duration_ms as int);
    }
    WorldPosition {
        x: lerp_i64(sw.x, ew.x, a.timer.elapsed_ms, a.timer.duration_ms),
        y: lerp_i64(sw.y, ew.y, a.timer.elapsed_ms, a.timer.duration_ms),
        z: 0,
    }
}

/// The coordinate an entity takes when its move animation changes: the
/// animation's destination cell, on the entity's current depth.
pub fn coordinate_after_move(a: &MoveAnimation, current: TileCoordinate) -> (r: TileCoordinate)
    ensures
        r.x == a.end.x,
        r.y == a.end.y,
        r.z == current.z,
{
    TileCoordinate { x: a.end.x, y: a.end.y, z: current.z }
}

/// The animations after all timers ticked by `delta_ms`, in order.
pub open spec fn spec_ticked(s: Seq<(u64, MoveAnimation)>, delta_ms: u64) -> Seq<
    (u64, MoveAnimation),
> {
    Seq::new(
        s.len(),
        |i: int|
            (
                s[i].0,
                MoveAnimation {
                    timer: AnimationTimer {
                        elapsed_ms: if s[i].1.timer.elapsed_ms + delta_ms
                            >= s[i].1.timer.duration_ms {
                            s[i].1.timer.duration_ms
                        } else {
                            (s[i].1.timer.elapsed_ms + delta_ms) as u64
                        },
                        duration_ms: s[i].1.timer.duration_ms,
                    },
                    start: s[i].1.start,
                    end: s[i].1.end,
                },
            ),
    )
}

/// The entities whose animation is finished after the tick, in order.
/// A finished animation reports again every frame until it is removed.
pub open spec fn spec_finished_ids(s: Seq<(u64, MoveAnimation)>, delta_ms: u64) -> Seq<u64>
    decreases s.len(),
{
    if s.len() == 0 {
        Seq::empty()
    } else {
        let prefix = spec_finished_ids(s.drop_last(), delta_ms);
        if spec_ticked(s, delta_ms).last().1.timer.spec_finished() {
            prefix.push(s.last().0)
        } else {
            prefix
        }
    }
}

/// Ticks every animation's timer by `delta_ms` and reports, in roster
/// order, the entities whose animation is finished.
pub fn update_animation_timer(animations: &mut Vec<(u64, MoveAnimation)>, delta_ms: u64) -> (
    finished: Vec<u64>)
    ensures
        final(animations)@ == spec_ticked(old(animations)@, delta_ms),
        finished@ == spec_finished_ids(old(animations)@, delta_ms),
{
    let ghost s0 = animations@;
    let mut finished: Vec<u64> = Vec::new();
    let mut i: usize = 0;
    while i < animations.len()
        invariant
            i <= animations@.len(),
            animations@.len() == s0.len(),
            forall|q: int| i <= q < s0.len() ==> (#[trigger] animations@[q]) == s0[q],
            forall|q: int| 0 <= q < i ==> (#[trigger] animations@[q]) == spec_ticked(s0, delta_ms)[q],
            finished@ == spec_finished_ids(s0.take(i as int), delta_ms),
        decreases animations@.len() - i,
    {
        let (id, animation) = animations[i];
        let mut ticked = animation;
        let done = ticked.timer.tick(delta_ms);
        animations[i] = (id, ticked);
        if done {
            finished.push(id);
        }
        proof {
            assert(s0.take(i + 1).drop_last() =~= s0.take(i as int));
            assert(s0.take(i + 1).last() == s0[i as int]);
            assert(spec_ticked(s0.take(i + 1), delta_ms).last() == spec_ticked(s0, delta_ms)[i as int]);
            assert(spec_finished_ids(s0.take(i + 1), delta_ms) == (if spec_ticked(
                s0,
                delta_ms,
            )[i as int].1.timer.spec_finished() {
                spec_finished_ids(s0.take(i as int), delta_ms).push(s0[i as int].0)
            } else {
                spec_finished_ids(s0.take(i as int), delta_ms)
            }));
        }
        i += 1;
    }
    proof {
        assert(s0.take(s0.len() as int) =~= s0);
        assert(animations@ =~= spec_ticked(s0, delta_ms));
    }
    finished
}

/// Whether the batch of finished reports names `id`.
pub open spec fn animation_finished(finished: Seq<u64>, id: u64) -> bool {
    exists|i: int| 0 <= i < finished.len() && finished[i] == id
}

/// The animations that survive a batch of finished reports, in order:
/// exactly those whose entity is not named.
pub open spec fn without_finished_animations(
    animations: Seq<(u64, MoveAnimation)>,
    finished: Seq<u64>,
) -> Seq<(u64, MoveAnimation)>
    decreases animations.len(),
{
    if animations.len() == 0 {
        Seq::empty()
    } else if animation_finished(finished, animations.last().0) {
        without_finished_animations(animations.drop_last(), finished)
    } else {
        without_finished_animations(animations.drop_last(), finished).push(animations.last())
    }
}

/// Whether the batch of finished reports names `id`.
fn contains_id(finished: &Vec<u64>, id: u64) -> (r: bool)
    ensures
        r == animation_finished(finished@, id),
{
    let mut i: usize = 0;
    while i < finished.len()
        invariant
            i <= finished@.len(),
            forall|j: int| 0 <= j < i ==> finished@[j] != id,
        decreases finished@.len() - i,
    {
        if finished[i] == id {
            return true;
        }
        i += 1;
    }
    false
}

/// Removes the move animation of every entity named in a batch of
/// finished reports; the other animations survive in order.
pub fn cleanup_animations(finished: &Vec<u64>, animations: &mut Vec<(u64, MoveAnimation)>)
    ensures
        final(animations)@ == without_finished_animations(old(animations)@, finished@),
{
    let ghost s0 = animations@;
    let mut kept: Vec<(u64, MoveAnimation)> = Vec::new();
    let mut i: usize = 0;
    while i < animations.len()
        invariant
            i <= animations@.len(),
            animations@ == s0,
            kept@ == without_finished_animations(s0.take(i as int), finished@),
        decreases animations@.len() - i,
    {
        let (id, animation) = animations[i];
        proof {
            assert(s0.take(i + 1).drop_last() =~= s0.take(i as int));
            assert(s0.take(i + 1).last() == s0[i as int]);
        }
        if !contains_id(finished, id) {
            kept.push((id, animation));
        }
        i += 1;
    }
    proof {
        assert(s0.take(s0.len() as int) =~= s0);
    }
    *animations = kept;
}

} // verus!
