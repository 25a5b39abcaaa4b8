//! The tutorial countdown: hint sprites carry a counter that ticks once
//! per directional input and fires a finished signal on reaching zero,
//! after which the counter is removed.

use vstd::prelude::*;

use crate::controls::Direction;

verus! {

/// Counts inputs down towards zero. Zero means no countdown is pending,
/// or that one has finished.
#[derive(Clone, Copy, Debug)]
pub struct TutorialCountdown(u64);

impl TutorialCountdown {
    /// Steps still to count.
    pub closed spec fn spec_remaining(&self) -> u64 {
        self.0
    }

    /// A countdown with `initial` steps to go.
    pub fn new(initial: u64) -> (c: Self)
        ensures
            c.spec_remaining() == initial,
    {
        TutorialCountdown(initial)
    }

    /// Steps still to count.
    pub fn remaining(&self) -> (r: u64)
        ensures
            r == self.spec_remaining(),
    {
        self.0
    }

    /// Ticks the counter once: a positive count drops by one and the
    /// tick reports whether it just hit zero; a zero count stays put
    /// and never reports.
    pub fn count_down(&mut self) -> (finished: bool)
        ensures
            old(self).spec_remaining() == 0 ==> final(self).spec_remaining() == 0 && !finished,
            old(self).spec_remaining() > 0 ==> final(self).spec_remaining() == old(
                self,
            ).spec_remaining() - 1 && (finished <==> final(self).spec_remaining() == 0),
    {
        if self.0 != 0 {
            self.0 = self.0 - 1;
            self.0 == 0
        } else {
            false
        }
    }
}

impl Default for TutorialCountdown {
    /// A countdown with nothing to count.
    fn default() -> (c: Self)
        ensures
            c.spec_remaining() == 0,
    {
        TutorialCountdown(0)
    }
}

/// Asks the counter on the named entity to tick once.
#[derive(Clone, Copy, PartialEq, Eq, Structural, Debug)]
pub struct CountDownTutorialCounter(pub u64);

/// The counter on the named entity just reached zero.
#[derive(Clone, Copy, PartialEq, Eq, Structural, Debug)]
pub struct CountDownFinished(pub u64);

/// The ids in a batch of tick requests, in order.
pub open spec fn event_ids(events: Seq<CountDownTutorialCounter>) -> Seq<u64> {
    Seq::new(events.len(), |i: int| events[i].0)
}

/// The (id, remaining) pairs a counter roster stands for, in order.
pub open spec fn counters_view(counters: Seq<(u64, TutorialCountdown)>) -> Seq<(u64, u64)> {
    Seq::new(counters.len(), |i: int| (counters[i].0, counters[i].1.spec_remaining()))
}

/// The ids in a counter roster are pairwise distinct: each entity holds
/// at most one counter.
pub open spec fn counter_ids_distinct(counters: Seq<(u64, TutorialCountdown)>) -> bool {
    forall|i: int, j: int|
        0 <= i < j < counters.len() ==> (#[trigger] counters[i]).0 != (#[trigger] counters[j]).0
}

/// One tick request against a roster: the addressed counter, if present
/// and positive, drops by one; everything else is untouched.
pub open spec fn spec_step(cs: Seq<(u64, u64)>, id: u64) -> Seq<(u64, u64)> {
    if exists|i: int| 0 <= i < cs.len() && (#[trigger] cs[i]).0 == id {
        let i = choose|i: int| 0 <= i < cs.len() && (#[trigger] cs[i]).0 == id;
        if cs[i].1 != 0 {
            cs.update(i, (id, (cs[i].1 - 1) as u64))
        } else {
            cs
        }
    } else {
        cs
    }
}

/// A tick request fires the finished signal exactly when the addressed
/// counter stands at one, about to reach zero.
pub open spec fn spec_fires(cs: Seq<(u64, u64)>, id: u64) -> bool {
    exists|i: int| 0 <= i < cs.len() && (#[trigger] cs[i]).0 == id && cs[i].1 == 1
}

/// The roster after a batch of tick requests, applied in order.
pub open spec fn spec_run(cs: Seq<(u64, u64)>, ids: Seq<u64>) -> Seq<(u64, u64)>
    decreases ids.len(),
{
    if ids.len() == 0 {
        cs
    } else {
        spec_step(spec_run(cs, ids.drop_last()), ids.last())
    }
}

/// The ids whose counters finish during a batch of tick requests, in
/// the order they finish.
pub open spec fn spec_fired_ids(cs: Seq<(u64, u64)>, ids: Seq<u64>) -> Seq<u64>
    decreases ids.len(),
{
    if ids.len() == 0 {
        Seq::empty()
    } else {
        spec_fired_ids(cs, ids.drop_last()) + (if spec_fires(
            spec_run(cs, ids.drop_last()),
            ids.last(),
        ) {
            seq![ids.last()]
        } else {
            Seq::empty()
        })
    }
}

/// The ids in a roster view are pairwise distinct.
pub open spec fn view_ids_distinct(cs: Seq<(u64, u64)>) -> bool {
    forall|i: int, j: int|
        0 <= i < j < cs.len() ==> (#[trigger] cs[i]).0 != (#[trigger] cs[j]).0
}

/// One tick request moves no counter, renames none, and keeps the ids
/// distinct.
pub proof fn lemma_step_preserves_ids(cs: Seq<(u64, u64)>, id: u64)
    requires
        view_ids_distinct(cs),
    ensures
        spec_step(cs, id).len() == cs.len(),
        forall|i: int| 0 <= i < cs.len() ==> (#[trigger] spec_step(cs, id)[i]).0 == cs[i].0,
        view_ids_distinct(spec_step(cs, id)),
{
    if exists|i: int| 0 <= i < cs.len() && (#[trigger] cs[i]).0 == id {
        let i = choose|i: int| 0 <= i < cs.len() && (#[trigger] cs[i]).0 == id;
        assert(spec_step(cs, id).len() == cs.len());
    }
}

/// A batch of tick requests moves no counter, renames none, and keeps
/// the ids distinct.
pub proof fn lemma_run_preserves_ids(cs: Seq<(u64, u64)>, ids: Seq<u64>)
    requires
        view_ids_distinct(cs),
    ensures
        spec_run(cs, ids).len() == cs.len(),
        forall|i: int| 0 <= i < cs.len() ==> (#[trigger] spec_run(cs, ids)[i]).0 == cs[i].0,
        view_ids_distinct(spec_run(cs, ids)),
    decreases ids.len(),
{
    if ids.len() > 0 {
        lemma_run_preserves_ids(cs, ids.drop_last());
        lemma_step_preserves_ids(spec_run(cs, ids.drop_last()), ids.last());
    }
}

/// A finished signal tells the truth: after the batch, the counter of
/// every entity it names stands at zero.
pub proof fn lemma_fired_counter_is_zero(cs: Seq<(u64, u64)>, ids: Seq<u64>, id: u64)
    requires
        view_ids_distinct(cs),
        spec_fired_ids(cs, ids).contains(id),
    ensures
        forall|i: int|
            0 <= i < spec_run(cs, ids).len() && (#[trigger] spec_run(cs, ids)[i]).0 == id
                ==> spec_run(cs, ids)[i].1 == 0,
    decreases ids.len(),
{
    let run = spec_run(cs, ids);
    let fired = spec_fired_ids(cs, ids);
    if ids.len() > 0 {
        let prev = spec_run(cs, ids.drop_last());
        let e = ids.last();
        lemma_run_preserves_ids(cs, ids.drop_last());
        lemma_run_preserves_ids(cs, ids);
        let fired_before = spec_fired_ids(cs, ids.drop_last());
        if fired_before.contains(id) {
            lemma_fired_counter_is_zero(cs, ids.drop_last(), id);
            assert forall|i: int| 0 <= i < run.len() && (#[trigger] run[i]).0 == id implies run[i].1
                == 0 by {
                assert(prev[i].0 == id && prev[i].1 == 0);
                if exists|j: int| 0 <= j < prev.len() && (#[trigger] prev[j]).0 == e {
                    let j = choose|j: int| 0 <= j < prev.len() && (#[trigger] prev[j]).0 == e;
                    if prev[j].1 != 0 {
                        assert(j != i);
                        assert(run[i] == prev[i]);
                    }
                }
            }
        } else {
            // the signal came from the very last tick, which set the
            // counter to zero
            let k = choose|k: int| 0 <= k < fired.len() && fired[k] == id;
            assert(k == fired.len() - 1 && spec_fires(prev, e) && id == e);
            let j = choose|j: int| 0 <= j < prev.len() && (#[trigger] prev[j]).0 == e && prev[j].1 == 1;
            let j2 = choose|j2: int| 0 <= j2 < prev.len() && (#[trigger] prev[j2]).0 == e;
            assert(j2 == j);
            assert(run == prev.update(j, (e, 0u64)));
            assert forall|i: int| 0 <= i < run.len() && (#[trigger] run[i]).0 == id implies run[i].1
                == 0 by {
                assert(prev[i].0 == id);
                assert(i == j);
            }
        }
    }
}

/// Position of the counter for `id`, if the entity holds one.
fn find_counter(counters: &Vec<(u64, TutorialCountdown)>, id: u64) -> (r: Option<usize>)
    ensures
        match r {
            Some(i) => i < counters@.len() && counters@[i as int].0 == id,
            None => forall|j: int| 0 <= j < counters@.len() ==> (#[trigger] counters@[j]).0 != id,
        },
{
    let mut i: usize = 0;
    while i < counters.len()
        invariant
            i <= counters@.len(),
            forall|j: int| 0 <= j < i ==> (#[trigger] counters@[j]).0 != id,
        decreases counters@.len() - i,
    {
        if counters[i].0 == id {
            return Some(i);
        }
        i += 1;
    }
    None
}

/// Applies a batch of tick requests to a roster of counters, in order.
/// A request for an entity without a counter does nothing; a request
/// against a zero counter does nothing; otherwise the counter drops by
/// one and, on reaching zero, the entity's finished signal is emitted.
pub fn countdown(
    events: &Vec<CountDownTutorialCounter>,
    counters: &mut Vec<(u64, TutorialCountdown)>,
) -> (finished: Vec<CountDownFinished>)
    requires
        counter_ids_distinct(old(counters)@),
    ensures
        counters_view(final(counters)@) == spec_run(
            counters_view(old(counters)@),
            event_ids(events@),
        ),
        counter_ids_distinct(final(counters)@),
        ({
            let fired = spec_fired_ids(counters_view(old(counters)@), event_ids(events@));
            finished@.len() == fired.len() && forall|k: int|
                0 <= k < fired.len() ==> (#[trigger] finished@[k]).0 == fired[k]
        }),
{
    let ghost cs0 = counters_view(counters@);
    let ghost ids = event_ids(events@);
    let mut finished: Vec<CountDownFinished> = Vec::new();
    let mut e: usize = 0;
    while e < events.len()
        invariant
            e <= events@.len(),
            ids == event_ids(events@),
            counter_ids_distinct(counters@),
            counters_view(counters@) == spec_run(cs0, ids.take(e as int)),
            ({
                let fired = spec_fired_ids(cs0, ids.take(e as int));
                finished@.len() == fired.len() && forall|k: int|
                    0 <= k < fired.len() ==> (#[trigger] finished@[k]).0 == fired[k]
            }),
        decreases events@.len() - e,
    {
        let id = events[e].0;
        let ghost cs_before = counters_view(counters@);
        proof {
            assert(ids.take(e + 1).drop_last() =~= ids.take(e as int));
            assert(ids.take(e + 1).last() == ids[e as int]);
            assert(ids[e as int] == id);
        }
        match find_counter(counters, id) {
            Some(i) => {
                proof {
                    assert(cs_before[i as int].0 == id);
                    let j = choose|j: int|
                        0 <= j < cs_before.len() && (#[trigger] cs_before[j]).0 == id;
                    assert(counters@[j].0 == id && counters@[i as int].0 == id);
                    assert(j == i);
                }
                let (cid, counter) = counters[i];
                let mut updated = counter;
                let fired = updated.count_down();
                counters[i] = (cid, updated);
                proof {
                    assert(counters_view(counters@) =~= (if cs_before[i as int].1 != 0 {
                        cs_before.update(i as int, (id, (cs_before[i as int].1 - 1) as u64))
                    } else {
                        cs_before
                    }));
                    assert forall|a: int, b: int| 0 <= a < b < counters@.len() implies (
                    #[trigger] counters@[a]).0 != (#[trigger] counters@[b]).0 by {}
                }
                if fired {
                    finished.push(CountDownFinished(id));
                    proof {
                        assert(spec_fires(cs_before, id));
                        assert(spec_fired_ids(cs0, ids.take(e + 1)) == spec_fired_ids(
                            cs0,
                            ids.take(e as int),
                        ) + seq![id]);
                    }
                } else {
                    proof {
                        assert(!spec_fires(cs_before, id)) by {
                            if spec_fires(cs_before, id) {
                                let j = choose|j: int|
                                    0 <= j < cs_before.len() && (#[trigger] cs_before[j]).0 == id
                                        && cs_before[j].1 == 1;
                                assert(j == i);
                            }
                        }
                        assert(spec_fired_ids(cs0, ids.take(e + 1)) =~= spec_fired_ids(
                            cs0,
                            ids.take(e as int),
                        ));
                    }
                }
            },
            None => {
                proof {
                    assert(!(exists|i: int|
                        0 <= i < cs_before.len() && (#[trigger] cs_before[i]).0 == id)) by {
                        if exists|i: int| 0 <= i < cs_before.len() && (#[trigger] cs_before[i]).0
                            == id {
                            let i = choose|i: int|
                                0 <= i < cs_before.len() && (#[trigger] cs_before[i]).0 == id;
                            assert(counters@[i].0 == id);
                        }
                    }
                    assert(spec_step(cs_before, id) == cs_before);
                    assert(!spec_fires(cs_before, id));
                    assert(spec_fired_ids(cs0, ids.take(e + 1)) =~= spec_fired_ids(
                        cs0,
                        ids.take(e as int),
                    ));
                }
            },
        }
        e += 1;
    }
    proof {
        assert(ids.take(ids.len() as int) =~= ids);
    }
    finished
}

/// Whether a finished signal in the batch names `id`.
pub open spec fn id_finished(finished: Seq<CountDownFinished>, id: u64) -> bool {
    exists|i: int| 0 <= i < finished.len() && (#[trigger] finished[i]).0 == id
}

/// The counters that survive a batch of finished signals, in order:
/// exactly those whose entity is not named by any signal.
pub open spec fn without_finished(
    counters: Seq<(u64, TutorialCountdown)>,
    finished: Seq<CountDownFinished>,
) -> Seq<(u64, TutorialCountdown)>
    decreases counters.len(),
{
    if counters.len() == 0 {
        Seq::empty()
    } else if id_finished(finished, counters.last().0) {
        without_finished(counters.drop_last(), finished)
    } else {
        without_finished(counters.drop_last(), finished).push(counters.last())
    }
}

/// Whether any finished signal in the batch names `id`.
fn contains_finished(finished: &Vec<CountDownFinished>, id: u64) -> (r: bool)
    ensures
        r == id_finished(finished@, id),
{
    let mut i: usize = 0;
    while i < finished.len()
        invariant
            i <= finished@.len(),
            forall|j: int| 0 <= j < i ==> (#[trigger] finished@[j]).0 != id,
        decreases finished@.len() - i,
    {
        if finished[i].0 == id {
            return true;
        }
        i += 1;
    }
    false
}

/// Removes the counter of every entity named by a finished signal; the
/// other counters survive in order.
pub fn countdown_finished(
    finished: &Vec<CountDownFinished>,
    counters: &mut Vec<(u64, TutorialCountdown)>,
)
    ensures
        final(counters)@ == without_finished(old(counters)@, finished@),
{
    let ghost cs0 = counters@;
    let mut kept: Vec<(u64, TutorialCountdown)> = Vec::new();
    let mut i: usize = 0;
    while i < counters.len()
        invariant
            i <= counters@.len(),
            counters@ == cs0,
            kept@ == without_finished(cs0.take(i as int), finished@),
        decreases counters@.len() - i,
    {
        let (id, counter) = counters[i];
        proof {
            assert(cs0.take(i + 1).drop_last() =~= cs0.take(i as int));
            assert(cs0.take(i + 1).last() == cs0[i as int]);
        }
        if !contains_finished(finished, id) {
            kept.push((id, counter));
        }
        i += 1;
    }
    proof {
        assert(cs0.take(cs0.len() as int) =~= cs0);
    }
    *counters = kept;
}

/// Turns a frame's directional inputs into tick requests: if at least
/// one input arrived, every entity that carries a countdown gets
/// exactly one request; with no input, none does.
pub fn countdown_events(inputs: &Vec<Direction>, countdown_entities: &Vec<u64>) -> (out: Vec<
    CountDownTutorialCounter,
>)
    ensures
        inputs@.len() == 0 ==> out@.len() == 0,
        inputs@.len() > 0 ==> out@.len() == countdown_entities@.len() && forall|k: int|
            0 <= k < out@.len() ==> (#[trigger] out@[k]).0 == countdown_entities@[k],
{
    let mut out: Vec<CountDownTutorialCounter> = Vec::new();
    if inputs.len() == 0 {
        return out;
    }
    let mut i: usize = 0;
    while i < countdown_entities.len()
        invariant
            i <= countdown_entities@.len(),
            out@.len() == i,
            forall|k: int| 0 <= k < i ==> (#[trigger] out@[k]).0 == countdown_entities@[k],
        decreases countdown_entities@.len() - i,
    {
        out.push(CountDownTutorialCounter(countdown_entities[i]));
        i += 1;
    }
    out
}

} // verus!
