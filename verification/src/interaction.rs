//! Interactions: a trigger (a lever) and its effects (doors) are linked
//! by a shared identifier. Stepping against a trigger raises an
//! interaction on every target carrying the trigger's identifier.

use vstd::prelude::*;

use crate::movement::InteractionTriggered;

verus! {

/// Links an interaction source to its targets.
#[derive(Clone, Copy, PartialEq, Eq, Structural, Debug)]
pub struct InteractionId(pub u32);

/// Marks an entity as a trigger for the carried identifier.
#[derive(Clone, Copy, PartialEq, Eq, Structural, Debug)]
pub struct InteractionSource(pub InteractionId);

/// Marks an entity as an effect of the carried identifier.
#[derive(Clone, Copy, PartialEq, Eq, Structural, Debug)]
pub struct InteractionTarget(pub InteractionId);

/// The named target entity was interacted with.
#[derive(Clone, Copy, PartialEq, Eq, Structural, Debug)]
pub struct Interacted(pub u64);

/// Each entity carries at most one interaction source.
pub open spec fn source_ids_distinct(sources: Seq<(u64, InteractionSource)>) -> bool {
    forall|i: int, j: int|
        0 <= i < j < sources.len() ==> (#[trigger] sources[i]).0 != (#[trigger] sources[j]).0
}

/// The identifier of the source carried by `entity`, if it carries one.
pub open spec fn spec_source_of(sources: Seq<(u64, InteractionSource)>, entity: u64) -> Option<
    InteractionId,
> {
    if exists|i: int| 0 <= i < sources.len() && (#[trigger] sources[i]).0 == entity {
        let i = choose|i: int| 0 <= i < sources.len() && (#[trigger] sources[i]).0 == entity;
        Some(sources[i].1.0)
    } else {
        None
    }
}

/// The interactions raised on the targets carrying `id`, in target
/// order.
pub open spec fn spec_matching_targets(
    targets: Seq<(u64, InteractionTarget)>,
    id: InteractionId,
) -> Seq<Interacted>
    decreases targets.len(),
{
    if targets.len() == 0 {
        Seq::empty()
    } else {
        let prefix = spec_matching_targets(targets.drop_last(), id);
        if targets.last().1.0 == id {
            prefix.push(Interacted(targets.last().0))
        } else {
            prefix
        }
    }
}

/// The interactions one trigger event raises: none when the touched
/// entity carries no source, otherwise one per target sharing the
/// source's identifier.
pub open spec fn spec_interactions_for(
    t: InteractionTriggered,
    sources: Seq<(u64, InteractionSource)>,
    targets: Seq<(u64, InteractionTarget)>,
) -> Seq<Interacted> {
    match spec_source_of(sources, t.interacted_with) {
        Some(id) => spec_matching_targets(targets, id),
        None => Seq::empty(),
    }
}

/// The interactions a batch of trigger events raises, event by event.
pub open spec fn spec_all_interactions(
    triggered: Seq<InteractionTriggered>,
    sources: Seq<(u64, InteractionSource)>,
    targets: Seq<(u64, InteractionTarget)>,
) -> Seq<Interacted>
    decreases triggered.len(),
{
    if triggered.len() == 0 {
        Seq::empty()
    } else {
        spec_all_interactions(triggered.drop_last(), sources, targets) + spec_interactions_for(
            triggered.last(),
            sources,
            targets,
        )
    }
}

/// Position of the source carried by `entity`, if any.
fn find_source(sources: &Vec<(u64, InteractionSource)>, entity: u64) -> (r: Option<usize>)
    ensures
        match r {
            Some(i) => i < sources@.len() && sources@[i as int].0 == entity,
            None => forall|j: int| 0 <= j < sources@.len() ==> (#[trigger] sources@[j]).0 != entity,
        },
{
    let mut i: usize = 0;
    while i < sources.len()
        invariant
            i <= sources@.len(),
            forall|j: int| 0 <= j < i ==> (#[trigger] sources@[j]).0 != entity,
        decreases sources@.len() - i,
    {
        if sources[i].0 == entity {
            return Some(i);
        }
        i += 1;
    }
    None
}

/// Resolves a batch of trigger events: for each, when the touched
/// entity carries an interaction source, an interaction is raised on
/// every target sharing the source's identifier, in target order.
pub fn interaction_triggered(
    triggered: &Vec<InteractionTriggered>,
    sources: &Vec<(u64, InteractionSource)>,
    targets: &Vec<(u64, InteractionTarget)>,
) -> (out: Vec<Interacted>)
    requires
        source_ids_distinct(sources@),
    ensures
        out@ == spec_all_interactions(triggered@, sources@, targets@),
{
    let mut out: Vec<Interacted> = Vec::new();
    let mut t: usize = 0;
    while t < triggered.len()
        invariant
            t <= triggered@.len(),
            source_ids_distinct(sources@),
            out@ == spec_all_interactions(triggered@.take(t as int), sources@, targets@),
        decreases triggered@.len() - t,
    {
        let trigger_event = triggered[t];
        let ghost before = out@;
        proof {
            assert(triggered@.take(t + 1).drop_last() =~= triggered@.take(t as int));
            assert(triggered@.take(t + 1).last() == triggered@[t as int]);
        }
        match find_source(sources, trigger_event.interacted_with) {
            Some(i) => {
                let id = sources[i].1.0;
                proof {
                    let j = choose|j: int|
                        0 <= j < sources@.len() && (#[trigger] sources@[j]).0
                            == trigger_event.interacted_with;
                    assert(j == i);
                    assert(spec_source_of(sources@, trigger_event.interacted_with) == Some(id));
                }
                let mut k: usize = 0;
                while k < targets.len()
                    invariant
                        k <= targets@.len(),
                        out@ == before + spec_matching_targets(targets@.take(k as int), id),
                    decreases targets@.len() - k,
                {
                    proof {
                        assert(targets@.take(k + 1).drop_last() =~= targets@.take(k as int));
                        assert(targets@.take(k + 1).last() == targets@[k as int]);
                    }
                    let (target_entity, target) = targets[k];
                    if target.0 == id {
                        out.push(Interacted(target_entity));
                    }
                    k += 1;
                }
                proof {
                    assert(targets@.take(targets@.len() as int) =~= targets@);
                }
            },
            None => {
                proof {
                    assert(spec_source_of(sources@, trigger_event.interacted_with)
                        is None) by {
                        if exists|i: int|
                            0 <= i < sources@.len() && (#[trigger] sources@[i]).0
                                == trigger_event.interacted_with {
                            let i = choose|i: int|
                                0 <= i < sources@.len() && (#[trigger] sources@[i]).0
                                    == trigger_event.interacted_with;
                        }
                    }
                    assert(out@ =~= spec_all_interactions(
                        triggered@.take(t + 1),
                        sources@,
                        targets@,
                    ));
                }
            },
        }
        t += 1;
    }
    proof {
        assert(triggered@.take(triggered@.len() as int) =~= triggered@);
    }
    out
}

} // verus!
