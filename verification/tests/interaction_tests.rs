use gridquest::interaction::InteractionId;
use gridquest::interaction::InteractionSource;
use gridquest::interaction::InteractionTarget;
use gridquest::interaction::interaction_triggered;
use gridquest::movement::InteractionTriggered;

#[test]
fn lever_opens_the_door_with_its_id() {
    let lever: u64 = 1;
    let door: u64 = 2;
    let id = InteractionId(123);
    let triggered = vec![InteractionTriggered {
        triggered_by: 7,
        interacted_with: lever,
    }];
    let sources = vec![(lever, InteractionSource(id.clone()))];
    let targets = vec![(door, InteractionTarget(id))];
    let out = interaction_triggered(&triggered, &sources, &targets);
    assert_eq!(out.len(), 1);
    assert_eq!(out[0].0, door);
}

#[test]
fn touching_a_plain_entity_interacts_with_nothing() {
    let triggered = vec![InteractionTriggered {
        triggered_by: 7,
        interacted_with: 99,
    }];
    let sources = vec![(1u64, InteractionSource(InteractionId(123)))];
    let targets = vec![(2u64, InteractionTarget(InteractionId(123)))];
    let out = interaction_triggered(&triggered, &sources, &targets);
    assert!(out.is_empty());
}

#[test]
fn one_lever_reaches_every_matching_target() {
    let lever: u64 = 1;
    let triggered = vec![InteractionTriggered {
        triggered_by: 7,
        interacted_with: lever,
    }];
    let sources = vec![(lever, InteractionSource(InteractionId(5)))];
    let targets = vec![
        (20u64, InteractionTarget(InteractionId(5))),
        (21u64, InteractionTarget(InteractionId(6))),
        (22u64, InteractionTarget(InteractionId(5))),
    ];
    let out = interaction_triggered(&triggered, &sources, &targets);
    assert_eq!(out.len(), 2);
    assert_eq!(out[0].0, 20);
    assert_eq!(out[1].0, 22);
}
