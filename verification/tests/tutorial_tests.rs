use gridquest::controls::Direction;
use gridquest::tutorial::CountDownFinished;
use gridquest::tutorial::CountDownTutorialCounter;
use gridquest::tutorial::TutorialCountdown;
use gridquest::tutorial::countdown;
use gridquest::tutorial::countdown_events;
use gridquest::tutorial::countdown_finished;

#[test]
fn should_countdown_by_one() {
    // given
    let entity: u64 = 7;
    let mut counters = vec![(entity, TutorialCountdown::new(2))];

    // when
    let events = vec![CountDownTutorialCounter(entity)];
    let finished = countdown(&events, &mut counters);

    // then
    assert_eq!(counters.len(), 1);
    assert_eq!(counters[0].1.remaining(), 1);
    assert!(finished.is_empty());
}

#[test]
fn should_send_out_finished_event_after_finished() {
    // given
    let entity: u64 = 7;
    let mut counters = vec![(entity, TutorialCountdown::new(1))];

    // when
    let events = vec![CountDownTutorialCounter(entity)];
    let finished = countdown(&events, &mut counters);

    // then
    assert_eq!(counters.len(), 1);
    assert_eq!(counters[0].1.remaining(), 0);

    let actual_finished_event = finished.first();
    let expected_finished_event = CountDownFinished(entity);
    assert!(
        actual_finished_event.is_some(),
        "event CountdownFinished is present"
    );
    assert_eq!(
        expected_finished_event.0,
        actual_finished_event.unwrap().0,
        "CountdownFinished contains correct entity"
    );
}

#[test]
fn should_remove_counter_after_finished() {
    // given
    let entity: u64 = 7;
    let mut counters = vec![(entity, TutorialCountdown::new(0))];

    // when
    let finished = vec![CountDownFinished(entity)];
    countdown_finished(&finished, &mut counters);

    // then
    assert!(counters.is_empty());
}

#[test]
fn countdown_ignores_entities_without_counter() {
    let mut counters = vec![(1u64, TutorialCountdown::new(3))];
    let events = vec![CountDownTutorialCounter(2)];
    let finished = countdown(&events, &mut counters);
    assert!(finished.is_empty());
    assert_eq!(counters[0].1.remaining(), 3);
}

#[test]
fn countdown_stops_at_zero() {
    let entity: u64 = 4;
    let mut counters = vec![(entity, TutorialCountdown::new(1))];
    let events = vec![
        CountDownTutorialCounter(entity),
        CountDownTutorialCounter(entity),
        CountDownTutorialCounter(entity),
    ];
    let finished = countdown(&events, &mut counters);
    // the counter fires once, on the tick that reaches zero, and then stays
    assert_eq!(finished.len(), 1);
    assert_eq!(finished[0].0, entity);
    assert_eq!(counters[0].1.remaining(), 0);
}

#[test]
fn countdown_runs_through_several_counters() {
    let mut counters = vec![
        (1u64, TutorialCountdown::new(2)),
        (2u64, TutorialCountdown::new(1)),
    ];
    let events = vec![CountDownTutorialCounter(1), CountDownTutorialCounter(2)];
    let finished = countdown(&events, &mut counters);
    assert_eq!(counters[0].1.remaining(), 1);
    assert_eq!(counters[1].1.remaining(), 0);
    assert_eq!(finished.len(), 1);
    assert_eq!(finished[0].0, 2);
}

#[test]
fn countdown_events_fan_out_once_per_entity() {
    let inputs = vec![Direction::Left, Direction::Right];
    let entities = vec![10u64, 11, 12];
    let out = countdown_events(&inputs, &entities);
    assert_eq!(out.len(), 3);
    assert_eq!(out[0].0, 10);
    assert_eq!(out[2].0, 12);
}

#[test]
fn countdown_events_need_an_input() {
    let inputs: Vec<Direction> = Vec::new();
    let entities = vec![10u64, 11];
    let out = countdown_events(&inputs, &entities);
    assert!(out.is_empty());
}
