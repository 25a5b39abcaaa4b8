use gridquest::animation::ANIM_DURATION;
use gridquest::animation::AnimationTimer;
use gridquest::animation::MoveAnimation;
use gridquest::animation::animated_world_position;
use gridquest::animation::cleanup_animations;
use gridquest::animation::coordinate_after_move;
use gridquest::animation::update_animation_timer;
use gridquest::tiles::PIXELS_PER_TILE;
use gridquest::tiles::TileCoordinate;

#[test]
fn timer_saturates_at_its_duration() {
    let mut timer = AnimationTimer::new(200);
    assert!(!timer.tick(50));
    assert_eq!(timer.elapsed_ms, 50);
    assert!(!timer.tick(149));
    assert_eq!(timer.elapsed_ms, 199);
    assert!(timer.tick(1000));
    assert_eq!(timer.elapsed_ms, 200);
    assert!(timer.finished());
    // a finished timer keeps reporting
    assert!(timer.tick(1));
    assert_eq!(timer.elapsed_ms, 200);
}

#[test]
fn sprite_slides_between_its_cells() {
    let start = TileCoordinate { x: 0, y: 0, z: 0 };
    let end = TileCoordinate { x: 1, y: 0, z: 0 };
    let mut animation = MoveAnimation::new(start, end);
    assert_eq!(animation.timer.duration_ms, ANIM_DURATION);

    let at_start = animated_world_position(&animation);
    assert_eq!((at_start.x, at_start.y, at_start.z), (0, 0, 0));

    animation.timer.tick(100);
    let halfway = animated_world_position(&animation);
    assert_eq!(halfway.x, PIXELS_PER_TILE / 2);
    assert_eq!(halfway.y, 0);

    animation.timer.tick(100);
    let at_end = animated_world_position(&animation);
    assert_eq!(at_end.x, PIXELS_PER_TILE);
}

#[test]
fn slide_handles_negative_directions() {
    let start = TileCoordinate { x: 0, y: 2, z: 0 };
    let end = TileCoordinate { x: 0, y: 1, z: 0 };
    let mut animation = MoveAnimation::new(start, end);
    animation.timer.tick(50);
    let quarter = animated_world_position(&animation);
    assert_eq!(quarter.y, 2 * PIXELS_PER_TILE - PIXELS_PER_TILE / 4);
    animation.timer.tick(150);
    let done = animated_world_position(&animation);
    assert_eq!(done.y, PIXELS_PER_TILE);
}

#[test]
fn entity_takes_the_destination_cell() {
    let animation = MoveAnimation::new(
        TileCoordinate { x: 0, y: 0, z: 0 },
        TileCoordinate { x: 1, y: 2, z: 0 },
    );
    let current = TileCoordinate { x: 0, y: 0, z: 7 };
    let moved = coordinate_after_move(&animation, current);
    assert_eq!(moved, TileCoordinate { x: 1, y: 2, z: 7 });
}

#[test]
fn finished_animations_are_reported_and_removed() {
    let slow = MoveAnimation::new(
        TileCoordinate { x: 0, y: 0, z: 0 },
        TileCoordinate { x: 1, y: 0, z: 0 },
    );
    let mut quick = slow;
    quick.timer = AnimationTimer::new(10);
    let mut animations = vec![(1u64, slow), (2u64, quick)];
    let finished = update_animation_timer(&mut animations, 50);
    assert_eq!(finished, vec![2]);
    assert_eq!(animations[0].1.timer.elapsed_ms, 50);
    assert_eq!(animations[1].1.timer.elapsed_ms, 10);

    cleanup_animations(&finished, &mut animations);
    assert_eq!(animations.len(), 1);
    assert_eq!(animations[0].0, 1);
}
