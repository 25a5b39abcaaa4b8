use gridquest::controls::Direction;
use gridquest::controls::key_direction;
use gridquest::movement::MoveOutcome;
use gridquest::movement::handle_input;
use gridquest::movement::move_target;
use gridquest::movement::resolve_move;
use gridquest::tile_index::TileIndex;
use gridquest::tiles::TileCoordinate;

fn origin() -> TileCoordinate {
    TileCoordinate::default()
}

#[test]
fn keys_steer_the_player() {
    assert_eq!(key_direction('a'), Some(Direction::Left));
    assert_eq!(key_direction('d'), Some(Direction::Right));
    assert_eq!(key_direction('w'), Some(Direction::Up));
    assert_eq!(key_direction('s'), Some(Direction::Down));
    assert_eq!(key_direction('x'), None);
}

#[test]
fn move_target_steps_one_cell() {
    let c = TileCoordinate { x: 2, y: 3, z: 1 };
    assert_eq!(
        move_target(c, Direction::Left),
        TileCoordinate { x: 1, y: 3, z: 1 }
    );
    assert_eq!(
        move_target(c, Direction::Right),
        TileCoordinate { x: 3, y: 3, z: 1 }
    );
    assert_eq!(
        move_target(c, Direction::Up),
        TileCoordinate { x: 2, y: 4, z: 1 }
    );
    assert_eq!(
        move_target(c, Direction::Down),
        TileCoordinate { x: 2, y: 2, z: 1 }
    );
}

#[test]
fn open_cell_lets_the_player_move() {
    let solids = TileIndex::new();
    let interactables = TileIndex::new();
    let r = resolve_move(1, origin(), Direction::Right, &solids, &interactables);
    assert!(r.interaction.is_none());
    match r.outcome {
        MoveOutcome::Moved(m) => {
            assert_eq!(m.mover, 1);
            assert_eq!(m.start, origin());
            assert_eq!(m.end, TileCoordinate { x: 1, y: 0, z: 0 });
        }
        MoveOutcome::Blocked(_) => panic!("move should not be blocked"),
    }
}

#[test]
fn solid_cell_blocks_the_player() {
    let mut solids = TileIndex::new();
    let wall: u64 = 9;
    solids.insert(TileCoordinate { x: 1, y: 0, z: 0 }, wall);
    let interactables = TileIndex::new();
    let r = resolve_move(1, origin(), Direction::Right, &solids, &interactables);
    match r.outcome {
        MoveOutcome::Blocked(b) => {
            assert_eq!(b.mover, 1);
            assert_eq!(b.blocked_by, wall);
        }
        MoveOutcome::Moved(_) => panic!("move should be blocked"),
    }
}

#[test]
fn interactable_cell_raises_an_interaction() {
    let solids = TileIndex::new();
    let mut interactables = TileIndex::new();
    let lever: u64 = 5;
    interactables.insert(TileCoordinate { x: -1, y: 0, z: 0 }, lever);
    let r = resolve_move(1, origin(), Direction::Left, &solids, &interactables);
    let interaction = r.interaction.expect("stepping against the lever interacts");
    assert_eq!(interaction.triggered_by, 1);
    assert_eq!(interaction.interacted_with, lever);
    // the lever is not solid here, so the move itself goes through
    assert!(matches!(r.outcome, MoveOutcome::Moved(_)));
}

#[test]
fn every_event_is_resolved_for_every_player() {
    let solids = TileIndex::new();
    let interactables = TileIndex::new();
    let events = vec![Direction::Right, Direction::Up];
    let players = vec![(1u64, origin()), (2u64, TileCoordinate { x: 5, y: 5, z: 0 })];
    let rs = handle_input(&events, &players, &solids, &interactables);
    assert_eq!(rs.len(), 4);
    // event-major order: first event for both players, then the second
    match rs[0].outcome {
        MoveOutcome::Moved(m) => assert_eq!(m.end, TileCoordinate { x: 1, y: 0, z: 0 }),
        MoveOutcome::Blocked(_) => panic!("open move"),
    }
    match rs[1].outcome {
        MoveOutcome::Moved(m) => {
            assert_eq!(m.mover, 2);
            assert_eq!(m.end, TileCoordinate { x: 6, y: 5, z: 0 });
        }
        MoveOutcome::Blocked(_) => panic!("open move"),
    }
    match rs[2].outcome {
        MoveOutcome::Moved(m) => {
            assert_eq!(m.mover, 1);
            assert_eq!(m.end, TileCoordinate { x: 0, y: 1, z: 0 });
        }
        MoveOutcome::Blocked(_) => panic!("open move"),
    }
}

#[test]
fn registry_replaces_and_forgets_entities() {
    let mut index = TileIndex::new();
    let cell = TileCoordinate { x: 1, y: 1, z: 0 };
    assert_eq!(index.insert(cell, 1), None);
    assert_eq!(index.get(cell), Some(1));
    // a second entity on the same cell replaces the first
    assert_eq!(index.insert(cell, 2), Some(1));
    assert_eq!(index.get(cell), Some(2));
    // despawning an entity clears every cell it held
    let other = TileCoordinate { x: 2, y: 1, z: 0 };
    index.insert(other, 2);
    index.remove_entity(2);
    assert_eq!(index.get(cell), None);
    assert_eq!(index.get(other), None);
}

#[test]
fn registry_clear_forgets_everything() {
    let mut index = TileIndex::new();
    index.insert(TileCoordinate { x: 0, y: 0, z: 0 }, 1);
    index.insert(TileCoordinate { x: 1, y: 0, z: 0 }, 2);
    index.clear();
    assert_eq!(index.get(TileCoordinate { x: 0, y: 0, z: 0 }), None);
    assert_eq!(index.get(TileCoordinate { x: 1, y: 0, z: 0 }), None);
}

#[test]
fn registry_keys_use_all_three_axes() {
    let mut index = TileIndex::new();
    index.insert(TileCoordinate { x: 1, y: 1, z: 0 }, 1);
    // a different depth is a different key
    assert_eq!(index.get(TileCoordinate { x: 1, y: 1, z: 1 }), None);
}
