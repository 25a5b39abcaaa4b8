use gridquest::app_states::AppState;
use gridquest::app_states::ButtonInteraction;
use gridquest::app_states::LevelExit;
use gridquest::app_states::LevelState;
use gridquest::app_states::level_exit_target;
use gridquest::app_states::menu_button_target;
use gridquest::levels::door_opened_exit_spawn;
use gridquest::levels::exit_reached;
use gridquest::levels::initial_player_health;
use gridquest::levels::level_spawns;
use gridquest::levels::tutorial_countdown_start;
use gridquest::sprites::SpriteSheetTile;
use gridquest::tiles::TileCoordinate;

#[test]
fn levels_chain_and_then_return_to_the_menu() {
    assert_eq!(
        level_exit_target(LevelState::Level01),
        LevelExit::NextLevel(LevelState::Level02)
    );
    assert_eq!(
        level_exit_target(LevelState::Level02),
        LevelExit::NextLevel(LevelState::Level03)
    );
    assert_eq!(level_exit_target(LevelState::Level03), LevelExit::EndRun);
    assert_eq!(level_exit_target(LevelState::Level04), LevelExit::EndRun);
    assert_eq!(level_exit_target(LevelState::Level05), LevelExit::EndRun);
}

#[test]
fn first_level_spawns_player_hints_and_exit() {
    let spawns = level_spawns(LevelState::Level01);
    assert_eq!(spawns.len(), 6);
    assert_eq!(spawns[0].tile, SpriteSheetTile::Player01);
    assert_eq!(spawns[0].coordinate, TileCoordinate { x: 0, y: 0, z: 0 });
    assert!(!spawns[0].tutorial);
    assert_eq!(spawns[1].tile, SpriteSheetTile::A);
    assert!(spawns[1].tutorial);
    assert_eq!(spawns[5].tile, SpriteSheetTile::LevelExit01);
    assert_eq!(spawns[5].coordinate, TileCoordinate { x: 2, y: 0, z: -1 });
}

#[test]
fn second_level_spawns_the_three_coin_piles() {
    let spawns = level_spawns(LevelState::Level02);
    assert_eq!(spawns.len(), 8);
    assert_eq!(spawns[5].tile, SpriteSheetTile::GoldCoin);
    assert_eq!(spawns[6].tile, SpriteSheetTile::GoldCoins);
    assert_eq!(spawns[7].tile, SpriteSheetTile::GoldCoinBag);
    assert!(spawns[5].tutorial && spawns[6].tutorial && spawns[7].tutorial);
}

#[test]
fn later_levels_hold_their_doors() {
    let four = level_spawns(LevelState::Level04);
    assert_eq!(four.len(), 3);
    assert_eq!(four[1].tile, SpriteSheetTile::MechanicDoor);
    assert_eq!(four[2].tile, SpriteSheetTile::BottomLeverLeft);

    let five = level_spawns(LevelState::Level05);
    assert_eq!(five.len(), 9);
    assert_eq!(five[6].tile, SpriteSheetTile::MagicDoor);
    assert_eq!(five[7].tile, SpriteSheetTile::Heart);
    assert_eq!(five[8].tile, SpriteSheetTile::EmptyHeart);
}

#[test]
fn opened_doors_leave_an_exit_behind() {
    let four = door_opened_exit_spawn(LevelState::Level04).expect("the mechanic door opens");
    assert_eq!(four.tile, SpriteSheetTile::LevelExit01);
    assert_eq!(four.coordinate, TileCoordinate { x: 2, y: 1, z: 0 });
    let five = door_opened_exit_spawn(LevelState::Level05).expect("the magic door opens");
    assert_eq!(five.tile, SpriteSheetTile::LevelExit01);
    assert!(door_opened_exit_spawn(LevelState::Level01).is_none());
}

#[test]
fn tutorial_hints_count_down_per_level() {
    assert_eq!(tutorial_countdown_start(LevelState::Level01), Some(4));
    assert_eq!(tutorial_countdown_start(LevelState::Level02), None);
    assert_eq!(tutorial_countdown_start(LevelState::Level03), Some(0));
    assert_eq!(tutorial_countdown_start(LevelState::Level04), Some(3));
    assert_eq!(tutorial_countdown_start(LevelState::Level05), None);
}

#[test]
fn only_the_last_level_plays_with_health() {
    assert_eq!(initial_player_health(LevelState::Level01), None);
    assert_eq!(initial_player_health(LevelState::Level04), None);
    let health = initial_player_health(LevelState::Level05).expect("the last level uses health");
    assert_eq!(health.hearts.0, 2);
    assert_eq!(health.max.0, 2);
}

#[test]
fn standing_on_the_exit_finishes_the_level() {
    let players = vec![TileCoordinate { x: 2, y: 0, z: 0 }];
    let exits = vec![TileCoordinate { x: 2, y: 0, z: -1 }];
    assert!(exit_reached(&players, &exits));
    let elsewhere = vec![TileCoordinate { x: 1, y: 0, z: 0 }];
    assert!(!exit_reached(&elsewhere, &exits));
    assert!(!exit_reached(&players, &Vec::new()));
}

#[test]
fn only_a_pressed_button_switches_state() {
    assert_eq!(
        menu_button_target(ButtonInteraction::Pressed, AppState::Running),
        Some(AppState::Running)
    );
    assert_eq!(
        menu_button_target(ButtonInteraction::Pressed, AppState::Quitting),
        Some(AppState::Quitting)
    );
    assert_eq!(
        menu_button_target(ButtonInteraction::Hovered, AppState::Running),
        None
    );
    assert_eq!(
        menu_button_target(ButtonInteraction::Idle, AppState::Running),
        None
    );
}
