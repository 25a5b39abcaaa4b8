use gridquest::gold::Gold;
use gridquest::gold::PlayerGold;
use gridquest::gold::check_for_gold;
use gridquest::gold::gold_for_new_player;
use gridquest::gold::player_coins_to_the_bank;
use gridquest::health::Health;
use gridquest::health::Hearts;
use gridquest::health::check_for_heart;
use gridquest::tiles::TileCoordinate;

fn origin() -> TileCoordinate {
    TileCoordinate::default()
}

#[test]
fn should_pickup_heart() {
    // given
    let entity: u64 = 1;
    let heart: u64 = 2;
    let mut bearers = vec![(
        origin(),
        Health {
            hearts: Hearts(1),
            max: Hearts(2),
        },
        entity,
    )];
    let hearts = vec![(origin(), Hearts(1), heart)];

    // when
    let (events, despawned) = check_for_heart(&mut bearers, &hearts);

    // then
    assert_eq!(despawned, vec![heart]);
    assert_eq!(bearers[0].1.hearts.0, 2);
    assert_eq!(events.len(), 1);
    assert_eq!(events[0].entity, entity);
    assert_eq!(events[0].hearts.0, 1);
}

#[test]
fn should_not_pickup_heart_at_max_health() {
    // given
    let entity: u64 = 1;
    let heart: u64 = 2;
    let mut bearers = vec![(
        origin(),
        Health {
            hearts: Hearts(2),
            max: Hearts(2),
        },
        entity,
    )];
    let hearts = vec![(origin(), Hearts(1), heart)];

    // when
    let (events, despawned) = check_for_heart(&mut bearers, &hearts);

    // then
    assert!(despawned.is_empty());
    assert_eq!(bearers[0].1.hearts.0, 2);
    assert!(events.is_empty());
}

#[test]
fn heart_on_another_cell_is_ignored() {
    let mut bearers = vec![(
        origin(),
        Health {
            hearts: Hearts(0),
            max: Hearts(2),
        },
        1u64,
    )];
    let hearts = vec![(TileCoordinate { x: 1, y: 0, z: 0 }, Hearts(1), 2u64)];
    let (events, despawned) = check_for_heart(&mut bearers, &hearts);
    assert!(events.is_empty());
    assert!(despawned.is_empty());
    assert_eq!(bearers[0].1.hearts.0, 0);
}

#[test]
fn heart_pickup_ignores_depth() {
    let mut bearers = vec![(
        TileCoordinate { x: 3, y: 4, z: 0 },
        Health {
            hearts: Hearts(0),
            max: Hearts(2),
        },
        1u64,
    )];
    let hearts = vec![(TileCoordinate { x: 3, y: 4, z: -1 }, Hearts(2), 2u64)];
    let (events, despawned) = check_for_heart(&mut bearers, &hearts);
    assert_eq!(events.len(), 1);
    assert_eq!(despawned, vec![2]);
    assert_eq!(bearers[0].1.hearts.0, 2);
}

#[test]
fn player_sweeps_every_coin_on_its_cell() {
    let player: u64 = 1;
    let mut players = vec![(origin(), Gold { coins: 3 }, player)];
    let coins = vec![
        (origin(), Gold { coins: 1 }, 10u64),
        (TileCoordinate { x: 2, y: 0, z: 0 }, Gold { coins: 5 }, 11u64),
        (origin(), Gold { coins: 25 }, 12u64),
    ];
    let (events, despawned) = check_for_gold(&mut players, &coins);
    assert_eq!(players[0].1.coins, 29);
    assert_eq!(despawned, vec![10, 12]);
    assert_eq!(events.len(), 2);
    assert_eq!(events[0].player, player);
    assert_eq!(events[0].coins.coins, 1);
    assert_eq!(events[1].coins.coins, 25);
}

#[test]
fn bank_collects_pickup_events() {
    let player: u64 = 1;
    let mut players = vec![(origin(), Gold { coins: 0 }, player)];
    let coins = vec![
        (origin(), Gold { coins: 5 }, 10u64),
        (origin(), Gold { coins: 1 }, 11u64),
    ];
    let (events, _) = check_for_gold(&mut players, &coins);
    let mut bank = PlayerGold { coins: 100 };
    player_coins_to_the_bank(&events, &mut bank);
    assert_eq!(bank.coins, 106);
}

#[test]
fn new_player_starts_with_the_banked_coins() {
    let bank = PlayerGold { coins: 42 };
    let purse = gold_for_new_player(&bank);
    assert_eq!(purse.coins, 42);
}
