//! The five levels: the fixed sprites each spawns on entry, the exit
//! check, and the per-level tutorial parameters.

use vstd::prelude::*;

use crate::app_states::LevelState;
use crate::health::Health;
use crate::health::Hearts;
use crate::sprites::Color;
use crate::sprites::SpawnSprite;
use crate::sprites::SpriteSheetTile;
use crate::tiles::TileCoordinate;
use crate::tiles::same_cell;

verus! {

/// The sprites the first level spawns: the player between four key
/// hints, and an exit to the right.
pub open spec fn spec_level01_spawns() -> Seq<SpawnSprite> {
    seq![
        SpawnSprite {
            coordinate: TileCoordinate { x: 0, y: 0, z: 0 },
            tile: SpriteSheetTile::Player01,
            color: None,
            tutorial: false,
        },
        SpawnSprite {
            coordinate: TileCoordinate { x: -3i32, y: 0, z: 1 },
            tile: SpriteSheetTile::A,
            color: None,
            tutorial: true,
        },
        SpawnSprite {
            coordinate: TileCoordinate { x: 3, y: 0, z: 1 },
            tile: SpriteSheetTile::D,
            color: None,
            tutorial: true,
        },
        SpawnSprite {
            coordinate: TileCoordinate { x: -2i32, y: 1, z: 1 },
            tile: SpriteSheetTile::W,
            color: None,
            tutorial: true,
        },
        SpawnSprite {
            coordinate: TileCoordinate { x: -2i32, y: -1i32, z: 1 },
            tile: SpriteSheetTile::S,
            color: None,
            tutorial: true,
        },
        SpawnSprite {
            coordinate: TileCoordinate { x: 2, y: 0, z: -1i32 },
            tile: SpriteSheetTile::LevelExit01,
            color: None,
            tutorial: false,
        },
    ]
}

/// The sprites the second level spawns: the player, a tinted exit, a
/// strip of grass, and three coin piles to pick up.
pub open spec fn spec_level02_spawns() -> Seq<SpawnSprite> {
    seq![
        SpawnSprite {
            coordinate: TileCoordinate { x: 0, y: 0, z: 0 },
            tile: SpriteSheetTile::Player01,
            color: Some(Color { r: 50, g: 50, b: 50 }),
            tutorial: false,
        },
        SpawnSprite {
            coordinate: TileCoordinate { x: 1, y: 0, z: 1 },
            tile: SpriteSheetTile::LevelExit01,
            color: Some(Color { r: 0, g: 50, b: 50 }),
            tutorial: false,
        },
        SpawnSprite {
            coordinate: TileCoordinate { x: 2, y: 1, z: -1i32 },
            tile: SpriteSheetTile::Grass,
            color: None,
            tutorial: false,
        },
        SpawnSprite {
            coordinate: TileCoordinate { x: 1, y: 1, z: -1i32 },
            tile: SpriteSheetTile::GrassFlowers,
            color: None,
            tutorial: false,
        },
        SpawnSprite {
            coordinate: TileCoordinate { x: 0, y: 1, z: -1i32 },
            tile: SpriteSheetTile::LongGrass,
            color: None,
            tutorial: false,
        },
        SpawnSprite {
            coordinate: TileCoordinate { x: 0, y: -2i32, z: -1i32 },
            tile: SpriteSheetTile::GoldCoin,
            color: None,
            tutorial: true,
        },
        SpawnSprite {
            coordinate: TileCoordinate { x: 2, y: -2i32, z: -1i32 },
            tile: SpriteSheetTile::GoldCoins,
            color: None,
            tutorial: true,
        },
        SpawnSprite {
            coordinate: TileCoordinate { x: 4, y: -2i32, z: -1i32 },
            tile: SpriteSheetTile::GoldCoinBag,
            color: None,
            tutorial: true,
        },
    ]
}

/// The sprites the third level spawns: the player, an exit behind a
/// bend of brick walls.
pub open spec fn spec_level03_spawns() -> Seq<SpawnSprite> {
    seq![
        SpawnSprite {
            coordinate: TileCoordinate { x: 0, y: 0, z: 0 },
            tile: SpriteSheetTile::Player01,
            color: Some(Color { r: 50, g: 50, b: 50 }),
            tutorial: false,
        },
        SpawnSprite {
            coordinate: TileCoordinate { x: 1, y: 2, z: 3 },
            tile: SpriteSheetTile::LevelExit01,
            color: Some(Color { r: 0, g: 50, b: 50 }),
            tutorial: false,
        },
        SpawnSprite {
            coordinate: TileCoordinate { x: 1, y: 1, z: 0 },
            tile: SpriteSheetTile::BrickWall01,
            color: None,
            tutorial: true,
        },
        SpawnSprite {
            coordinate: TileCoordinate { x: 0, y: 1, z: 0 },
            tile: SpriteSheetTile::BrickWall01,
            color: None,
            tutorial: true,
        },
        SpawnSprite {
            coordinate: TileCoordinate { x: 2, y: 1, z: 0 },
            tile: SpriteSheetTile::BrickWall01,
            color: None,
            tutorial: true,
        },
        SpawnSprite {
            coordinate: TileCoordinate { x: 0, y: 2, z: 0 },
            tile: SpriteSheetTile::BrickWall01,
            color: None,
            tutorial: true,
        },
        SpawnSprite {
            coordinate: TileCoordinate { x: 2, y: 2, z: 0 },
            tile: SpriteSheetTile::BrickWall01,
            color: None,
            tutorial: true,
        },
    ]
}

/// The sprites the fourth level spawns: the player, a mechanic door,
/// and the lever that opens it.
pub open spec fn spec_level04_spawns() -> Seq<SpawnSprite> {
    seq![
        SpawnSprite {
            coordinate: TileCoordinate { x: 0, y: 0, z: 0 },
            tile: SpriteSheetTile::Player01,
            color: Some(Color { r: 50, g: 50, b: 50 }),
            tutorial: false,
        },
        SpawnSprite {
            coordinate: TileCoordinate { x: 2, y: 1, z: 0 },
            tile: SpriteSheetTile::MechanicDoor,
            color: Some(Color { r: 0, g: 50, b: 50 }),
            tutorial: true,
        },
        SpawnSprite {
            coordinate: TileCoordinate { x: -2i32, y: 1, z: 0 },
            tile: SpriteSheetTile::BottomLeverLeft,
            color: None,
            tutorial: true,
        },
    ]
}

/// The sprites the fifth level spawns: the player, a walled pocket
/// closed by a magic door, a heart that opens it, and an empty heart.
pub open spec fn spec_level05_spawns() -> Seq<SpawnSprite> {
    seq![
        SpawnSprite {
            coordinate: TileCoordinate { x: 0, y: 0, z: 0 },
            tile: SpriteSheetTile::Player01,
            color: Some(Color { r: 50, g: 50, b: 50 }),
            tutorial: false,
        },
        SpawnSprite {
            coordinate: TileCoordinate { x: 1, y: 1, z: 0 },
            tile: SpriteSheetTile::BrickWall01,
            color: None,
            tutorial: false,
        },
        SpawnSprite {
            coordinate: TileCoordinate { x: 3, y: 1, z: 0 },
            tile: SpriteSheetTile::BrickWall01,
            color: None,
            tutorial: false,
        },
        SpawnSprite {
            coordinate: TileCoordinate { x: 1, y: 2, z: 0 },
            tile: SpriteSheetTile::BrickWall01,
            color: None,
            tutorial: false,
        },
        SpawnSprite {
            coordinate: TileCoordinate { x: 2, y: 2, z: 0 },
            tile: SpriteSheetTile::BrickWall01,
            color: None,
            tutorial: false,
        },
        SpawnSprite {
            coordinate: TileCoordinate { x: 3, y: 2, z: 0 },
            tile: SpriteSheetTile::BrickWall01,
            color: None,
            tutorial: false,
        },
        SpawnSprite {
            coordinate: TileCoordinate { x: 2, y: 1, z: 0 },
            tile: SpriteSheetTile::MagicDoor,
            color: Some(Color { r: 0, g: 50, b: 50 }),
            tutorial: false,
        },
        SpawnSprite {
            coordinate: TileCoordinate { x: 2, y: -1i32, z: 0 },
            tile: SpriteSheetTile::Heart,
            color: None,
            tutorial: false,
        },
        SpawnSprite {
            coordinate: TileCoordinate { x: 4, y: -1i32, z: 0 },
            tile: SpriteSheetTile::EmptyHeart,
            color: None,
            tutorial: true,
        },
    ]
}

/// The fixed set of sprites a level spawns on entry.
pub open spec fn spec_level_spawns(level: LevelState) -> Seq<SpawnSprite> {
    match level {
        LevelState::Level01 => spec_level01_spawns(),
        LevelState::Level02 => spec_level02_spawns(),
        LevelState::Level03 => spec_level03_spawns(),
        LevelState::Level04 => spec_level04_spawns(),
        LevelState::Level05 => spec_level05_spawns(),
    }
}

/// Builds the fixed set of sprites `level` spawns on entry.
pub fn level_spawns(level: LevelState) -> (spawns: Vec<SpawnSprite>)
    ensures
        spawns@ == spec_level_spawns(level),
{
    let mut spawns: Vec<SpawnSprite> = Vec::new();
    match level {
        LevelState::Level01 => {
            spawns.push(
                SpawnSprite {
                    coordinate: TileCoordinate { x: 0, y: 0, z: 0 },
                    tile: SpriteSheetTile::Player01,
                    color: None,
                    tutorial: false,
                },
            );
            spawns.push(
                SpawnSprite {
                    coordinate: TileCoordinate { x: -3i32, y: 0, z: 1 },
                    tile: SpriteSheetTile::A,
                    color: None,
                    tutorial: true,
                },
            );
            spawns.push(
                SpawnSprite {
                    coordinate: TileCoordinate { x: 3, y: 0, z: 1 },
                    tile: SpriteSheetTile::D,
                    color: None,
                    tutorial: true,
                },
            );
            spawns.push(
                SpawnSprite {
                    coordinate: TileCoordinate { x: -2i32, y: 1, z: 1 },
                    tile: SpriteSheetTile::W,
                    color: None,
                    tutorial: true,
                },
            );
            spawns.push(
                SpawnSprite {
                    coordinate: TileCoordinate { x: -2i32, y: -1i32, z: 1 },
                    tile: SpriteSheetTile::S,
                    color: None,
                    tutorial: true,
                },
            );
            spawns.push(
                SpawnSprite {
                    coordinate: TileCoordinate { x: 2, y: 0, z: -1i32 },
                    tile: SpriteSheetTile::LevelExit01,
                    color: None,
                    tutorial: false,
                },
            );
            proof {
                assert(spawns@ =~= spec_level01_spawns());
            }
        },
        LevelState::Level02 => {
            spawns.push(
                SpawnSprite {
                    coordinate: TileCoordinate { x: 0, y: 0, z: 0 },
                    tile: SpriteSheetTile::Player01,
                    color: Some(Color { r: 50, g: 50, b: 50 }),
                    tutorial: false,
                },
            );
            spawns.push(
                SpawnSprite {
                    coordinate: TileCoordinate { x: 1, y: 0, z: 1 },
                    tile: SpriteSheetTile::LevelExit01,
                    color: Some(Color { r: 0, g: 50, b: 50 }),
                    tutorial: false,
                },
            );
            spawns.push(
                SpawnSprite {
                    coordinate: TileCoordinate { x: 2, y: 1, z: -1i32 },
                    tile: SpriteSheetTile::Grass,
                    color: None,
                    tutorial: false,
                },
            );
            spawns.push(
                SpawnSprite {
                    coordinate: TileCoordinate { x: 1, y: 1, z: -1i32 },
                    tile: SpriteSheetTile::GrassFlowers,
                    color: None,
                    tutorial: false,
                },
            );
            spawns.push(
                SpawnSprite {
                    coordinate: TileCoordinate { x: 0, y: 1, z: -1i32 },
                    tile: SpriteSheetTile::LongGrass,
                    color: None,
                    tutorial: false,
                },
            );
            spawns.push(
                SpawnSprite {
                    coordinate: TileCoordinate { x: 0, y: -2i32, z: -1i32 },
                    tile: SpriteSheetTile::GoldCoin,
                    color: None,
                    tutorial: true,
                },
            );
            spawns.push(
                SpawnSprite {
                    coordinate: TileCoordinate { x: 2, y: -2i32, z: -1i32 },
                    tile: SpriteSheetTile::GoldCoins,
                    color: None,
                    tutorial: true,
                },
            );
            spawns.push(
                SpawnSprite {
                    coordinate: TileCoordinate { x: 4, y: -2i32, z: -1i32 },
                    tile: SpriteSheetTile::GoldCoinBag,
                    color: None,
                    tutorial: true,
                },
            );
            proof {
                assert(spawns@ =~= spec_level02_spawns());
            }
        },
        LevelState::Level03 => {
            spawns.push(
                SpawnSprite {
                    coordinate: TileCoordinate { x: 0, y: 0, z: 0 },
                    tile: SpriteSheetTile::Player01,
                    color: Some(Color { r: 50, g: 50, b: 50 }),
                    tutorial: false,
                },
            );
            spawns.push(
                SpawnSprite {
                    coordinate: TileCoordinate { x: 1, y: 2, z: 3 },
                    tile: SpriteSheetTile::LevelExit01,
                    color: Some(Color { r: 0, g: 50, b: 50 }),
                    tutorial: false,
                },
            );
            spawns.push(
                SpawnSprite {
                    coordinate: TileCoordinate { x: 1, y: 1, z: 0 },
                    tile: SpriteSheetTile::BrickWall01,
                    color: None,
                    tutorial: true,
                },
            );
            spawns.push(
                SpawnSprite {
                    coordinate: TileCoordinate { x: 0, y: 1, z: 0 },
                    tile: SpriteSheetTile::BrickWall01,
                    color: None,
                    tutorial: true,
                },
            );
            spawns.push(
                SpawnSprite {
                    coordinate: TileCoordinate { x: 2, y: 1, z: 0 },
                    tile: SpriteSheetTile::BrickWall01,
                    color: None,
                    tutorial: true,
                },
            );
            spawns.push(
                SpawnSprite {
                    coordinate: TileCoordinate { x: 0, y: 2, z: 0 },
                    tile: SpriteSheetTile::BrickWall01,
                    color: None,
                    tutorial: true,
                },
            );
            spawns.push(
                SpawnSprite {
                    coordinate: TileCoordinate { x: 2, y: 2, z: 0 },
                    tile: SpriteSheetTile::BrickWall01,
                    color: None,
                    tutorial: true,
                },
            );
            proof {
                assert(spawns@ =~= spec_level03_spawns());
            }
        },
        LevelState::Level04 => {
            spawns.push(
                SpawnSprite {
                    coordinate: TileCoordinate { x: 0, y: 0, z: 0 },
                    tile: SpriteSheetTile::Player01,
                    color: Some(Color { r: 50, g: 50, b: 50 }),
                    tutorial: false,
                },
            );
            spawns.push(
                SpawnSprite {
                    coordinate: TileCoordinate { x: 2, y: 1, z: 0 },
                    tile: SpriteSheetTile::MechanicDoor,
                    color: Some(Color { r: 0, g: 50, b: 50 }),
                    tutorial: true,
                },
            );
            spawns.push(
                SpawnSprite {
                    coordinate: TileCoordinate { x: -2i32, y: 1, z: 0 },
                    tile: SpriteSheetTile::BottomLeverLeft,
                    color: None,
                    tutorial: true,
                },
            );
            proof {
                assert(spawns@ =~= spec_level04_spawns());
            }
        },
        LevelState::Level05 => {
            spawns.push(
                SpawnSprite {
                    coordinate: TileCoordinate { x: 0, y: 0, z: 0 },
                    tile: SpriteSheetTile::Player01,
                    color: Some(Color { r: 50, g: 50, b: 50 }),
                    tutorial: false,
                },
            );
            spawns.push(
                SpawnSprite {
                    coordinate: TileCoordinate { x: 1, y: 1, z: 0 },
                    tile: SpriteSheetTile::BrickWall01,
                    color: None,
                    tutorial: false,
                },
            );
            spawns.push(
                SpawnSprite {
                    coordinate: TileCoordinate { x: 3, y: 1, z: 0 },
                    tile: SpriteSheetTile::BrickWall01,
                    color: None,
                    tutorial: false,
                },
            );
            spawns.push(
                SpawnSprite {
                    coordinate: TileCoordinate { x: 1, y: 2, z: 0 },
                    tile: SpriteSheetTile::BrickWall01,
                    color: None,
                    tutorial: false,
                },
            );
            spawns.push(
                SpawnSprite {
                    coordinate: TileCoordinate { x: 2, y: 2, z: 0 },
                    tile: SpriteSheetTile::BrickWall01,
                    color: None,
                    tutorial: false,
                },
            );
            spawns.push(
                SpawnSprite {
                    coordinate: TileCoordinate { x: 3, y: 2, z: 0 },
                    tile: SpriteSheetTile::BrickWall01,
                    color: None,
                    tutorial: false,
                },
            );
            spawns.push(
                SpawnSprite {
                    coordinate: TileCoordinate { x: 2, y: 1, z: 0 },
                    tile: SpriteSheetTile::MagicDoor,
                    color: Some(Color { r: 0, g: 50, b: 50 }),
                    tutorial: false,
                },
            );
            spawns.push(
                SpawnSprite {
                    coordinate: TileCoordinate { x: 2, y: -1i32, z: 0 },
                    tile: SpriteSheetTile::Heart,
                    color: None,
                    tutorial: false,
                },
            );
            spawns.push(
                SpawnSprite {
                    coordinate: TileCoordinate { x: 4, y: -1i32, z: 0 },
                    tile: SpriteSheetTile::EmptyHeart,
                    color: None,
                    tutorial: true,
                },
            );
            proof {
                assert(spawns@ =~= spec_level05_spawns());
            }
        },
    }
    spawns
}

/// The exit sprite a level spawns in place of its opened door, if the
/// level has a door to open.
pub open spec fn spec_door_opened_exit_spawn(level: LevelState) -> Option<SpawnSprite> {
    match level {
        LevelState::Level04 => Some(
            SpawnSprite {
                coordinate: TileCoordinate { x: 2, y: 1, z: 0 },
                tile: SpriteSheetTile::LevelExit01,
                color: Some(Color { r: 0, g: 50, b: 50 }),
                tutorial: false,
            },
        ),
        LevelState::Level05 => Some(
            SpawnSprite {
                coordinate: TileCoordinate { x: 2, y: 1, z: 0 },
                tile: SpriteSheetTile::LevelExit01,
                color: None,
                tutorial: false,
            },
        ),
        _ => None,
    }
}

/// The exit sprite that replaces `level`'s door once it is opened.
pub fn door_opened_exit_spawn(level: LevelState) -> (r: Option<SpawnSprite>)
    ensures
        r == spec_door_opened_exit_spawn(level),
{
    match level {
        LevelState::Level04 => Some(
            SpawnSprite {
                coordinate: TileCoordinate { x: 2, y: 1, z: 0 },
                tile: SpriteSheetTile::LevelExit01,
                color: Some(Color { r: 0, g: 50, b: 50 }),
                tutorial: false,
            },
        ),
        LevelState::Level05 => Some(
            SpawnSprite {
                coordinate: TileCoordinate { x: 2, y: 1, z: 0 },
                tile: SpriteSheetTile::LevelExit01,
                color: None,
                tutorial: false,
            },
        ),
        _ => None,
    }
}

/// Steps the tutorial sprites of `level` count before their hints
/// disappear, where the level counts at all.
pub open spec fn spec_tutorial_countdown_start(level: LevelState) -> Option<u64> {
    match level {
        LevelState::Level01 => Some(4u64),
        LevelState::Level03 => Some(0u64),
        LevelState::Level04 => Some(3u64),
        _ => None,
    }
}

/// How many steps `level` gives its tutorial hints, if it counts them.
pub fn tutorial_countdown_start(level: LevelState) -> (r: Option<u64>)
    ensures
        r == spec_tutorial_countdown_start(level),
{
    match level {
        LevelState::Level01 => Some(4),
        LevelState::Level03 => Some(0),
        LevelState::Level04 => Some(3),
        _ => None,
    }
}

/// The health a level hands its freshly spawned player, where the
/// level plays with health at all.
pub open spec fn spec_initial_player_health(level: LevelState) -> Option<Health> {
    match level {
        LevelState::Level05 => Some(Health { hearts: Hearts(2), max: Hearts(2) }),
        _ => None,
    }
}

/// The health `level` gives its player on spawn, if the level uses
/// health.
pub fn initial_player_health(level: LevelState) -> (r: Option<Health>)
    ensures
        r == spec_initial_player_health(level),
{
    match level {
        LevelState::Level05 => Some(Health { hearts: Hearts(2), max: Hearts(2) }),
        _ => None,
    }
}

/// Some player stands on some exit cell.
pub open spec fn spec_exit_reached(players: Seq<TileCoordinate>, exits: Seq<TileCoordinate>) -> bool {
    exists|i: int, j: int|
        0 <= i < players.len() && 0 <= j < exits.len() && same_cell(
            #[trigger] players[i],
            #[trigger] exits[j],
        )
}

/// Whether any player stands on any exit cell, depth aside.
pub fn exit_reached(players: &Vec<TileCoordinate>, exits: &Vec<TileCoordinate>) -> (r: bool)
    ensures
        r == spec_exit_reached(players@, exits@),
{
    let mut i: usize = 0;
    while i < players.len()
        invariant
            i <= players@.len(),
            forall|a: int, b: int|
                0 <= a < i && 0 <= b < exits@.len() ==> !same_cell(
                    #[trigger] players@[a],
                    #[trigger] exits@[b],
                ),
        decreases players@.len() - i,
    {
        let player = players[i];
        let mut j: usize = 0;
        while j < exits.len()
            invariant
                i < players@.len(),
                j <= exits@.len(),
                player == players@[i as int],
                forall|b: int| 0 <= b < j ==> !same_cell(players@[i as int], #[trigger] exits@[b]),
            decreases exits@.len() - j,
        {
            if player.eq2d(&exits[j]) {
                return true;
            }
            j += 1;
        }
        i += 1;
    }
    false
}

} // verus!
