//! The sprite sheet: which cell of the atlas each game tile uses, its
//! tint, and which gameplay roles a spawned sprite takes on.

use vstd::prelude::*;

use crate::tiles::TileCoordinate;

verus! {

/// Columns in the sprite atlas.
pub const X_TILES: usize = 49;

/// Rows in the sprite atlas.
pub const Y_TILES: usize = 22;

/// Pixel gap between atlas cells.
pub const GAP: usize = 1;

/// The tiles the game draws, each naming one cell of the sprite atlas.
#[derive(Clone, Copy, PartialEq, Eq, Structural, Hash, Debug)]
pub enum SpriteSheetTile {
    // creature sprites
    Player01,
    // exit tiles
    LevelExit01,
    // doors
    LockedDoor,
    MagicDoor,
    OpenDoor,
    RegularDoor,
    MechanicDoor,
    // floor tiles
    Grass,
    GrassFlowers,
    LongGrass,
    // walls
    BrickWall01,
    // valuables
    GoldCoin,
    GoldCoins,
    GoldCoinBag,
    // pickups
    Heart,
    EmptyHeart,
    // levers
    BottomLeverLeft,
    // characters
    A,
    D,
    S,
    W,
    // controls
    LeftDigiPadRound,
    RightDigiPadRound,
    UpDigiPadRound,
    DownDigiPadRound,
}

/// Atlas position `(x, y)` flattened to a row-major index.
pub open spec fn spec_atlas_index(x: int, y: int) -> int {
    y * 49 + x
}

/// Flattens an atlas position to its row-major index.
pub fn get_index(x: usize, y: usize) -> (i: usize)
    requires
        x < X_TILES,
        y < Y_TILES,
    ensures
        i == spec_atlas_index(x as int, y as int),
{
    y * X_TILES + x
}

/// The atlas cell each tile is drawn from, flattened.
pub open spec fn spec_tile_index(tile: SpriteSheetTile) -> int {
    match tile {
        SpriteSheetTile::Player01 => spec_atlas_index(30, 9),
        SpriteSheetTile::LevelExit01 => spec_atlas_index(2, 9),
        SpriteSheetTile::LockedDoor => spec_atlas_index(0, 9),
        SpriteSheetTile::MagicDoor => spec_atlas_index(1, 9),
        SpriteSheetTile::OpenDoor => spec_atlas_index(2, 9),
        SpriteSheetTile::RegularDoor => spec_atlas_index(3, 9),
        SpriteSheetTile::MechanicDoor => spec_atlas_index(4, 9),
        SpriteSheetTile::Grass => spec_atlas_index(5, 0),
        SpriteSheetTile::GrassFlowers => spec_atlas_index(6, 0),
        SpriteSheetTile::LongGrass => spec_atlas_index(7, 0),
        SpriteSheetTile::BrickWall01 => spec_atlas_index(10, 17),
        SpriteSheetTile::GoldCoin => spec_atlas_index(41, 3),
        SpriteSheetTile::GoldCoins => spec_atlas_index(41, 4),
        SpriteSheetTile::GoldCoinBag => spec_atlas_index(42, 4),
        SpriteSheetTile::Heart => spec_atlas_index(39, 10),
        SpriteSheetTile::EmptyHeart => spec_atlas_index(40, 10),
        SpriteSheetTile::BottomLeverLeft => spec_atlas_index(38, 10),
        SpriteSheetTile::A => spec_atlas_index(35, 18),
        SpriteSheetTile::D => spec_atlas_index(38, 18),
        SpriteSheetTile::S => spec_atlas_index(40, 19),
        SpriteSheetTile::W => spec_atlas_index(44, 19),
        SpriteSheetTile::LeftDigiPadRound => spec_atlas_index(47, 11),
        SpriteSheetTile::RightDigiPadRound => spec_atlas_index(45, 11),
        SpriteSheetTile::UpDigiPadRound => spec_atlas_index(44, 11),
        SpriteSheetTile::DownDigiPadRound => spec_atlas_index(46, 11),
    }
}

/// An opaque tint, each channel in hundredths of full intensity
/// (0 is dark, 100 is full).
#[derive(Clone, Copy, PartialEq, Eq, Structural, Debug)]
pub struct Color {
    pub r: u8,
    pub g: u8,
    pub b: u8,
}

/// White: the neutral tint.
pub open spec fn spec_white() -> Color {
    Color { r: 100, g: 100, b: 100 }
}

/// The tint each tile is drawn with when no custom tint is asked for.
pub open spec fn spec_tile_color(tile: SpriteSheetTile) -> Color {
    match tile {
        SpriteSheetTile::LevelExit01 => Color { r: 0, g: 100, b: 100 },
        SpriteSheetTile::Grass => Color { r: 0, g: 100, b: 0 },
        SpriteSheetTile::GrassFlowers => Color { r: 20, g: 100, b: 20 },
        SpriteSheetTile::LongGrass => Color { r: 0, g: 100, b: 0 },
        SpriteSheetTile::BrickWall01 => Color { r: 50, g: 10, b: 10 },
        SpriteSheetTile::GoldCoin => Color { r: 60, g: 60, b: 0 },
        SpriteSheetTile::GoldCoins => Color { r: 60, g: 60, b: 0 },
        SpriteSheetTile::GoldCoinBag => Color { r: 60, g: 60, b: 0 },
        _ => spec_white(),
    }
}

impl SpriteSheetTile {
    /// The flattened atlas index this tile is drawn from.
    pub fn index(&self) -> (i: usize)
        ensures
            i == spec_tile_index(*self),
    {
        match self {
            SpriteSheetTile::Player01 => get_index(30, 9),
            SpriteSheetTile::LevelExit01 => get_index(2, 9),
            SpriteSheetTile::LockedDoor => get_index(0, 9),
            SpriteSheetTile::MagicDoor => get_index(1, 9),
            SpriteSheetTile::OpenDoor => get_index(2, 9),
            SpriteSheetTile::RegularDoor => get_index(3, 9),
            SpriteSheetTile::MechanicDoor => get_index(4, 9),
            SpriteSheetTile::Grass => get_index(5, 0),
            SpriteSheetTile::GrassFlowers => get_index(6, 0),
            SpriteSheetTile::LongGrass => get_index(7, 0),
            SpriteSheetTile::BrickWall01 => get_index(10, 17),
            SpriteSheetTile::GoldCoin => get_index(41, 3),
            SpriteSheetTile::GoldCoins => get_index(41, 4),
            SpriteSheetTile::GoldCoinBag => get_index(42, 4),
            SpriteSheetTile::Heart => get_index(39, 10),
            SpriteSheetTile::EmptyHeart => get_index(40, 10),
            SpriteSheetTile::BottomLeverLeft => get_index(38, 10),
            SpriteSheetTile::A => get_index(35, 18),
            SpriteSheetTile::D => get_index(38, 18),
            SpriteSheetTile::S => get_index(40, 19),
            SpriteSheetTile::W => get_index(44, 19),
            SpriteSheetTile::LeftDigiPadRound => get_index(47, 11),
            SpriteSheetTile::RightDigiPadRound => get_index(45, 11),
            SpriteSheetTile::UpDigiPadRound => get_index(44, 11),
            SpriteSheetTile::DownDigiPadRound => get_index(46, 11),
        }
    }

    /// The tile's default tint.
    pub fn color(&self) -> (c: Color)
        ensures
            c == spec_tile_color(*self),
    {
        match self {
            SpriteSheetTile::LevelExit01 => Color { r: 0, g: 100, b: 100 },
            SpriteSheetTile::Grass => Color { r: 0, g: 100, b: 0 },
            SpriteSheetTile::GrassFlowers => Color { r: 20, g: 100, b: 20 },
            SpriteSheetTile::LongGrass => Color { r: 0, g: 100, b: 0 },
            SpriteSheetTile::BrickWall01 => Color { r: 50, g: 10, b: 10 },
            SpriteSheetTile::GoldCoin => Color { r: 60, g: 60, b: 0 },
            SpriteSheetTile::GoldCoins => Color { r: 60, g: 60, b: 0 },
            SpriteSheetTile::GoldCoinBag => Color { r: 60, g: 60, b: 0 },
            _ => Color { r: 100, g: 100, b: 100 },
        }
    }
}

impl Default for SpriteSheetTile {
    /// Plain grass.
    fn default() -> (t: Self)
        ensures
            t == SpriteSheetTile::Grass,
    {
        SpriteSheetTile::Grass
    }
}

/// A request to spawn one sprite on a cell, with an optional custom
/// tint and an optional tutorial marking.
#[derive(Clone, Copy, PartialEq, Eq, Structural, Debug)]
pub struct SpawnSprite {
    pub coordinate: TileCoordinate,
    pub tile: SpriteSheetTile,
    /// Custom tint; overrides the tile's default.
    pub color: Option<Color>,
    pub tutorial: bool,
}

impl SpawnSprite {
    /// The tint the sprite is drawn with: the custom one when asked
    /// for, the tile's default otherwise.
    pub fn color(&self) -> (c: Color)
        ensures
            c == (match self.color {
                Some(custom) => custom,
                None => spec_tile_color(self.tile),
            }),
    {
        match self.color {
            Some(custom) => custom,
            None => self.tile.color(),
        }
    }
}

impl Default for SpawnSprite {
    /// Plain grass on the origin cell, default tint, no tutorial mark.
    fn default() -> (s: Self)
        ensures
            s.coordinate == (TileCoordinate { x: 0, y: 0, z: 0 }),
            s.tile == SpriteSheetTile::Grass,
            s.color is None,
            !s.tutorial,
    {
        SpawnSprite {
            coordinate: TileCoordinate { x: 0, y: 0, z: 0 },
            tile: SpriteSheetTile::Grass,
            color: None,
            tutorial: false,
        }
    }
}

/// The gameplay roles a spawned sprite takes on, decided by its tile.
#[derive(Clone, Copy, PartialEq, Eq, Structural, Debug)]
pub struct SpawnAttributes {
    /// A level element (wall, floor, exit, door, lever).
    pub tile: bool,
    /// Blocks movement onto its cell.
    pub solid: bool,
    /// Walkable ground.
    pub floor: bool,
    /// The level's exit: standing on it finishes the level.
    pub exfil: bool,
    /// Steered by the player's directional inputs.
    pub player_controlled: bool,
    /// Stepping against it raises an interaction trigger.
    pub interactable: bool,
    /// A door: the usual target of an interaction.
    pub door: bool,
    /// A lever: the usual source of an interaction.
    pub trigger: bool,
    /// Coins granted when picked up.
    pub gold: Option<i64>,
    /// Hearts granted when picked up.
    pub hearts: Option<usize>,
}

/// A sprite with no gameplay role at all.
pub open spec fn spec_plain_attributes() -> SpawnAttributes {
    SpawnAttributes {
        tile: false,
        solid: false,
        floor: false,
        exfil: false,
        player_controlled: false,
        interactable: false,
        door: false,
        trigger: false,
        gold: None,
        hearts: None,
    }
}

/// The roles each tile hands to the sprite spawned from it: the exit is
/// a tile and an exit; the player sprite is player-controlled; coins
/// carry their value; the brick wall is a solid tile; grasses are floor
/// tiles; closed doors are solid, interactable door tiles; the lever is
/// an interactable trigger tile; the heart grants one heart; everything
/// else is plain.
pub open spec fn spec_sprite_attributes(tile: SpriteSheetTile) -> SpawnAttributes {
    match tile {
        SpriteSheetTile::LevelExit01 => SpawnAttributes {
            tile: true,
            exfil: true,
            ..spec_plain_attributes()
        },
        SpriteSheetTile::Player01 => SpawnAttributes {
            player_controlled: true,
            ..spec_plain_attributes()
        },
        SpriteSheetTile::GoldCoin => SpawnAttributes { gold: Some(1), ..spec_plain_attributes() },
        SpriteSheetTile::GoldCoins => SpawnAttributes { gold: Some(5), ..spec_plain_attributes() },
        SpriteSheetTile::GoldCoinBag => SpawnAttributes {
            gold: Some(25),
            ..spec_plain_attributes()
        },
        SpriteSheetTile::BrickWall01 => SpawnAttributes {
            tile: true,
            solid: true,
            ..spec_plain_attributes()
        },
        SpriteSheetTile::Grass => SpawnAttributes {
            tile: true,
            floor: true,
            ..spec_plain_attributes()
        },
        SpriteSheetTile::GrassFlowers => SpawnAttributes {
            tile: true,
            floor: true,
            ..spec_plain_attributes()
        },
        SpriteSheetTile::LongGrass => SpawnAttributes {
            tile: true,
            floor: true,
            ..spec_plain_attributes()
        },
        SpriteSheetTile::LockedDoor => SpawnAttributes {
            tile: true,
            solid: true,
            interactable: true,
            door: true,
            ..spec_plain_attributes()
        },
        SpriteSheetTile::MagicDoor => SpawnAttributes {
            tile: true,
            solid: true,
            interactable: true,
            door: true,
            ..spec_plain_attributes()
        },
        SpriteSheetTile::RegularDoor => SpawnAttributes {
            tile: true,
            solid: true,
            interactable: true,
            door: true,
            ..spec_plain_attributes()
        },
        SpriteSheetTile::MechanicDoor => SpawnAttributes {
            tile: true,
            solid: true,
            interactable: true,
            door: true,
            ..spec_plain_attributes()
        },
        SpriteSheetTile::BottomLeverLeft => SpawnAttributes {
            tile: true,
            interactable: true,
            trigger: true,
            ..spec_plain_attributes()
        },
        SpriteSheetTile::Heart => SpawnAttributes { hearts: Some(1), ..spec_plain_attributes() },
        _ => spec_plain_attributes(),
    }
}

/// Decides the gameplay roles of a sprite spawned from `tile`.
pub fn sprite_attributes(tile: &SpriteSheetTile) -> (a: SpawnAttributes)
    ensures
        a == spec_sprite_attributes(*tile),
{
    let plain = SpawnAttributes {
        tile: false,
        solid: false,
        floor: false,
        exfil: false,
        player_controlled: false,
        interactable: false,
        door: false,
        trigger: false,
        gold: None,
        hearts: None,
    };
    match tile {
        SpriteSheetTile::LevelExit01 => SpawnAttributes { tile: true, exfil: true, ..plain },
        SpriteSheetTile::Player01 => SpawnAttributes { player_controlled: true, ..plain },
        SpriteSheetTile::GoldCoin => SpawnAttributes { gold: Some(1), ..plain },
        SpriteSheetTile::GoldCoins => SpawnAttributes { gold: Some(5), ..plain },
        SpriteSheetTile::GoldCoinBag => SpawnAttributes { gold: Some(25), ..plain },
        SpriteSheetTile::BrickWall01 => SpawnAttributes { tile: true, solid: true, ..plain },
        SpriteSheetTile::Grass => SpawnAttributes { tile: true, floor: true, ..plain },
        SpriteSheetTile::GrassFlowers => SpawnAttributes { tile: true, floor: true, ..plain },
        SpriteSheetTile::LongGrass => SpawnAttributes { tile: true, floor: true, ..plain },
        SpriteSheetTile::LockedDoor => SpawnAttributes {
            tile: true,
            solid: true,
            interactable: true,
            door: true,
            ..plain
        },
        SpriteSheetTile::MagicDoor => SpawnAttributes {
            tile: true,
            solid: true,
            interactable: true,
            door: true,
            ..plain
        },
        SpriteSheetTile::RegularDoor => SpawnAttributes {
            tile: true,
            solid: true,
            interactable: true,
            door: true,
            ..plain
        },
        SpriteSheetTile::MechanicDoor => SpawnAttributes {
            tile: true,
            solid: true,
            interactable: true,
            door: true,
            ..plain
        },
        SpriteSheetTile::BottomLeverLeft => SpawnAttributes {
            tile: true,
            interactable: true,
            trigger: true,
            ..plain
        },
        SpriteSheetTile::Heart => SpawnAttributes { hearts: Some(1), ..plain },
        _ => plain,
    }
}

} // verus!
