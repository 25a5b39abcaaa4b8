use gridquest::sprites::Color;
use gridquest::sprites::SpawnSprite;
use gridquest::sprites::SpriteSheetTile;
use gridquest::sprites::get_index;
use gridquest::sprites::sprite_attributes;
use gridquest::tiles::PIXELS_PER_TILE;
use gridquest::tiles::SPRITE_DIM;
use gridquest::tiles::SPRITE_SCALE;
use gridquest::tiles::TileCoordinate;

#[test]
fn should_convert_tile_coordinate_into_vec3() {
    // given
    let default_tile = TileCoordinate::default();
    let tile = TileCoordinate { x: 2, y: 3, z: 0 };

    // when
    let default_position = default_tile.world_position();
    let position = tile.world_position();

    // then
    assert_eq!(
        (0.0f32, 0.0f32, 0.0f32),
        (
            default_position.x as f32,
            default_position.y as f32,
            default_position.z as f32
        )
    );
    assert_eq!(
        (
            2.0f32 * SPRITE_DIM as f32 * SPRITE_SCALE as f32,
            3.0f32 * SPRITE_DIM as f32 * SPRITE_SCALE as f32,
            0.0f32
        ),
        (position.x as f32, position.y as f32, position.z as f32)
    );
}

#[test]
fn world_position_scales_by_the_tile_span() {
    let tile = TileCoordinate { x: -1, y: 4, z: 2 };
    let p = tile.world_position();
    assert_eq!(p.x, -PIXELS_PER_TILE);
    assert_eq!(p.y, 4 * PIXELS_PER_TILE);
    assert_eq!(p.z, 2);
}

#[test]
fn eq2d_ignores_depth() {
    let a = TileCoordinate { x: 1, y: 2, z: 0 };
    let b = TileCoordinate { x: 1, y: 2, z: 5 };
    let c = TileCoordinate { x: 1, y: 3, z: 0 };
    assert!(a.eq2d(&b));
    assert!(!a.eq2d(&c));
}

#[test]
fn atlas_indices_are_row_major() {
    assert_eq!(get_index(30, 9), 9 * 49 + 30);
    assert_eq!(SpriteSheetTile::Player01.index(), 471);
    assert_eq!(SpriteSheetTile::Grass.index(), 5);
    assert_eq!(SpriteSheetTile::BrickWall01.index(), 17 * 49 + 10);
}

#[test]
fn tiles_have_their_default_tints() {
    assert_eq!(
        SpriteSheetTile::Grass.color(),
        Color { r: 0, g: 100, b: 0 }
    );
    assert_eq!(
        SpriteSheetTile::GoldCoin.color(),
        Color { r: 60, g: 60, b: 0 }
    );
    // a tile without a tint of its own is drawn white
    assert_eq!(
        SpriteSheetTile::Player01.color(),
        Color {
            r: 100,
            g: 100,
            b: 100
        }
    );
}

#[test]
fn custom_tint_overrides_the_default() {
    let spawn = SpawnSprite {
        coordinate: TileCoordinate::default(),
        tile: SpriteSheetTile::Grass,
        color: Some(Color { r: 1, g: 2, b: 3 }),
        tutorial: false,
    };
    assert_eq!(spawn.color(), Color { r: 1, g: 2, b: 3 });
    let plain = SpawnSprite {
        color: None,
        ..SpawnSprite::default()
    };
    assert_eq!(plain.color(), Color { r: 0, g: 100, b: 0 });
}

#[test]
fn sprite_roles_follow_the_tile() {
    let wall = sprite_attributes(&SpriteSheetTile::BrickWall01);
    assert!(wall.solid && wall.tile);
    assert!(!wall.player_controlled);

    let player = sprite_attributes(&SpriteSheetTile::Player01);
    assert!(player.player_controlled && !player.solid);

    let coins = sprite_attributes(&SpriteSheetTile::GoldCoinBag);
    assert_eq!(coins.gold, Some(25));

    let door = sprite_attributes(&SpriteSheetTile::MechanicDoor);
    assert!(door.solid && door.door && door.interactable);

    let lever = sprite_attributes(&SpriteSheetTile::BottomLeverLeft);
    assert!(lever.trigger && lever.interactable && !lever.solid);

    let heart = sprite_attributes(&SpriteSheetTile::Heart);
    assert_eq!(heart.hearts, Some(1));

    let exit = sprite_attributes(&SpriteSheetTile::LevelExit01);
    assert!(exit.exfil && exit.tile);
}
