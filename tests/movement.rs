use flow::character::{Character, Direction};
use flow::map::WorldMap;
use flow::tile::{RgbaImage, TileMap, TileType};

fn tile_map() -> TileMap {
    let image = RgbaImage { width: 336, height: 224, pixels: vec![255u8; 336 * 224 * 4] };
    TileMap::new(&image)
}

/// A 5x5 map of grass with deep water just above the centre.
fn world_map() -> WorldMap {
    let mut tiles = vec![vec![TileType::Grass; 5]; 5];
    tiles[1][2] = TileType::DeepWater;
    WorldMap::new(5, 5, tiles, tile_map())
}

fn hero() -> Character {
    Character { tile: TileType::Character, x: 10, y: 20 }
}

#[test]
fn moves_onto_floor() {
    let map = world_map();
    let mut c = hero();
    c.try_move_to(Direction::Down, &map);
    assert_eq!(c, Character { tile: TileType::Character, x: 10, y: 21 });
    c.try_move_to(Direction::Left, &map);
    assert_eq!(c, Character { tile: TileType::Character, x: 9, y: 21 });
    c.try_move_to(Direction::Right, &map);
    c.try_move_to(Direction::Right, &map);
    assert_eq!(c, Character { tile: TileType::Character, x: 11, y: 21 });
}

#[test]
fn blocked_by_wall() {
    let map = world_map();
    let mut c = hero();
    c.try_move_to(Direction::Up, &map);
    assert_eq!(c, hero());
}

#[test]
fn layer_places_one_tile() {
    let map = world_map();
    let out = map.layer(TileType::Character, 3, 4);
    assert_eq!(out.len(), 5);
    for y in 0..5 {
        for x in 0..5 {
            let expected = if (x, y) == (3, 4) { TileType::Character } else { map.tiles[y][x] };
            assert_eq!(out[y][x], expected);
        }
    }
    assert_eq!(map.tiles[4][3], TileType::Grass);
}

#[test]
fn direction_offsets() {
    assert_eq!(Direction::Up.offset(), (0, -1));
    assert_eq!(Direction::Down.offset(), (0, 1));
    assert_eq!(Direction::Left.offset(), (-1, 0));
    assert_eq!(Direction::Right.offset(), (1, 0));
}
