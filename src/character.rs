use vstd::prelude::*;
use crate::map::WorldMap;
use crate::tile::{Navigation, TileType};

verus! {

/// A figure on the map, drawn with the sprite of `tile`.
#[derive(Debug, PartialEq, Eq, Structural, Clone, Copy)]
pub struct Character {
    pub tile: TileType,
    pub x: i32,
    pub y: i32,
}

/// One step on the grid.
#[derive(Debug, PartialEq, Eq, Structural, Clone, Copy)]
pub enum Direction {
    Up,
    Down,
    Left,
    Right,
}

impl Direction {
    /// Column and row change of one step; rows grow downwards.
    pub open spec fn offset_spec(self) -> (int, int) {
        match self {
            Direction::Up => (0, -1),
            Direction::Down => (0, 1),
            Direction::Left => (-1, 0),
            Direction::Right => (1, 0),
        }
    }

    pub fn offset(&self) -> (r: (i32, i32))
        ensures
            r.0 == self.offset_spec().0,
            r.1 == self.offset_spec().1,
    {
        match self {
            Direction::Up => (0, -1),
            Direction::Down => (0, 1),
            Direction::Left => (-1, 0),
            Direction::Right => (1, 0),
        }
    }
}

/// The cell one step from the map's centre in `direction`, as (column, row).
pub open spec fn target_cell(map: WorldMap, direction: Direction) -> (int, int) {
    (
        map.width as int / 2 + direction.offset_spec().0,
        map.height as int / 2 + direction.offset_spec().1,
    )
}

/// Whether that cell lies on the map.
pub open spec fn target_in_map(map: WorldMap, direction: Direction) -> bool {
    let (cx, cy) = target_cell(map, direction);
    0 <= cx < map.width && 0 <= cy < map.height
}

/// Whether that cell can be walked on.
pub open spec fn target_is_floor(map: WorldMap, direction: Direction) -> bool {
    let (cx, cy) = target_cell(map, direction);
    map.tile_map.tile_of(map.tiles@[cy]@[cx]).navigation == Navigation::Floor
}

impl Character {
    /// Takes one step in `direction` when the map cell next to its centre in
    /// that direction is floor; otherwise stays put.
    pub fn try_move_to(&mut self, direction: Direction, map: &WorldMap)
        requires
            map.wf(),
            map.width <= i32::MAX,
            map.height <= i32::MAX,
            target_in_map(*map, direction),
            i32::MIN <= old(self).x + direction.offset_spec().0 <= i32::MAX,
            i32::MIN <= old(self).y + direction.offset_spec().1 <= i32::MAX,
        ensures
            final(self).tile == old(self).tile,
            target_is_floor(*map, direction) ==> final(self).x == old(self).x
                + direction.offset_spec().0 && final(self).y == old(self).y
                + direction.offset_spec().1,
            !target_is_floor(*map, direction) ==> *final(self) == *old(self),
    {
        let center_x = map.width / 2;
        let center_y = map.height / 2;
        let offset = direction.offset();
        let x = self.x + offset.0;
        let y = self.y + offset.1;

        let new_center_x = center_x as i32 + offset.0;
        let new_center_y = center_y as i32 + offset.1;

        let row = &map.tiles[new_center_y as usize];
        assert(row@ == crate::map::grid_view(map.tiles)[new_center_y as int]);
        let cell = row[new_center_x as usize];
        let previous_tile = &map.tile_map.tiles[cell.index()];
        match previous_tile.navigation {
            Navigation::Wall => (),
            Navigation::Floor => {
                self.x = x;
                self.y = y;
            },
        }
    }
}

} // verus!
