use vstd::prelude::*;
use crate::tile::{TileMap, TileType};

verus! {

/// A grid of tiles, `height` rows of `width` cells, with the sprites to draw them.
pub struct WorldMap {
    pub width: usize,
    pub height: usize,
    pub tiles: Vec<Vec<TileType>>,
    pub tile_map: TileMap,
}

/// The cells of a grid, row by row.
pub open spec fn grid_view(tiles: Vec<Vec<TileType>>) -> Seq<Seq<TileType>> {
    Seq::new(tiles@.len(), |i: int| tiles@[i]@)
}

/// Whether `tiles` has `height` rows of `width` cells.
pub open spec fn has_shape(tiles: Seq<Seq<TileType>>, width: nat, height: nat) -> bool {
    &&& tiles.len() == height
    &&& forall|i: int| 0 <= i < height ==> (#[trigger] tiles[i]).len() == width
}

impl WorldMap {
    pub open spec fn wf(&self) -> bool {
        &&& has_shape(grid_view(self.tiles), self.width as nat, self.height as nat)
        &&& self.tile_map.wf()
    }

    /// Builds a map from generated terrain.
    pub fn new(width: usize, height: usize, tiles: Vec<Vec<TileType>>, tile_map: TileMap) -> (r: WorldMap)
        requires
            has_shape(grid_view(tiles), width as nat, height as nat),
            tile_map.wf(),
        ensures
            r.wf(),
            r.width == width,
            r.height == height,
            r.tiles == tiles,
            r.tile_map == tile_map,
    {
        WorldMap { width, height, tiles, tile_map }
    }

    /// A copy of the map's cells with `tile` placed at column `x` of row `y`.
    pub fn layer(&self, tile: TileType, x: usize, y: usize) -> (r: Vec<Vec<TileType>>)
        requires
            y < self.tiles@.len(),
            x < self.tiles@[y as int]@.len(),
        ensures
            grid_view(r) == grid_view(self.tiles).update(
                y as int,
                self.tiles@[y as int]@.update(x as int, tile),
            ),
    {
        let mut out: Vec<Vec<TileType>> = Vec::with_capacity(self.tiles.len());
        let mut i: usize = 0;
        while i < self.tiles.len()
            invariant
                i <= self.tiles@.len(),
                y < self.tiles@.len(),
                x < self.tiles@[y as int]@.len(),
                out@.len() == i,
                forall|k: int|
                    0 <= k < i ==> (#[trigger] out@[k])@ == if k == y {
                        self.tiles@[y as int]@.update(x as int, tile)
                    } else {
                        self.tiles@[k]@
                    },
            decreases self.tiles@.len() - i,
        {
            let src = &self.tiles[i];
            let mut row: Vec<TileType> = Vec::with_capacity(src.len());
            let mut j: usize = 0;
            while j < src.len()
                invariant
                    j <= src@.len(),
                    row@.len() == j,
                    forall|m: int| 0 <= m < j ==> row@[m] == src@[m],
                decreases src@.len() - j,
            {
                row.push(src[j]);
                j = j + 1;
            }
            assert(row@ =~= src@);
            if i == y {
                row.set(x, tile);
            }
            out.push(row);
            i = i + 1;
        }
        assert(grid_view(out) =~= grid_view(self.tiles).update(
            y as int,
            self.tiles@[y as int]@.update(x as int, tile),
        ));
        out
    }
}

} // verus!
