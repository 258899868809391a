use vstd::prelude::*;

verus! {

/// What occupies one cell of the map.
#[derive(Debug, Hash, PartialEq, Eq, Structural, Clone, Copy)]
pub enum TileType {
    Empty,
    Character,
    Grass,
    TallGrass,
    DeepWater,
    ShallowWater,
    Hill,
    Mountain,
    Beach,
}

/// Number of tile kinds; each kind has one slot in a `TileMap`.
pub const TILE_KINDS: usize = 9;

impl TileType {
    /// Position of the kind in declaration order.
    pub open spec fn ord(self) -> nat {
        match self {
            TileType::Empty => 0,
            TileType::Character => 1,
            TileType::Grass => 2,
            TileType::TallGrass => 3,
            TileType::DeepWater => 4,
            TileType::ShallowWater => 5,
            TileType::Hill => 6,
            TileType::Mountain => 7,
            TileType::Beach => 8,
        }
    }

    pub fn index(&self) -> (r: usize)
        ensures
            r == self.ord(),
            r < TILE_KINDS,
    {
        match self {
            TileType::Empty => 0,
            TileType::Character => 1,
            TileType::Grass => 2,
            TileType::TallGrass => 3,
            TileType::DeepWater => 4,
            TileType::ShallowWater => 5,
            TileType::Hill => 6,
            TileType::Mountain => 7,
            TileType::Beach => 8,
        }
    }
}

/// Whether a character may stand on a tile.
#[derive(Debug, Hash, PartialEq, Eq, Structural, Clone, Copy)]
pub enum Navigation {
    Wall,
    Floor,
}

/// A tile kind with its 8x8 sprite of palette indices, row by row.
#[derive(Debug, Hash, PartialEq, Eq, Clone)]
pub struct Tile {
    pub kind: TileType,
    pub sprite: Vec<u8>,
    pub navigation: Navigation,
}

/// A decoded RGBA image: `width * height` pixels of four bytes each, row by row.
pub struct RgbaImage {
    pub width: u32,
    pub height: u32,
    pub pixels: Vec<u8>,
}

impl RgbaImage {
    pub open spec fn wf(&self) -> bool {
        self.pixels@.len() == self.width as int * self.height as int * 4
    }

    /// Alpha channel of the pixel in column `x`, row `y`.
    pub open spec fn alpha(&self, x: int, y: int) -> u8 {
        self.pixels@[(y * self.width + x) * 4 + 3]
    }
}

/// Side of a square sprite, in pixels.
pub const SPRITE_SIDE: u32 = 8;

/// Number of pixels in a sprite.
pub const SPRITE_LEN: usize = 64;

/// The sprite cut from the 8x8 block at `(x_pos, y_pos)`: row by row, `bg`
/// where the pixel is fully transparent and `fg` elsewhere.
pub open spec fn sprite_of(image: RgbaImage, x_pos: u32, y_pos: u32, bg: u8, fg: u8) -> Seq<u8> {
    Seq::new(
        SPRITE_LEN as nat,
        |k: int| if image.alpha(x_pos + k % 8, y_pos + k / 8) == 0 { bg } else { fg },
    )
}

proof fn lemma_pixel_in_image(w: int, h: int, x: int, y: int)
    requires
        0 <= x < w,
        0 <= y < h,
    ensures
        0 <= (y * w + x) * 4 + 3 < w * h * 4,
{
    assert(y * w + x < w * h) by (nonlinear_arith)
        requires
            0 <= x < w,
            0 <= y < h,
    ;
    assert(0 <= y * w) by (nonlinear_arith)
        requires
            0 <= x < w,
            0 <= y < h,
    ;
}

/// The sprite of every tile kind, held at the slot given by the kind's `ord`.
pub struct TileMap {
    pub tiles: Vec<Tile>,
}

/// Width a sprite sheet needs for `TileMap::new`.
pub const SHEET_MIN_WIDTH: u32 = 336;

/// Height a sprite sheet needs for `TileMap::new`.
pub const SHEET_MIN_HEIGHT: u32 = 224;

/// Palette index that fills the sprite of an empty cell.
pub const EMPTY_SHADE: u8 = 15;

/// Whether a character may stand on a tile of kind `k`.
pub open spec fn navigation_of(k: TileType) -> Navigation {
    match k {
        TileType::Character | TileType::ShallowWater | TileType::DeepWater => Navigation::Wall,
        _ => Navigation::Floor,
    }
}

/// Where the sprite of kind `k` sits on the sheet, with its background and
/// foreground palette indices: `(x, y, bg, fg)`.
pub open spec fn sheet_cell(k: TileType) -> (u32, u32, u8, u8) {
    match k {
        TileType::Character => (328, 32, 15, 10),
        TileType::ShallowWater => (96, 192, 10, 3),
        TileType::DeepWater => (96, 208, 11, 8),
        TileType::Hill => (224, 208, 12, 11),
        TileType::Mountain => (232, 208, 11, 10),
        TileType::Beach => (176, 208, 13, 6),
        TileType::TallGrass => (192, 208, 7, 2),
        TileType::Grass => (64, 216, 15, 2),
        TileType::Empty => (0, 0, EMPTY_SHADE, EMPTY_SHADE),
    }
}

/// The sprite that kind `k` gets from `image`; an empty cell is one flat shade.
pub open spec fn expected_sprite(image: RgbaImage, k: TileType) -> Seq<u8> {
    if k == TileType::Empty {
        Seq::new(SPRITE_LEN as nat, |i: int| EMPTY_SHADE)
    } else {
        let (x, y, bg, fg) = sheet_cell(k);
        sprite_of(image, x, y, bg, fg)
    }
}

impl TileMap {
    pub open spec fn wf(&self) -> bool {
        &&& self.tiles@.len() == TILE_KINDS
        &&& forall|i: int| 0 <= i < TILE_KINDS ==> (#[trigger] self.tiles@[i]).kind.ord() == i
    }

    /// The tile stored for kind `k`.
    pub open spec fn tile_of(&self, k: TileType) -> Tile {
        self.tiles@[k.ord() as int]
    }

    fn grab_sprite(image: &RgbaImage, x_pos: u32, y_pos: u32, bg: u8, fg: u8) -> (r: Vec<u8>)
        requires
            image.wf(),
            x_pos + SPRITE_SIDE <= image.width,
            y_pos + SPRITE_SIDE <= image.height,
        ensures
            r@ == sprite_of(*image, x_pos, y_pos, bg, fg),
    {
        let mut out: Vec<u8> = Vec::with_capacity(SPRITE_LEN);
        let w = image.width as usize;
        let mut dy: u32 = 0;
        while dy < SPRITE_SIDE
            invariant
                image.wf(),
                x_pos + SPRITE_SIDE <= image.width,
                y_pos + SPRITE_SIDE <= image.height,
                w == image.width,
                dy <= SPRITE_SIDE,
                out@.len() == dy * 8,
                forall|k: int|
                    0 <= k < out@.len() ==> out@[k] == sprite_of(*image, x_pos, y_pos, bg, fg)[k],
            decreases SPRITE_SIDE - dy,
        {
            let mut dx: u32 = 0;
            while dx < SPRITE_SIDE
                invariant
                    image.wf(),
                    x_pos + SPRITE_SIDE <= image.width,
                    y_pos + SPRITE_SIDE <= image.height,
                    w == image.width,
                    dy < SPRITE_SIDE,
                    dx <= SPRITE_SIDE,
                    out@.len() == dy * 8 + dx,
                    forall|k: int|
                        0 <= k < out@.len() ==> out@[k] == sprite_of(
                            *image,
                            x_pos,
                            y_pos,
                            bg,
                            fg,
                        )[k],
                decreases SPRITE_SIDE - dx,
            {
                let x = (x_pos + dx) as usize;
                let y = (y_pos + dy) as usize;
                proof {
                    lemma_pixel_in_image(image.width as int, image.height as int, x as int, y as int);
                    assert(image.pixels@.len() == image.pixels.len());
                    assert(0 <= y * w <= (y * w + x) * 4 + 3) by (nonlinear_arith)
                        requires
                            0 <= x,
                            0 <= y,
                            0 <= w,
                    ;
                }
                let a = image.pixels[(y * w + x) * 4 + 3];
                let v = if a == 0 {
                    bg
                } else {
                    fg
                };
                proof {
                    let k = dy * 8 + dx;
                    assert(k % 8 == dx && k / 8 == dy);
                }
                out.push(v);
                dx = dx + 1;
            }
            dy = dy + 1;
        }
        out
    }

    fn make_tile(image: &RgbaImage, kind: TileType) -> (r: Tile)
        requires
            image.wf(),
            SHEET_MIN_WIDTH <= image.width,
            SHEET_MIN_HEIGHT <= image.height,
        ensures
            r.kind == kind,
            r.navigation == navigation_of(kind),
            r.sprite@ == expected_sprite(*image, kind),
    {
        let (x, y, bg, fg, navigation) = match kind {
            TileType::Empty => {
                let sprite = vec![EMPTY_SHADE; SPRITE_LEN];
                assert(sprite@ =~= expected_sprite(*image, kind));
                return Tile { kind, sprite, navigation: Navigation::Floor };
            },
            TileType::Character => (328, 32, 15, 10, Navigation::Wall),
            TileType::ShallowWater => (96, 192, 10, 3, Navigation::Wall),
            TileType::DeepWater => (96, 208, 11, 8, Navigation::Wall),
            TileType::Hill => (224, 208, 12, 11, Navigation::Floor),
            TileType::Mountain => (232, 208, 11, 10, Navigation::Floor),
            TileType::Beach => (176, 208, 13, 6, Navigation::Floor),
            TileType::TallGrass => (192, 208, 7, 2, Navigation::Floor),
            TileType::Grass => (64, 216, 15, 2, Navigation::Floor),
        };
        let sprite = Self::grab_sprite(image, x, y, bg, fg);
        Tile { kind, sprite, navigation }
    }

    /// Cuts every kind's sprite out of the sheet.
    pub fn new(image: &RgbaImage) -> (r: TileMap)
        requires
            image.wf(),
            SHEET_MIN_WIDTH <= image.width,
            SHEET_MIN_HEIGHT <= image.height,
        ensures
            r.wf(),
            forall|k: TileType|
                #![auto]
                r.tile_of(k).navigation == navigation_of(k) && r.tile_of(k).sprite@
                    == expected_sprite(*image, k),
    {
        let mut tiles: Vec<Tile> = Vec::with_capacity(TILE_KINDS);
        tiles.push(Self::make_tile(image, TileType::Empty));
        tiles.push(Self::make_tile(image, TileType::Character));
        tiles.push(Self::make_tile(image, TileType::Grass));
        tiles.push(Self::make_tile(image, TileType::TallGrass));
        tiles.push(Self::make_tile(image, TileType::DeepWater));
        tiles.push(Self::make_tile(image, TileType::ShallowWater));
        tiles.push(Self::make_tile(image, TileType::Hill));
        tiles.push(Self::make_tile(image, TileType::Mountain));
        tiles.push(Self::make_tile(image, TileType::Beach));
        let r = TileMap { tiles };
        assert forall|k: TileType|
            #![auto]
            r.tile_of(k).navigation == navigation_of(k) && r.tile_of(k).sprite@
                == expected_sprite(*image, k) by {
            match k {
                TileType::Empty => {},
                TileType::Character => {},
                TileType::Grass => {},
                TileType::TallGrass => {},
                TileType::DeepWater => {},
                TileType::ShallowWater => {},
                TileType::Hill => {},
                TileType::Mountain => {},
                TileType::Beach => {},
            }
        }
        r
    }

    /// The sprite of kind `tile`.
    pub fn sprite(&self, tile: &TileType) -> (r: &Vec<u8>)
        requires
            self.wf(),
        ensures
            r@ == self.tile_of(*tile).sprite@,
    {
        &self.tiles[tile.index()].sprite
    }
}

} // verus!
