//! Where the pixels of an image go on screen.

use crate::images::{IMAGE_HEIGHT, IMAGE_SIZE, IMAGE_WIDTH};
use vstd::prelude::*;

verus! {

/// Side of the square that shows one pixel, in screen pixels.
pub const TILE_SIZE: u32 = 20;

/// A filled grey square on screen.
#[derive(Clone, Copy, Debug, PartialEq, Eq, Structural)]
pub struct Tile {
    pub luma: u8,
    pub x: i32,
    pub y: i32,
    pub width: u32,
    pub height: u32,
}

/// The square that shows the pixel in column `x` of row `y`.
pub open spec fn tile_at(image: Seq<u8>, x: int, y: int) -> Tile {
    Tile {
        luma: image[x + y * IMAGE_WIDTH],
        x: (x * TILE_SIZE) as i32,
        y: (y * TILE_SIZE) as i32,
        width: TILE_SIZE,
        height: TILE_SIZE,
    }
}

/// The squares of a whole image, row by row from the top, each row from the
/// left.
pub open spec fn tiles_of(image: Seq<u8>) -> Seq<Tile> {
    Seq::new(
        IMAGE_SIZE as nat,
        |k: int| tile_at(image, k % (IMAGE_WIDTH as int), k / (IMAGE_WIDTH as int)),
    )
}

/// The squares to fill in order to show `image`.
pub fn digit_tiles(image: &[u8; IMAGE_SIZE]) -> (tiles: Vec<Tile>)
    ensures
        tiles@ == tiles_of(image@),
{
    let mut tiles: Vec<Tile> = Vec::with_capacity(IMAGE_SIZE);
    let mut y: usize = 0;
    while y < IMAGE_HEIGHT
        invariant
            y <= IMAGE_HEIGHT,
            tiles@ == tiles_of(image@).take(y * IMAGE_WIDTH),
        decreases IMAGE_HEIGHT - y,
    {
        let mut x: usize = 0;
        while x < IMAGE_WIDTH
            invariant
                y < IMAGE_HEIGHT,
                x <= IMAGE_WIDTH,
                tiles@ == tiles_of(image@).take(y * IMAGE_WIDTH + x),
            decreases IMAGE_WIDTH - x,
        {
            let luma = image[x + y * IMAGE_WIDTH];
            tiles.push(
                Tile {
                    luma,
                    x: (x as u32 * TILE_SIZE) as i32,
                    y: (y as u32 * TILE_SIZE) as i32,
                    width: TILE_SIZE,
                    height: TILE_SIZE,
                },
            );
            assert(tiles@ =~= tiles_of(image@).take(y * IMAGE_WIDTH + x + 1));
            x += 1;
        }
        y += 1;
    }
    assert(tiles@ =~= tiles_of(image@));
    tiles
}

} // verus!
