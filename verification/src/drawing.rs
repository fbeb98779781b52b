//! Drawing on the grid of an image with the pointer.

use crate::images::IMAGE_WIDTH;
use crate::input::{InputHandler, InputState};
use crate::vector::Vec2u;
use vstd::prelude::*;

verus! {

/// How much one stroke brightens or darkens a tile.
pub const DRAWING_INCREMENT: u8 = 5;

/// Whether `pos` lies in the drawing space, its far edges included.
pub open spec fn in_space(pos: Vec2u, space: Vec2u) -> bool {
    pos.x <= space.x && pos.y <= space.y
}

/// The index of the tile under `pos` in a row-major grid of `IMAGE_WIDTH`
/// columns whose tiles are `tile_size` pixels wide and high.
pub open spec fn tile_under(pos: Vec2u, tile_size: u32) -> int {
    pos.x / tile_size + (pos.y / tile_size) * IMAGE_WIDTH
}

/// A tile after one stroke: the left button brightens it, the right button
/// darkens it, the left one first, and neither takes it out of `0..=255`.
pub open spec fn stroke(tile: u8, left_click: bool, right_click: bool) -> u8 {
    if left_click && tile <= 255 - DRAWING_INCREMENT {
        (tile + DRAWING_INCREMENT) as u8
    } else if right_click && tile >= DRAWING_INCREMENT {
        (tile - DRAWING_INCREMENT) as u8
    } else {
        tile
    }
}

/// Whether a stroke at `pos` is defined on a drawing of `len` tiles: either
/// the pointer is outside the drawing space, or there is a tile under it.
pub open spec fn stroke_defined(len: nat, tile_size: u32, space: Vec2u, pos: Vec2u) -> bool {
    in_space(pos, space) ==> tile_size > 0 && tile_under(pos, tile_size) < len
}

/// The drawing after one stroke with the pointer in state `inputs`.
pub open spec fn drawn(drawing: Seq<u8>, tile_size: u32, space: Vec2u, inputs: InputState) -> Seq<
    u8,
> {
    if in_space(inputs.mouse_pos, space) {
        let tile = tile_under(inputs.mouse_pos, tile_size);
        drawing.update(tile, stroke(drawing[tile], inputs.left_click, inputs.right_click))
    } else {
        drawing
    }
}

/// Whether `draw` may be called on a drawing of `len` tiles.
pub fn can_draw(len: usize, tile_size: u32, drawing_space: Vec2u, inputs: &InputHandler) -> (defined:
    bool)
    ensures
        defined == stroke_defined(len as nat, tile_size, drawing_space, inputs@.mouse_pos),
{
    let pos = inputs.mouse_pos();
    if pos.x > drawing_space.x || pos.y > drawing_space.y {
        return true;
    }
    if tile_size == 0 {
        return false;
    }
    let column = (pos.x / tile_size) as u64;
    let row = (pos.y / tile_size) as u64;
    let width = IMAGE_WIDTH as u64;
    assert(width == 28);
    column + row * width < len as u64
}

/// Applies one stroke to the tile under the pointer. A pointer outside the
/// drawing space leaves the drawing as it is.
pub fn draw(drawing: &mut [u8], tile_size: u32, drawing_space: Vec2u, inputs: &InputHandler)
    requires
        stroke_defined(old(drawing)@.len(), tile_size, drawing_space, inputs@.mouse_pos),
    ensures
        final(drawing)@ == drawn(old(drawing)@, tile_size, drawing_space, inputs@),
{
    let mouse_pos = inputs.mouse_pos();
    if mouse_pos.x > drawing_space.x || mouse_pos.y > drawing_space.y {
        return;
    }
    assert(drawing@.len() == drawing.len());
    let pos = mouse_pos.per(Vec2u::fill(tile_size));
    let index = pos.x as usize + pos.y as usize * IMAGE_WIDTH;
    let tile = drawing[index];
    if inputs.left_click() && tile <= 255 - DRAWING_INCREMENT {
        drawing[index] = tile + DRAWING_INCREMENT;
    } else if inputs.right_click() && tile >= DRAWING_INCREMENT {
        drawing[index] = tile - DRAWING_INCREMENT;
    }
}

} // verus!
