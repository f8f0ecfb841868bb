//! What drawing a sprite does to the framebuffer, stated pixel by pixel.
//!
//! A sprite is a run of bytes, one byte per row, most significant bit
//! leftmost. Drawing it at `(vx, vy)` flips every screen pixel under a set
//! bit. Positions wrap: the column modulo the screen width, the row modulo the
//! screen height.
use crate::graphics::SCREEN_HEIGHT;
use crate::graphics::SCREEN_PIXELS;
use crate::graphics::SCREEN_WIDTH;
use vstd::prelude::*;

verus! {

/// Whether bit `col` of a sprite row is set, column 0 being the leftmost.
pub open spec fn sprite_bit(row: u8, col: u8) -> bool {
    row & (0x80u8 >> col) != 0
}

/// The framebuffer position of the sprite's pixel at (`row`, `col`).
pub open spec fn pixel_index(vx: u8, vy: u8, row: int, col: int) -> int {
    (vx + col) % (SCREEN_WIDTH as int) + SCREEN_WIDTH * ((vy + row) % (SCREEN_HEIGHT as int))
}

/// The sprite row that lands on the screen row of position `p`.
pub open spec fn sprite_row_at(vy: u8, p: int) -> int {
    (p / (SCREEN_WIDTH as int) - vy) % (SCREEN_HEIGHT as int)
}

/// The sprite column that lands on the screen column of position `p`.
pub open spec fn sprite_col_at(vx: u8, p: int) -> int {
    (p % (SCREEN_WIDTH as int) - vx) % (SCREEN_WIDTH as int)
}

/// Whether the sprite drawn at `(vx, vy)` has a set bit on position `p`.
pub open spec fn sprite_hits(sprite: Seq<u8>, vx: u8, vy: u8, p: int) -> bool {
    let row = sprite_row_at(vy, p);
    let col = sprite_col_at(vx, p);
    row < sprite.len() && col < 8 && sprite_bit(sprite[row], col as u8)
}

/// The framebuffer after the sprite was drawn: pixels under a set bit are
/// flipped, all others keep their value.
pub open spec fn draw_pixels(pixels: Seq<u8>, sprite: Seq<u8>, vx: u8, vy: u8) -> Seq<u8> {
    Seq::new(
        pixels.len(),
        |p: int|
            if sprite_hits(sprite, vx, vy, p) {
                pixels[p] ^ 1
            } else {
                pixels[p]
            },
    )
}

/// Whether drawing the sprite turns off a pixel that was on.
pub open spec fn draw_collides(pixels: Seq<u8>, sprite: Seq<u8>, vx: u8, vy: u8) -> bool {
    exists|p: int| 0 <= p < pixels.len() && #[trigger] sprite_hits(sprite, vx, vy, p) && pixels[p] == 1
}

/// Whether position `p` is hit by the part of the sprite that comes before
/// (`rows`, `cols`) in reading order.
pub open spec fn sprite_hits_before(
    sprite: Seq<u8>,
    vx: u8,
    vy: u8,
    rows: int,
    cols: int,
    p: int,
) -> bool {
    let row = sprite_row_at(vy, p);
    let col = sprite_col_at(vx, p);
    sprite_hits(sprite, vx, vy, p) && (row < rows || (row == rows && col < cols))
}

/// The framebuffer after the part of the sprite before (`rows`, `cols`) was drawn.
pub open spec fn draw_pixels_before(
    pixels: Seq<u8>,
    sprite: Seq<u8>,
    vx: u8,
    vy: u8,
    rows: int,
    cols: int,
) -> Seq<u8> {
    Seq::new(
        pixels.len(),
        |p: int|
            if sprite_hits_before(sprite, vx, vy, rows, cols, p) {
                pixels[p] ^ 1
            } else {
                pixels[p]
            },
    )
}

/// Whether the part of the sprite before (`rows`, `cols`) turns off a pixel that was on.
pub open spec fn draw_collides_before(
    pixels: Seq<u8>,
    sprite: Seq<u8>,
    vx: u8,
    vy: u8,
    rows: int,
    cols: int,
) -> bool {
    exists|p: int|
        0 <= p < pixels.len() && #[trigger] sprite_hits_before(sprite, vx, vy, rows, cols, p)
            && pixels[p] == 1
}

/// A sprite pixel lands on the screen, and the screen position tells which
/// sprite pixel landed there.
pub proof fn lemma_pixel_index(vx: u8, vy: u8, row: int, col: int)
    requires
        0 <= row < SCREEN_HEIGHT,
        0 <= col < SCREEN_WIDTH,
    ensures
        0 <= pixel_index(vx, vy, row, col) < SCREEN_PIXELS,
        sprite_row_at(vy, pixel_index(vx, vy, row, col)) == row,
        sprite_col_at(vx, pixel_index(vx, vy, row, col)) == col,
{
}

/// Every screen position is the landing place of exactly one pair of sprite
/// coordinates.
pub proof fn lemma_position_of(vx: u8, vy: u8, p: int)
    requires
        0 <= p < SCREEN_PIXELS,
    ensures
        0 <= sprite_row_at(vy, p) < SCREEN_HEIGHT,
        0 <= sprite_col_at(vx, p) < SCREEN_WIDTH,
        pixel_index(vx, vy, sprite_row_at(vy, p), sprite_col_at(vx, p)) == p,
{
}

/// Before anything is drawn the framebuffer is untouched and nothing collided.
pub proof fn lemma_draw_start(pixels: Seq<u8>, sprite: Seq<u8>, vx: u8, vy: u8)
    requires
        pixels.len() == SCREEN_PIXELS,
    ensures
        draw_pixels_before(pixels, sprite, vx, vy, 0, 0) == pixels,
        !draw_collides_before(pixels, sprite, vx, vy, 0, 0),
{
    assert forall|p: int| 0 <= p < SCREEN_PIXELS implies !sprite_hits_before(sprite, vx, vy, 0, 0, p) by {
        lemma_position_of(vx, vy, p);
    }
    assert(draw_pixels_before(pixels, sprite, vx, vy, 0, 0) =~= pixels);
}

/// Drawing one more sprite pixel flips the framebuffer pixel it lands on, if
/// its bit is set, and changes nothing else. That framebuffer pixel was not
/// touched by the part of the sprite drawn before.
pub proof fn lemma_draw_extend(
    pixels: Seq<u8>,
    sprite: Seq<u8>,
    vx: u8,
    vy: u8,
    row: int,
    col: int,
)
    requires
        pixels.len() == SCREEN_PIXELS,
        0 <= row < sprite.len() <= SCREEN_HEIGHT,
        0 <= col < 8,
    ensures
        ({
            let p = pixel_index(vx, vy, row, col);
            let before = draw_pixels_before(pixels, sprite, vx, vy, row, col);
            let after = draw_pixels_before(pixels, sprite, vx, vy, row, col + 1);
            let hit = sprite_bit(sprite[row], col as u8);
            &&& 0 <= p < SCREEN_PIXELS
            &&& before[p] == pixels[p]
            &&& hit ==> after == before.update(p, pixels[p] ^ 1)
            &&& !hit ==> after == before
            &&& draw_collides_before(pixels, sprite, vx, vy, row, col + 1) == (
            draw_collides_before(pixels, sprite, vx, vy, row, col) || (hit && pixels[p] == 1))
        }),
{
    let p = pixel_index(vx, vy, row, col);
    let before = draw_pixels_before(pixels, sprite, vx, vy, row, col);
    let after = draw_pixels_before(pixels, sprite, vx, vy, row, col + 1);
    let hit = sprite_bit(sprite[row], col as u8);
    lemma_pixel_index(vx, vy, row, col);
    assert(!sprite_hits_before(sprite, vx, vy, row, col, p));
    assert forall|q: int| 0 <= q < SCREEN_PIXELS implies (sprite_hits_before(sprite, vx, vy, row, col + 1, q)
        == (sprite_hits_before(sprite, vx, vy, row, col, q) || (hit && q == p))) by {
        lemma_position_of(vx, vy, q);
    }
    if hit {
        assert(after =~= before.update(p, pixels[p] ^ 1));
        assert(sprite_hits_before(sprite, vx, vy, row, col + 1, p));
    } else {
        assert(after =~= before);
    }
    if draw_collides_before(pixels, sprite, vx, vy, row, col) {
        let q = choose|q: int|
            0 <= q < pixels.len() && #[trigger] sprite_hits_before(sprite, vx, vy, row, col, q)
                && pixels[q] == 1;
        assert(sprite_hits_before(sprite, vx, vy, row, col + 1, q));
    }
    if draw_collides_before(pixels, sprite, vx, vy, row, col + 1) {
        let q = choose|q: int|
            0 <= q < pixels.len() && #[trigger] sprite_hits_before(
                sprite,
                vx,
                vy,
                row,
                col + 1,
                q,
            ) && pixels[q] == 1;
        assert(sprite_hits_before(sprite, vx, vy, row, col, q) || (hit && q == p));
    }
}

/// A sprite row has eight columns: once they are drawn, the next row begins.
pub proof fn lemma_draw_next_row(pixels: Seq<u8>, sprite: Seq<u8>, vx: u8, vy: u8, row: int)
    requires
        pixels.len() == SCREEN_PIXELS,
        0 <= row,
    ensures
        draw_pixels_before(pixels, sprite, vx, vy, row, 8) == draw_pixels_before(
            pixels,
            sprite,
            vx,
            vy,
            row + 1,
            0,
        ),
        draw_collides_before(pixels, sprite, vx, vy, row, 8) == draw_collides_before(
            pixels,
            sprite,
            vx,
            vy,
            row + 1,
            0,
        ),
{
    assert forall|q: int| 0 <= q < SCREEN_PIXELS implies (sprite_hits_before(sprite, vx, vy, row, 8, q)
        == sprite_hits_before(sprite, vx, vy, row + 1, 0, q)) by {
        lemma_position_of(vx, vy, q);
    }
    assert(draw_pixels_before(pixels, sprite, vx, vy, row, 8) =~= draw_pixels_before(
        pixels,
        sprite,
        vx,
        vy,
        row + 1,
        0,
    ));
    if draw_collides_before(pixels, sprite, vx, vy, row, 8) {
        let q = choose|q: int|
            0 <= q < pixels.len() && #[trigger] sprite_hits_before(sprite, vx, vy, row, 8, q)
                && pixels[q] == 1;
        assert(sprite_hits_before(sprite, vx, vy, row + 1, 0, q));
    }
    if draw_collides_before(pixels, sprite, vx, vy, row + 1, 0) {
        let q = choose|q: int|
            0 <= q < pixels.len() && #[trigger] sprite_hits_before(sprite, vx, vy, row + 1, 0, q)
                && pixels[q] == 1;
        assert(sprite_hits_before(sprite, vx, vy, row, 8, q));
    }
}

/// Once every row is drawn the whole sprite is.
pub proof fn lemma_draw_done(pixels: Seq<u8>, sprite: Seq<u8>, vx: u8, vy: u8)
    requires
        pixels.len() == SCREEN_PIXELS,
    ensures
        draw_pixels_before(pixels, sprite, vx, vy, sprite.len() as int, 0) == draw_pixels(
            pixels,
            sprite,
            vx,
            vy,
        ),
        draw_collides_before(pixels, sprite, vx, vy, sprite.len() as int, 0) == draw_collides(
            pixels,
            sprite,
            vx,
            vy,
        ),
{
    let rows = sprite.len() as int;
    assert forall|q: int| 0 <= q < SCREEN_PIXELS implies (sprite_hits_before(sprite, vx, vy, rows, 0, q)
        == sprite_hits(sprite, vx, vy, q)) by {
        lemma_position_of(vx, vy, q);
    }
    assert(draw_pixels_before(pixels, sprite, vx, vy, rows, 0) =~= draw_pixels(
        pixels,
        sprite,
        vx,
        vy,
    ));
    if draw_collides_before(pixels, sprite, vx, vy, rows, 0) {
        let q = choose|q: int|
            0 <= q < pixels.len() && #[trigger] sprite_hits_before(sprite, vx, vy, rows, 0, q)
                && pixels[q] == 1;
        assert(sprite_hits(sprite, vx, vy, q));
    }
    if draw_collides(pixels, sprite, vx, vy) {
        let q = choose|q: int|
            0 <= q < pixels.len() && #[trigger] sprite_hits(sprite, vx, vy, q) && pixels[q] == 1;
        assert(sprite_hits_before(sprite, vx, vy, rows, 0, q));
    }
}


} // verus!
