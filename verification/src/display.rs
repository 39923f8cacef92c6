//! The logical 64x32 monochrome display and its XOR sprite drawing.

use vstd::prelude::*;

verus! {

/// Width of the logical grid, in pixels.
pub const SCREEN_WIDTH: usize = 64;

/// Height of the logical grid, in pixels.
pub const SCREEN_HEIGHT: usize = 32;

/// Number of pixel columns that one sprite row covers.
pub const SPRITE_WIDTH: usize = 8;

/// Frame buffer value of a pixel that is off.
pub const PIXEL_OFF_COLOR: u32 = 0x00000000;

/// Frame buffer value of a pixel that is lit.
pub const PIXEL_ON_COLOR: u32 = 0x00FFFFFF;

/// The logical pixel grid, stored row by row.
#[derive(Debug, PartialEq, Eq)]
pub struct Display {
    /// Pixel `(x, y)` is at index `y * 64 + x`; `true` is lit.
    pub pixels: [bool; 2048],
}

impl View for Display {
    type V = Seq<bool>;

    open spec fn view(&self) -> Seq<bool> {
        self.pixels@
    }
}

/// Whether `(x, y)` lies on the grid.
pub open spec fn in_grid(x: int, y: int) -> bool {
    0 <= x < 64 && 0 <= y < 32
}

/// The grid with every pixel off.
pub open spec fn blank() -> Seq<bool> {
    Seq::new(2048, |k: int| false)
}

/// The frame buffer value that shows a pixel.
pub open spec fn color_of(lit: bool) -> u32 {
    if lit {
        PIXEL_ON_COLOR
    } else {
        PIXEL_OFF_COLOR
    }
}

/// The index of the grid pixel that entry `k` of a frame buffer shows,
/// where the buffer is `64 * scale` entries wide and every grid pixel
/// covers a square of `scale` by `scale` entries.
pub open spec fn frame_source(k: int, scale: int) -> int {
    let width = 64 * scale;
    ((k / width) / scale) * 64 + (k % width) / scale
}

/// The frame buffer of `64 * scale` by `32 * scale` entries, row by row,
/// that shows the grid enlarged by `scale`.
pub open spec fn rendered(pixels: Seq<bool>, scale: int) -> Seq<u32> {
    Seq::new((2048 * scale * scale) as nat, |k: int| color_of(pixels[frame_source(k, scale)]))
}

/// Whether column `col` of a sprite row is set. Column 0 is the most
/// significant bit.
pub open spec fn sprite_bit(row: u8, col: usize) -> bool {
    row & (0x80u8 >> col) != 0
}

/// Whether the sprite drawn with its origin at `(x0, y0)` has a set bit
/// over the point `(x, y)`.
pub open spec fn sprite_lit(sprite: Seq<u8>, x0: int, y0: int, x: int, y: int) -> bool {
    &&& 0 <= y - y0 < sprite.len()
    &&& 0 <= x - x0 < 8
    &&& sprite_bit(sprite[y - y0], (x - x0) as usize)
}

/// Whether the sprite has a set bit over the pixel stored at index `k`.
pub open spec fn lit_at(sprite: Seq<u8>, x0: int, y0: int, k: int) -> bool {
    sprite_lit(sprite, x0, y0, k % 64, k / 64)
}

/// The grid after the sprite is XOR-drawn at `(x0, y0)`: every pixel under
/// a set sprite bit is toggled, and sprite bits that fall outside the grid
/// touch nothing.
pub open spec fn drawn(pixels: Seq<bool>, sprite: Seq<u8>, x0: int, y0: int) -> Seq<bool> {
    Seq::new(2048, |k: int| pixels[k] != lit_at(sprite, x0, y0, k))
}

/// Whether drawing the sprite at `(x0, y0)` turns a lit pixel off.
pub open spec fn collides(pixels: Seq<bool>, sprite: Seq<u8>, x0: int, y0: int) -> bool {
    exists|k: int| 0 <= k < 2048 && pixels[k] && #[trigger] lit_at(sprite, x0, y0, k)
}

/// Whether the sprite has a set bit over the pixel at index `k` in one of
/// the rows before `r`, or in row `r` in a column before `c`.
spec fn lit_before(sprite: Seq<u8>, x0: int, y0: int, k: int, r: int, c: int) -> bool {
    &&& lit_at(sprite, x0, y0, k)
    &&& (k / 64 - y0 < r || (k / 64 - y0 == r && k % 64 - x0 < c))
}

/// XOR drawing undoes itself: a sprite drawn twice at the same origin
/// leaves every pixel as it was.
pub proof fn lemma_draw_twice_restores(pixels: Seq<bool>, sprite: Seq<u8>, x0: int, y0: int)
    requires
        pixels.len() == 2048,
    ensures
        drawn(drawn(pixels, sprite, x0, y0), sprite, x0, y0) == pixels,
{
    assert(drawn(drawn(pixels, sprite, x0, y0), sprite, x0, y0) =~= pixels);
}

/// On a blank display a first draw collides with nothing, a second draw of
/// the same sprite at the same origin returns the display to blank, and
/// that second draw collides exactly when the sprite has a set bit
/// somewhere on the grid.
pub proof fn lemma_redraw_on_blank(sprite: Seq<u8>, x0: int, y0: int)
    ensures
        !collides(blank(), sprite, x0, y0),
        drawn(drawn(blank(), sprite, x0, y0), sprite, x0, y0) == blank(),
        collides(drawn(blank(), sprite, x0, y0), sprite, x0, y0) <==> (exists|k: int|
            0 <= k < 2048 && #[trigger] lit_at(sprite, x0, y0, k)),
{
    lemma_draw_twice_restores(blank(), sprite, x0, y0);
    let once = drawn(blank(), sprite, x0, y0);
    if exists|k: int| 0 <= k < 2048 && #[trigger] lit_at(sprite, x0, y0, k) {
        let k = choose|k: int| 0 <= k < 2048 && #[trigger] lit_at(sprite, x0, y0, k);
        assert(once[k] && lit_at(sprite, x0, y0, k));
    }
}

/// Drawing clips and never wraps: a pixel to the left of the origin, eight
/// or more columns to its right, above it, or below the sprite's last row
/// keeps its value.
pub proof fn lemma_draw_is_clipped(
    pixels: Seq<bool>,
    sprite: Seq<u8>,
    x0: int,
    y0: int,
    x: int,
    y: int,
)
    requires
        pixels.len() == 2048,
        in_grid(x, y),
        x < x0 || x >= x0 + 8 || y < y0 || y >= y0 + sprite.len(),
    ensures
        drawn(pixels, sprite, x0, y0)[y * 64 + x] == pixels[y * 64 + x],
{
}

impl Clone for Display {
    fn clone(&self) -> (copy: Self)
        ensures
            copy == *self,
    {
        Display { pixels: self.pixels }
    }
}

impl Display {
    /// A display with every pixel off.
    pub fn new() -> (display: Self)
        ensures
            display@ == blank(),
    {
        Display { pixels: [false; 2048] }
    }

    /// Turns every pixel off.
    pub fn clear(&mut self)
        ensures
            final(self)@ == blank(),
    {
        let mut k: usize = 0;
        while k < 2048
            invariant
                k <= 2048,
                forall|j: int| 0 <= j < k ==> !self.pixels@[j],
            decreases 2048 - k,
        {
            self.pixels[k] = false;
            k += 1;
        }
    }

    /// The pixel at `(x, y)`, or `None` outside the grid.
    pub fn get_pixel(&self, x: usize, y: usize) -> (pixel: Option<bool>)
        ensures
            pixel == (if in_grid(x as int, y as int) {
                Some(self@[y * 64 + x])
            } else {
                None
            }),
    {
        if x < SCREEN_WIDTH && y < SCREEN_HEIGHT {
            Some(self.pixels[y * SCREEN_WIDTH + x])
        } else {
            None
        }
    }

    /// Sets the pixel at `(x, y)`; a point outside the grid is ignored.
    pub fn set_pixel(&mut self, x: usize, y: usize, lit: bool)
        ensures
            final(self)@ == (if in_grid(x as int, y as int) {
                old(self)@.update(y * 64 + x, lit)
            } else {
                old(self)@
            }),
    {
        if x < SCREEN_WIDTH && y < SCREEN_HEIGHT {
            self.pixels[y * SCREEN_WIDTH + x] = lit;
        }
    }

    /// Toggles the pixel at `(x, y)` and reports a collision: `true` when
    /// the pixel was lit and is now off. A point outside the grid is
    /// dropped and never collides.
    pub fn flip_pixel(&mut self, x: usize, y: usize) -> (collision: bool)
        ensures
            in_grid(x as int, y as int) ==> {
                &&& collision == old(self)@[y * 64 + x]
                &&& final(self)@ == old(self)@.update(y * 64 + x, !old(self)@[y * 64 + x])
            },
            !in_grid(x as int, y as int) ==> !collision && final(self)@ == old(self)@,
    {
        match self.get_pixel(x, y) {
            Some(lit) => {
                self.set_pixel(x, y, !lit);
                lit
            },
            None => false,
        }
    }

    /// The frame buffer that shows the display enlarged by `scale`, for a
    /// window of `64 * scale` by `32 * scale` pixels. `None` where the
    /// buffer's length does not fit a `usize`.
    pub fn render(&self, scale: usize) -> (buffer: Option<Vec<u32>>)
        ensures
            buffer.is_some() <==> 2048 * scale * scale <= usize::MAX,
            buffer matches Some(frame) ==> frame@ == rendered(self@, scale as int),
    {
        let width = match SCREEN_WIDTH.checked_mul(scale) {
            Some(width) => width,
            None => {
                assert(2048 * scale * scale >= 64 * scale) by (nonlinear_arith)
                    requires
                        scale >= 1,
                ;
                return None;
            },
        };
        let height = match SCREEN_HEIGHT.checked_mul(scale) {
            Some(height) => height,
            None => {
                assert(2048 * scale * scale >= 32 * scale) by (nonlinear_arith)
                    requires
                        scale >= 1,
                ;
                return None;
            },
        };
        assert(width * height == 2048 * scale * scale) by (nonlinear_arith)
            requires
                width == 64 * scale,
                height == 32 * scale,
        ;
        let len = match width.checked_mul(height) {
            Some(len) => len,
            None => {
                return None;
            },
        };
        let mut frame: Vec<u32> = Vec::with_capacity(len);
        let mut py: usize = 0;
        while py < height
            invariant
                py <= height,
                width == 64 * scale,
                height == 32 * scale,
                width * height <= usize::MAX,
                frame@.len() == py * width,
                forall|k: int|
                    0 <= k < frame@.len() ==> #[trigger] frame@[k] == color_of(
                        self.pixels@[frame_source(k, scale as int)],
                    ),
            decreases height - py,
        {
            let mut px: usize = 0;
            while px < width
                invariant
                    py < height,
                    px <= width,
                    width == 64 * scale,
                    height == 32 * scale,
                    width * height <= usize::MAX,
                    frame@.len() == py * width + px,
                    forall|k: int|
                        0 <= k < frame@.len() ==> #[trigger] frame@[k] == color_of(
                            self.pixels@[frame_source(k, scale as int)],
                        ),
                decreases width - px,
            {
                proof {
                    assert(py / scale < 32 && px / scale < 64 && py / scale >= 0 && px / scale
                        >= 0) by (nonlinear_arith)
                        requires
                            py < 32 * scale,
                            px < 64 * scale,
                            scale > 0,
                    ;
                    vstd::arithmetic::div_mod::lemma_fundamental_div_mod_converse(
                        py * width + px,
                        width as int,
                        py as int,
                        px as int,
                    );
                }
                let lit = self.pixels[(py / scale) * SCREEN_WIDTH + px / scale];
                frame.push(
                    if lit {
                        PIXEL_ON_COLOR
                    } else {
                        PIXEL_OFF_COLOR
                    },
                );
                px += 1;
            }
            proof {
                assert(py * width + width == (py + 1) * width) by (nonlinear_arith);
                assert((py + 1) * width <= height * width) by (nonlinear_arith)
                    requires
                        py + 1 <= height,
                ;
            }
            py += 1;
        }
        assert(frame@.len() == 2048 * scale * scale) by (nonlinear_arith)
            requires
                frame@.len() == height * width,
                width == 64 * scale,
                height == 32 * scale,
        ;
        assert(frame@ =~= rendered(self@, scale as int));
        Some(frame)
    }

    /// XOR-draws `sprite`, one byte per row and most significant bit first,
    /// with its top-left corner at `(x0, y0)`. Returns whether any lit
    /// pixel was turned off. Nothing wraps: what falls outside the grid is
    /// dropped.
    pub fn draw_sprite(&mut self, x0: usize, y0: usize, sprite: &[u8]) -> (collision: bool)
        ensures
            final(self)@ == drawn(old(self)@, sprite@, x0 as int, y0 as int),
            collision == collides(old(self)@, sprite@, x0 as int, y0 as int),
    {
        let ghost before = self@;
        let ghost rows = sprite@;
        let ghost ox = x0 as int;
        let ghost oy = y0 as int;
        let mut collision = false;
        let mut r: usize = 0;
        while r < sprite.len()
            invariant
                r <= sprite.len(),
                rows == sprite@,
                ox == x0,
                oy == y0,
                before.len() == 2048,
                self@.len() == 2048,
                forall|k: int|
                    0 <= k < 2048 ==> self@[k] == (before[k] != #[trigger] lit_before(
                        rows,
                        ox,
                        oy,
                        k,
                        r as int,
                        0,
                    )),
                collision == (exists|k: int|
                    0 <= k < 2048 && before[k] && #[trigger] lit_before(
                        rows,
                        ox,
                        oy,
                        k,
                        r as int,
                        0,
                    )),
            decreases sprite.len() - r,
        {
            let row = sprite[r];
            let mut c: usize = 0;
            while c < SPRITE_WIDTH
                invariant
                    r < sprite.len(),
                    c <= 8,
                    rows == sprite@,
                    row == rows[r as int],
                    ox == x0,
                    oy == y0,
                    before.len() == 2048,
                    self@.len() == 2048,
                    forall|k: int|
                        0 <= k < 2048 ==> self@[k] == (before[k] != #[trigger] lit_before(
                            rows,
                            ox,
                            oy,
                            k,
                            r as int,
                            c as int,
                        )),
                    collision == (exists|k: int|
                        0 <= k < 2048 && before[k] && #[trigger] lit_before(
                            rows,
                            ox,
                            oy,
                            k,
                            r as int,
                            c as int,
                        )),
                decreases 8 - c,
            {
                let ghost shown = self@;
                let ghost hit = collision;
                if row & (0x80u8 >> c) != 0 {
                    match (x0.checked_add(c), y0.checked_add(r)) {
                        (Some(x), Some(y)) => {
                            if self.flip_pixel(x, y) {
                                collision = true;
                            }
                        },
                        _ => {},
                    }
                }
                proof {
                    // Column `c` of row `r` lies over the pixel `k0`, if over any.
                    let x = ox + c;
                    let y = oy + r;
                    let k0 = y * 64 + x;
                    let next = c + 1;
                    let flips = in_grid(x, y) && sprite_bit(row, c);
                    assert forall|k: int| 0 <= k < 2048 implies #[trigger] lit_before(
                        rows,
                        ox,
                        oy,
                        k,
                        r as int,
                        next,
                    ) == (lit_before(rows, ox, oy, k, r as int, c as int) || (k == k0
                        && flips)) by {}
                    assert forall|k: int| 0 <= k < 2048 implies self@[k] == (before[k]
                        != lit_before(rows, ox, oy, k, r as int, next)) by {
                        let was = lit_before(rows, ox, oy, k, r as int, c as int);
                        assert(shown[k] == (before[k] != was));
                    }
                    if flips {
                        assert(lit_before(rows, ox, oy, k0, r as int, next));
                    }
                    if hit {
                        let k = choose|k: int|
                            0 <= k < 2048 && before[k] && #[trigger] lit_before(
                                rows,
                                ox,
                                oy,
                                k,
                                r as int,
                                c as int,
                            );
                        assert(lit_before(rows, ox, oy, k, r as int, next));
                    }
                }
                c += 1;
            }
            proof {
                // A finished row counts as a row before the next one.
                let below = r + 1;
                assert forall|k: int| 0 <= k < 2048 implies #[trigger] lit_before(
                    rows,
                    ox,
                    oy,
                    k,
                    below,
                    0,
                ) == lit_before(rows, ox, oy, k, r as int, 8) by {}
                if collision {
                    let k = choose|k: int|
                        0 <= k < 2048 && before[k] && #[trigger] lit_before(
                            rows,
                            ox,
                            oy,
                            k,
                            r as int,
                            8,
                        );
                    assert(lit_before(rows, ox, oy, k, below, 0));
                }
            }
            r += 1;
        }
        proof {
            // With every row finished, nothing of the sprite is left out.
            assert forall|k: int| 0 <= k < 2048 implies #[trigger] lit_at(rows, ox, oy, k)
                == lit_before(rows, ox, oy, k, r as int, 0) by {}
            if collision {
                let k = choose|k: int|
                    0 <= k < 2048 && before[k] && #[trigger] lit_before(
                        rows,
                        ox,
                        oy,
                        k,
                        r as int,
                        0,
                    );
                assert(lit_at(rows, ox, oy, k));
            }
        }
        collision
    }
}

} // verus!
