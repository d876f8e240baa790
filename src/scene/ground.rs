//! The ground strip: grass, flowers and soil from a fixed texture of the
//! coordinates, with a path that widens toward the viewer.
use crate::render::{apply_puts, cell_of, lemma_apply_puts_concat, lemma_apply_puts_push, put_at};
use crate::render::{Cell, Color, GridRenderer, Put};
use vstd::prelude::*;

verus! {

#[derive(Clone, Copy, Debug, Default)]
pub struct Ground;

/// Texture value in `0..100` of a ground coordinate: the same coordinate
/// always gives the same value.
pub open spec fn pseudo_rand(x: u32, y: u32) -> u32 {
    let a = (x ^ 0x5DEECE6u32) as nat;
    let b = (y ^ 0xBu32) as nat;
    (((a * b) % 0x1_0000_0000) % 100) as u32
}

/// Whether `x` lies on the path on ground row `y`: the path is `4 + y`
/// columns wide, one more on each row toward the viewer, and starts half
/// its width left of `path_center`.
pub open spec fn on_path(x: int, y: int, path_center: int) -> bool {
    let width = 4 + y;
    let start = path_center - width / 2;
    start <= x < start + width
}

pub open spec fn path_color() -> Color {
    Color::Rgb { r: 180, g: 160, b: 120 }
}

pub open spec fn soil_color() -> Color {
    Color::Rgb { r: 101, g: 67, b: 33 }
}

pub open spec fn flower_color(k: int) -> Color {
    if k == 0 {
        Color::Magenta
    } else if k == 1 {
        Color::Red
    } else if k == 2 {
        Color::Cyan
    } else {
        Color::Yellow
    }
}

/// The glyph of ground cell (`x`, `y`), `y` counted from the top ground row.
pub open spec fn ground_char(x: u32, y: u32, path_center: u32) -> char {
    let r = pseudo_rand(x, y);
    if on_path(x as int, y as int, path_center as int) {
        '='
    } else if y == 0 {
        if r < 5 {
            '*'
        } else if r < 15 {
            ','
        } else {
            '^'
        }
    } else if r < 20 {
        '~'
    } else if r < 25 {
        '.'
    } else {
        ' '
    }
}

/// The colour of ground cell (`x`, `y`).
pub open spec fn ground_color(x: u32, y: u32, path_center: u32) -> Color {
    let r = pseudo_rand(x, y);
    if on_path(x as int, y as int, path_center as int) {
        path_color()
    } else if y == 0 {
        if r < 5 {
            flower_color((x as int + y as int) % 4)
        } else if r < 15 {
            Color::DarkGreen
        } else {
            Color::Green
        }
    } else {
        soil_color()
    }
}

/// The ground cell at (`x`, `y`).
pub open spec fn ground_cell(x: u32, y: u32, path_center: u32) -> Cell {
    cell_of(ground_char(x, y, path_center), ground_color(x, y, path_center))
}

/// The writes of the first `n` cells of ground row `y`, drawn at screen row
/// `y_start + y`.
pub open spec fn ground_row_puts(n: int, y: int, y_start: int, path_center: int) -> Seq<Put>
    decreases n,
{
    if n <= 0 {
        Seq::empty()
    } else {
        ground_row_puts(n - 1, y, y_start, path_center).push(
            put_at(
                n - 1,
                y_start + y,
                ground_char((n - 1) as u32, y as u32, path_center as u32),
                ground_color((n - 1) as u32, y as u32, path_center as u32),
            ),
        )
    }
}

/// The writes of the first `rows` ground rows, each `width` cells wide.
pub open spec fn ground_puts(width: int, rows: int, y_start: int, path_center: int) -> Seq<Put>
    decreases rows,
{
    if rows <= 0 {
        Seq::empty()
    } else {
        ground_puts(width, rows - 1, y_start, path_center) + ground_row_puts(
            width,
            rows - 1,
            y_start,
            path_center,
        )
    }
}

/// The texture gives every coordinate one cell, whichever call asks.
pub proof fn lemma_ground_deterministic(x1: u32, y1: u32, c1: u32, x2: u32, y2: u32, c2: u32)
    requires
        x1 == x2,
        y1 == y2,
        c1 == c2,
    ensures
        ground_cell(x1, y1, c1) == ground_cell(x2, y2, c2),
{
}

impl Ground {
    /// The cell of the ground texture at (`x`, `y`) for a path centred on
    /// `path_center`.
    pub fn cell_at(x: u32, y: u32, path_center: u32) -> (c: Cell)
        ensures
            c == ground_cell(x, y, path_center),
    {
        let r: u32 = (x ^ 0x5DEECE6u32).wrapping_mul(y ^ 0xBu32) % 100;
        let path_width: u64 = 4 + y as u64;
        let half: u64 = path_width / 2;
        let is_path = path_center as u64 <= x as u64 + half && x as u64 + half
            < path_center as u64 + path_width;
        if is_path {
            Cell { ch: '=', color: Color::Rgb { r: 180, g: 160, b: 120 } }
        } else if y == 0 {
            if r < 5 {
                let k = (x as u64 + y as u64) % 4;
                let color = if k == 0 {
                    Color::Magenta
                } else if k == 1 {
                    Color::Red
                } else if k == 2 {
                    Color::Cyan
                } else {
                    Color::Yellow
                };
                Cell { ch: '*', color }
            } else if r < 15 {
                Cell { ch: ',', color: Color::DarkGreen }
            } else {
                Cell { ch: '^', color: Color::Green }
            }
        } else {
            let ch = if r < 20 {
                '~'
            } else if r < 25 {
                '.'
            } else {
                ' '
            };
            Cell { ch, color: Color::Rgb { r: 101, g: 67, b: 33 } }
        }
    }

    /// Fills `height` rows from screen row `y_start`, `width` cells each,
    /// with the ground texture.
    pub fn render(
        &self,
        renderer: &mut GridRenderer,
        width: u16,
        height: u16,
        y_start: u16,
        path_center: u16,
    )
        requires
            old(renderer).wf(),
        ensures
            final(renderer).wf(),
            final(renderer).cols() == old(renderer).cols(),
            final(renderer).rows() == old(renderer).rows(),
            final(renderer).shown() == old(renderer).shown(),
            final(renderer).full_pending() == old(renderer).full_pending(),
            final(renderer).cells() == old(renderer).drawn(
                ground_puts(width as int, height as int, y_start as int, path_center as int),
            ),
    {
        let ghost g0 = renderer.cells();
        let ghost w = renderer.cols();
        let ghost h = renderer.rows();
        let mut y: u32 = 0;
        while y < height as u32
            invariant
                y <= height,
                renderer.wf(),
                renderer.cols() == w,
                renderer.rows() == h,
                renderer.shown() == old(renderer).shown(),
                renderer.full_pending() == old(renderer).full_pending(),
                g0 == old(renderer).cells(),
                renderer.cells() == apply_puts(
                    g0,
                    w,
                    h,
                    ground_puts(width as int, y as int, y_start as int, path_center as int),
                ),
            decreases height - y,
        {
            let ghost before = ground_puts(
                width as int,
                y as int,
                y_start as int,
                path_center as int,
            );
            let ghost g1 = renderer.cells();
            let mut x: u32 = 0;
            while x < width as u32
                invariant
                    x <= width,
                    y < height,
                    renderer.wf(),
                    renderer.cols() == w,
                    renderer.rows() == h,
                    renderer.shown() == old(renderer).shown(),
                    renderer.full_pending() == old(renderer).full_pending(),
                    g1 == apply_puts(g0, w, h, before),
                    renderer.cells() == apply_puts(
                        g1,
                        w,
                        h,
                        ground_row_puts(x as int, y as int, y_start as int, path_center as int),
                    ),
                decreases width - x,
            {
                let c = Ground::cell_at(x, y, path_center as u32);
                renderer.render_char(x, y_start as u32 + y, c.ch, c.color);
                proof {
                    lemma_apply_puts_push(
                        g1,
                        w,
                        h,
                        ground_row_puts(x as int, y as int, y_start as int, path_center as int),
                        put_at(
                            x as int,
                            y_start + y,
                            ground_char(x, y, path_center as u32),
                            ground_color(x, y, path_center as u32),
                        ),
                    );
                }
                x = x + 1;
            }
            proof {
                lemma_apply_puts_concat(
                    g0,
                    w,
                    h,
                    before,
                    ground_row_puts(width as int, y as int, y_start as int, path_center as int),
                );
            }
            y = y + 1;
        }
    }
}

} // verus!
