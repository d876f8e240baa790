//! The house illustration.
use crate::render::{apply_puts, lemma_apply_puts_push, put_at, Color, GridRenderer, Put};
use vstd::prelude::*;

verus! {

/// Rows of the house art.
pub const HOUSE_HEIGHT: u16 = 13;

/// Columns of the house art's bounding box.
pub const HOUSE_WIDTH: u16 = 64;

/// Column of the door within the art; the garden path starts there.
pub const DOOR_OFFSET: u16 = 18;

/// Column of the chimney within the art.
pub const CHIMNEY_X_OFFSET: u16 = 10;

#[derive(Clone, Copy, Debug, Default)]
pub struct House;

/// Row `i` of the house art.
pub open spec fn house_line(i: int) -> Seq<char> {
    if i == 0 {
        "          (                  "@
    } else if i == 1 {
        "                             "@
    } else if i == 2 {
        "            )                "@
    } else if i == 3 {
        "          ( _   _._          "@
    } else if i == 4 {
        "           |_|-'_~_`-._      "@
    } else if i == 5 {
        "        _.-'-_~_-~_-~-_`-._  "@
    } else if i == 6 {
        "    _.-'_~-_~-_-~-_~_~-_~-_`-._"@
    } else if i == 7 {
        "   ~~~~~~~~~~~~~~~~~~~~~~~~~~~~~"@
    } else if i == 8 {
        "     |  []  []   []   []  [] |"@
    } else if i == 9 {
        "     |           __    ___   |"@
    } else if i == 10 {
        "   ._|  []  []  | .|  [___]  |_._._._._._._._._._._._._._._._._."@
    } else if i == 11 {
        "   |=|________()|__|()_______|=|=|=|=|=|=|=|=|=|=|=|=|=|=|=|=|=|"@
    } else {
        " ^^^^^^^^^^^^^^^ === ^^^^^^^^^^^^^^^^^^^^^^^^^^^^^^^^^^^^^^^^^^^^^"@
    }
}

/// Colour of character `ch` on row `row` of the house: smoke and chimney
/// grey, roof dark red, windows cyan, door brown, trim and fence posts dark
/// grey, walls wood, the grass strip green.
pub open spec fn house_color(row: int, ch: char) -> Color {
    if row <= 6 {
        if row < 4 && (ch == '(' || ch == ')' || ch == '_') {
            Color::DarkGrey
        } else if row < 4 {
            Color::Grey
        } else {
            Color::DarkRed
        }
    } else if row == 7 {
        Color::DarkRed
    } else if row <= 10 {
        if ch == '[' || ch == ']' {
            Color::Cyan
        } else if ch == '(' || ch == ')' {
            Color::Rgb { r: 139, g: 69, b: 19 }
        } else if ch == '=' {
            Color::DarkGrey
        } else {
            Color::Rgb { r: 210, g: 180, b: 140 }
        }
    } else if row == 11 {
        if ch == '=' || ch == '|' {
            Color::DarkGrey
        } else if ch == '(' || ch == ')' {
            Color::Rgb { r: 139, g: 69, b: 19 }
        } else {
            Color::Rgb { r: 210, g: 180, b: 140 }
        }
    } else if row == 12 {
        if ch == '^' {
            Color::Green
        } else if ch == '=' {
            Color::DarkGrey
        } else {
            Color::Reset
        }
    } else {
        Color::Yellow
    }
}

/// The writes of the first `text.len()` characters of art row `row`, drawn
/// with its top-left at (`x`, `y`).
pub open spec fn art_row_puts(x: int, y: int, text: Seq<char>, row: int) -> Seq<Put>
    decreases text.len(),
{
    if text.len() == 0 {
        Seq::empty()
    } else {
        art_row_puts(x, y, text.drop_last(), row).push(
            put_at(x + text.len() - 1, y + row, text.last(), house_color(row, text.last())),
        )
    }
}

/// The writes of the first `n` rows of the house at (`x`, `y`).
pub open spec fn house_puts(x: int, y: int, n: int) -> Seq<Put>
    decreases n,
{
    if n <= 0 {
        Seq::empty()
    } else {
        house_puts(x, y, n - 1) + art_row_puts(x, y, house_line(n - 1), n - 1)
    }
}

fn house_color_of(row: usize, ch: char) -> (c: Color)
    ensures
        c == house_color(row as int, ch),
{
    if row <= 6 {
        if row < 4 && (ch == '(' || ch == ')' || ch == '_') {
            Color::DarkGrey
        } else if row < 4 {
            Color::Grey
        } else {
            Color::DarkRed
        }
    } else if row == 7 {
        Color::DarkRed
    } else if row <= 10 {
        if ch == '[' || ch == ']' {
            Color::Cyan
        } else if ch == '(' || ch == ')' {
            Color::Rgb { r: 139, g: 69, b: 19 }
        } else if ch == '=' {
            Color::DarkGrey
        } else {
            Color::Rgb { r: 210, g: 180, b: 140 }
        }
    } else if row == 11 {
        if ch == '=' || ch == '|' {
            Color::DarkGrey
        } else if ch == '(' || ch == ')' {
            Color::Rgb { r: 139, g: 69, b: 19 }
        } else {
            Color::Rgb { r: 210, g: 180, b: 140 }
        }
    } else if row == 12 {
        if ch == '^' {
            Color::Green
        } else if ch == '=' {
            Color::DarkGrey
        } else {
            Color::Reset
        }
    } else {
        Color::Yellow
    }
}

impl House {
    pub fn height(&self) -> (r: u16)
        ensures
            r == HOUSE_HEIGHT,
    {
        HOUSE_HEIGHT
    }

    pub fn width(&self) -> (r: u16)
        ensures
            r == HOUSE_WIDTH,
    {
        HOUSE_WIDTH
    }

    pub fn door_offset(&self) -> (r: u16)
        ensures
            r == DOOR_OFFSET,
    {
        DOOR_OFFSET
    }

    /// The art, top row first.
    pub fn get_ascii(&self) -> (r: Vec<&'static str>)
        ensures
            r@.len() == HOUSE_HEIGHT,
            forall|i: int| 0 <= i < r@.len() ==> #[trigger] r@[i]@ == house_line(i),
    {
        let mut r: Vec<&'static str> = Vec::new();
        r.push("          (                  ");
        r.push("                             ");
        r.push("            )                ");
        r.push("          ( _   _._          ");
        r.push("           |_|-'_~_`-._      ");
        r.push("        _.-'-_~_-~_-~-_`-._  ");
        r.push("    _.-'_~-_~-_-~-_~_~-_~-_`-._");
        r.push("   ~~~~~~~~~~~~~~~~~~~~~~~~~~~~~");
        r.push("     |  []  []   []   []  [] |");
        r.push("     |           __    ___   |");
        r.push("   ._|  []  []  | .|  [___]  |_._._._._._._._._._._._._._._._._.");
        r.push("   |=|________()|__|()_______|=|=|=|=|=|=|=|=|=|=|=|=|=|=|=|=|=|");
        r.push(" ^^^^^^^^^^^^^^^ === ^^^^^^^^^^^^^^^^^^^^^^^^^^^^^^^^^^^^^^^^^^^^^");
        r
    }

    /// Draws the house with its top-left corner at (`x`, `y`); what falls
    /// outside the grid is clipped.
    pub fn render(&self, renderer: &mut GridRenderer, x: u16, y: u16)
        requires
            old(renderer).wf(),
        ensures
            final(renderer).wf(),
            final(renderer).cols() == old(renderer).cols(),
            final(renderer).rows() == old(renderer).rows(),
            final(renderer).shown() == old(renderer).shown(),
            final(renderer).full_pending() == old(renderer).full_pending(),
            final(renderer).cells() == old(renderer).drawn(
                house_puts(x as int, y as int, HOUSE_HEIGHT as int),
            ),
    {
        let ascii = self.get_ascii();
        let ghost g0 = renderer.cells();
        let ghost w = renderer.cols();
        let ghost h = renderer.rows();
        let mut i: usize = 0;
        while i < ascii.len()
            invariant
                ascii@.len() == HOUSE_HEIGHT,
                forall|k: int| 0 <= k < ascii@.len() ==> #[trigger] ascii@[k]@ == house_line(k),
                i <= ascii.len(),
                renderer.wf(),
                renderer.cols() == w,
                renderer.rows() == h,
                renderer.shown() == old(renderer).shown(),
                renderer.full_pending() == old(renderer).full_pending(),
                g0 == old(renderer).cells(),
                renderer.cells() == apply_puts(g0, w, h, house_puts(x as int, y as int, i as int)),
            decreases ascii.len() - i,
        {
            let line = ascii[i];
            render_art_row(renderer, x as u32, y as u32, line, i);
            proof {
                crate::render::lemma_apply_puts_concat(
                    g0,
                    w,
                    h,
                    house_puts(x as int, y as int, i as int),
                    art_row_puts(x as int, y as int, house_line(i as int), i as int),
                );
            }
            i = i + 1;
        }
    }
}

/// Draws one row of the house art, each character in its own colour.
fn render_art_row(renderer: &mut GridRenderer, x: u32, y: u32, text: &str, row: usize)
    requires
        old(renderer).wf(),
        row < HOUSE_HEIGHT,
    ensures
        final(renderer).wf(),
        final(renderer).cols() == old(renderer).cols(),
        final(renderer).rows() == old(renderer).rows(),
        final(renderer).shown() == old(renderer).shown(),
        final(renderer).full_pending() == old(renderer).full_pending(),
        final(renderer).cells() == old(renderer).drawn(
            art_row_puts(x as int, y as int, text@, row as int),
        ),
{
    let ghost g0 = renderer.cells();
    let ghost w = renderer.cols();
    let ghost h = renderer.rows();
    let mut j: u32 = 0;
    proof {
        renderer.lemma_size_bounds();
    }
    for ch in it: text.chars()
        invariant
            renderer.wf(),
            renderer.cols() == w,
            renderer.rows() == h,
            renderer.shown() == old(renderer).shown(),
            renderer.full_pending() == old(renderer).full_pending(),
            g0 == old(renderer).cells(),
            row < HOUSE_HEIGHT,
            w <= u16::MAX,
            h <= u16::MAX,
            it.seq() == text@,
            j == if it.index() < u32::MAX {
                it.index() as int
            } else {
                u32::MAX as int
            },
            renderer.cells() == apply_puts(
                g0,
                w,
                h,
                art_row_puts(x as int, y as int, text@.take(it.index() as int), row as int),
            ),
    {
        let ghost k = it.index() as int;
        let ghost p = put_at(x + k, y + row, ch, house_color(row as int, ch));
        assert(k < text@.len() && text@[k] == ch);
        let color = house_color_of(row, ch);
        if j < u32::MAX && x as u64 + j as u64 <= u32::MAX as u64 && y as u64 + row as u64
            <= u32::MAX as u64 {
            renderer.render_char(x + j, y + row as u32, ch, color);
        } else {
            assert(!(p.x < w && p.y < h));
        }
        proof {
            assert(text@.take(k + 1).drop_last() =~= text@.take(k));
            assert(text@.take(k + 1).last() == ch);
            lemma_apply_puts_push(
                g0,
                w,
                h,
                art_row_puts(x as int, y as int, text@.take(k), row as int),
                p,
            );
        }
        if j < u32::MAX {
            j = j + 1;
        }
    }
    proof {
        assert(text@.take(text@.len() as int) =~= text@);
    }
}

} // verus!
