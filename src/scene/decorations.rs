//! Props around the house: a tree, a fence, a mailbox and a bush, each in a
//! day or a night palette.
use crate::render::{apply_puts, block_puts, lemma_apply_puts_concat, texts, Color, GridRenderer, Put};
use vstd::prelude::*;

verus! {

#[derive(Clone, Copy, Debug, Default)]
pub struct Decorations;

/// Where the props go: the horizon row, the house's column and width, the
/// path's centre and the screen width.
#[derive(Clone, Copy, Debug)]
pub struct DecorationRenderConfig {
    pub horizon_y: u16,
    pub house_x: u16,
    pub house_width: u16,
    pub path_center: u16,
    pub width: u16,
    pub is_day: bool,
}

pub open spec fn tree_lines() -> Seq<Seq<char>> {
    seq![
        "      ####      "@,
        "    ########    "@,
        "   ##########   "@,
        "    ########    "@,
        "      _||_      "@,
    ]
}

pub open spec fn bush_lines() -> Seq<Seq<char>> {
    seq!["  ,.,  "@, " (,,,,)"@, "  \"||\" "@]
}

pub open spec fn fence_lines() -> Seq<Seq<char>> {
    seq!["|--|--|--|--|"@, "|  |  |  |  |"@]
}

pub open spec fn mailbox_lines() -> Seq<Seq<char>> {
    seq![" ___ "@, "|___|"@, "  |  "@]
}

pub open spec fn tree_palette(is_day: bool) -> Color {
    if is_day {
        Color::DarkGreen
    } else {
        Color::Rgb { r: 0, g: 50, b: 0 }
    }
}

pub open spec fn bush_palette(is_day: bool) -> Color {
    if is_day {
        Color::Green
    } else {
        Color::DarkGreen
    }
}

pub open spec fn fence_palette(is_day: bool) -> Color {
    if is_day {
        Color::White
    } else {
        Color::Grey
    }
}

pub open spec fn mailbox_palette(is_day: bool) -> Color {
    if is_day {
        Color::Blue
    } else {
        Color::DarkBlue
    }
}

/// `a - b`, or 0 where `b` is larger.
pub open spec fn sat_sub(a: int, b: int) -> int {
    if a >= b {
        a - b
    } else {
        0
    }
}

pub open spec fn tree_column(c: DecorationRenderConfig) -> int {
    sat_sub(c.house_x as int, 20)
}

/// The writes of all props: the tree 20 columns left of the house (unless
/// that reaches the screen's left edge), the fence 2 columns right of the
/// house (if that is on screen), the mailbox 10 columns left of the tree
/// and the bush 10 columns left of the path (unless at the left edge); the
/// tree, fence and mailbox stand on the horizon, the bush straddles it.
pub open spec fn decoration_puts(c: DecorationRenderConfig) -> Seq<Put> {
    let tree = if tree_column(c) > 0 {
        block_puts(
            tree_column(c),
            sat_sub(c.horizon_y as int, 5),
            tree_lines(),
            5,
            tree_palette(c.is_day),
        )
    } else {
        Seq::empty()
    };
    let fence_x = c.house_x + c.house_width + 2;
    let fence = if fence_x < c.width {
        block_puts(fence_x, sat_sub(c.horizon_y as int, 2), fence_lines(), 2, fence_palette(c.is_day))
    } else {
        Seq::empty()
    };
    let mailbox_x = sat_sub(tree_column(c), 10);
    let mailbox = if mailbox_x < c.width {
        block_puts(
            mailbox_x,
            sat_sub(c.horizon_y as int, 3),
            mailbox_lines(),
            3,
            mailbox_palette(c.is_day),
        )
    } else {
        Seq::empty()
    };
    let bush_x = sat_sub(c.path_center as int, 10);
    let bush = if bush_x > 0 {
        block_puts(bush_x, sat_sub(c.horizon_y as int, 1), bush_lines(), 3, bush_palette(c.is_day))
    } else {
        Seq::empty()
    };
    tree + fence + mailbox + bush
}

impl Decorations {
    pub fn new() -> (r: Self) {
        Decorations
    }

    fn get_tree(&self, is_day: bool) -> (r: (Vec<&'static str>, Color))
        ensures
            r.0@.len() == 5,
            texts(r.0@) == tree_lines(),
            r.1 == tree_palette(is_day),
    {
        let mut v: Vec<&'static str> = Vec::new();
        v.push("      ####      ");
        v.push("    ########    ");
        v.push("   ##########   ");
        v.push("    ########    ");
        v.push("      _||_      ");
        assert(texts(v@) =~= tree_lines());
        let color = if is_day {
            Color::DarkGreen
        } else {
            Color::Rgb { r: 0, g: 50, b: 0 }
        };
        (v, color)
    }

    fn get_bush(&self, is_day: bool) -> (r: (Vec<&'static str>, Color))
        ensures
            r.0@.len() == 3,
            texts(r.0@) == bush_lines(),
            r.1 == bush_palette(is_day),
    {
        let mut v: Vec<&'static str> = Vec::new();
        v.push("  ,.,  ");
        v.push(" (,,,,)");
        v.push("  \"||\" ");
        assert(texts(v@) =~= bush_lines());
        let color = if is_day {
            Color::Green
        } else {
            Color::DarkGreen
        };
        (v, color)
    }

    fn get_fence(&self, is_day: bool) -> (r: (Vec<&'static str>, Color))
        ensures
            r.0@.len() == 2,
            texts(r.0@) == fence_lines(),
            r.1 == fence_palette(is_day),
    {
        let mut v: Vec<&'static str> = Vec::new();
        v.push("|--|--|--|--|");
        v.push("|  |  |  |  |");
        assert(texts(v@) =~= fence_lines());
        let color = if is_day {
            Color::White
        } else {
            Color::Grey
        };
        (v, color)
    }

    fn get_mailbox(&self, is_day: bool) -> (r: (Vec<&'static str>, Color))
        ensures
            r.0@.len() == 3,
            texts(r.0@) == mailbox_lines(),
            r.1 == mailbox_palette(is_day),
    {
        let mut v: Vec<&'static str> = Vec::new();
        v.push(" ___ ");
        v.push("|___|");
        v.push("  |  ");
        assert(texts(v@) =~= mailbox_lines());
        let color = if is_day {
            Color::Blue
        } else {
            Color::DarkBlue
        };
        (v, color)
    }

    /// Draws the tree, fence, mailbox and bush where `config` places them.
    pub fn render(&self, renderer: &mut GridRenderer, config: &DecorationRenderConfig)
        requires
            old(renderer).wf(),
        ensures
            final(renderer).wf(),
            final(renderer).cols() == old(renderer).cols(),
            final(renderer).rows() == old(renderer).rows(),
            final(renderer).shown() == old(renderer).shown(),
            final(renderer).full_pending() == old(renderer).full_pending(),
            final(renderer).cells() == old(renderer).drawn(decoration_puts(*config)),
    {
        let ghost g0 = renderer.cells();
        let ghost w = renderer.cols();
        let ghost h = renderer.rows();
        let c = *config;

        let (tree, tree_color) = self.get_tree(c.is_day);
        let tree_y = c.horizon_y.saturating_sub(5);
        let tree_x = c.house_x.saturating_sub(20);
        if tree_x > 0 {
            renderer.render_block(tree_x as u32, tree_y as u32, &tree, tree_color);
        }
        let ghost after_tree = renderer.cells();

        let (fence, fence_color) = self.get_fence(c.is_day);
        let fence_y = c.horizon_y.saturating_sub(2);
        let fence_x = c.house_x as u32 + c.house_width as u32 + 2;
        if fence_x < c.width as u32 {
            renderer.render_block(fence_x, fence_y as u32, &fence, fence_color);
        }
        let ghost after_fence = renderer.cells();

        let (mailbox, mailbox_color) = self.get_mailbox(c.is_day);
        let mailbox_x = tree_x.saturating_sub(10);
        let mailbox_y = c.horizon_y.saturating_sub(3);
        if mailbox_x < c.width {
            renderer.render_block(mailbox_x as u32, mailbox_y as u32, &mailbox, mailbox_color);
        }
        let ghost after_mailbox = renderer.cells();

        let (bush, bush_color) = self.get_bush(c.is_day);
        let bush_x = c.path_center.saturating_sub(10);
        let bush_y = c.horizon_y.saturating_sub(1);
        if bush_x > 0 {
            renderer.render_block(bush_x as u32, bush_y as u32, &bush, bush_color);
        }
        proof {
            let d = decoration_puts(c);
            let t = if tree_column(c) > 0 {
                block_puts(
                    tree_column(c),
                    sat_sub(c.horizon_y as int, 5),
                    tree_lines(),
                    5,
                    tree_palette(c.is_day),
                )
            } else {
                Seq::empty()
            };
            let f = if c.house_x + c.house_width + 2 < c.width {
                block_puts(
                    c.house_x + c.house_width + 2,
                    sat_sub(c.horizon_y as int, 2),
                    fence_lines(),
                    2,
                    fence_palette(c.is_day),
                )
            } else {
                Seq::empty()
            };
            let m = if sat_sub(tree_column(c), 10) < c.width {
                block_puts(
                    sat_sub(tree_column(c), 10),
                    sat_sub(c.horizon_y as int, 3),
                    mailbox_lines(),
                    3,
                    mailbox_palette(c.is_day),
                )
            } else {
                Seq::empty()
            };
            let b = if sat_sub(c.path_center as int, 10) > 0 {
                block_puts(
                    sat_sub(c.path_center as int, 10),
                    sat_sub(c.horizon_y as int, 1),
                    bush_lines(),
                    3,
                    bush_palette(c.is_day),
                )
            } else {
                Seq::empty()
            };
            assert(d == t + f + m + b);
            assert(after_tree == apply_puts(g0, w, h, t));
            assert(after_fence == apply_puts(after_tree, w, h, f));
            assert(after_mailbox == apply_puts(after_fence, w, h, m));
            assert(renderer.cells() == apply_puts(after_mailbox, w, h, b));
            lemma_apply_puts_concat(g0, w, h, t, f);
            lemma_apply_puts_concat(g0, w, h, t + f, m);
            lemma_apply_puts_concat(g0, w, h, t + f + m, b);
        }
    }
}

} // verus!
