//! Clouds: two banks drifting right across the sky, wrapping round.
use crate::render::{block_puts, lemma_apply_puts_concat, texts, Color, GridRenderer, Put};
use vstd::prelude::*;

verus! {

/// Ticks per column of drift.
pub const DRIFT_PERIOD: u32 = 10;

pub open spec fn cloud_lines() -> Seq<Seq<char>> {
    seq!["   .--.   "@, " .(    ). "@, "(___.___)"@]
}

/// Column of cloud bank `start` after `tick` ticks on a screen `width`
/// wide.
pub open spec fn cloud_x(start: int, tick: u32, width: u16) -> int {
    (start + (tick / DRIFT_PERIOD) as int) % (width as int)
}

pub struct Clouds {
    tick: u32,
}

impl Clouds {
    pub closed spec fn tick_spec(&self) -> u32 {
        self.tick
    }

    pub fn new() -> (r: Self)
        ensures
            r.tick_spec() == 0,
    {
        Clouds { tick: 0 }
    }

    pub fn update(&mut self)
        ensures
            final(self).tick_spec() == if old(self).tick_spec() == u32::MAX {
                0
            } else {
                (old(self).tick_spec() + 1) as u32
            },
    {
        self.tick = if self.tick == u32::MAX {
            0
        } else {
            self.tick + 1
        };
    }

    /// The writes of both banks, grey, from rows 2 and 5, starting at
    /// columns 5 and 40; none on a screen with no columns.
    pub open spec fn puts(&self, width: u16) -> Seq<Put> {
        if width == 0 {
            Seq::empty()
        } else {
            block_puts(cloud_x(5, self.tick_spec(), width), 2, cloud_lines(), 3, Color::Grey)
                + block_puts(cloud_x(40, self.tick_spec(), width), 5, cloud_lines(), 3, Color::Grey)
        }
    }

    pub fn render(&self, renderer: &mut GridRenderer, width: u16)
        requires
            old(renderer).wf(),
        ensures
            final(renderer).wf(),
            final(renderer).cols() == old(renderer).cols(),
            final(renderer).rows() == old(renderer).rows(),
            final(renderer).shown() == old(renderer).shown(),
            final(renderer).full_pending() == old(renderer).full_pending(),
            final(renderer).cells() == old(renderer).drawn(self.puts(width)),
    {
        if width == 0 {
            return;
        }
        let ghost g0 = renderer.cells();
        let mut lines: Vec<&'static str> = Vec::new();
        lines.push("   .--.   ");
        lines.push(" .(    ). ");
        lines.push("(___.___)");
        assert(texts(lines@) =~= cloud_lines());
        let drift = self.tick / DRIFT_PERIOD;
        let x0 = ((5 + drift as u64) % width as u64) as u32;
        let x1 = ((40 + drift as u64) % width as u64) as u32;
        renderer.render_block(x0, 2, &lines, Color::Grey);
        renderer.render_block(x1, 5, &lines, Color::Grey);
        proof {
            lemma_apply_puts_concat(
                g0,
                renderer.cols(),
                renderer.rows(),
                block_puts(cloud_x(5, self.tick, width), 2, cloud_lines(), 3, Color::Grey),
                block_puts(cloud_x(40, self.tick, width), 5, cloud_lines(), 3, Color::Grey),
            );
        }
    }
}

} // verus!
