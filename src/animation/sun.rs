//! The sun: a fixed glyph cluster near the top right whose rays alternate
//! between two shapes.
use crate::render::{block_puts, texts, Color, GridRenderer, Put};
use vstd::prelude::*;

verus! {

/// Ticks each ray shape is held.
pub const RAY_PERIOD: u32 = 15;

/// Columns of the sun from the right edge, and its top row.
pub const SUN_MARGIN: u16 = 14;

pub const SUN_Y: u32 = 1;

pub open spec fn sun_lines(phase: int) -> Seq<Seq<char>> {
    if phase == 0 {
        seq!["  \\ | /  "@, "-- ( ) --"@, "  / | \\  "@]
    } else {
        seq!["  . | .  "@, " - ( ) - "@, "  ' | '  "@]
    }
}

/// Which ray shape shows on tick `tick`.
pub open spec fn phase_of(tick: u32) -> int {
    (tick / RAY_PERIOD) as int % 2
}

pub struct Sun {
    tick: u32,
}

impl Sun {
    pub closed spec fn tick_spec(&self) -> u32 {
        self.tick
    }

    pub fn new() -> (r: Self)
        ensures
            r.tick_spec() == 0,
    {
        Sun { tick: 0 }
    }

    /// Advances the ray animation one tick, wrapping round.
    pub fn update(&mut self)
        ensures
            final(self).tick_spec() == if old(self).tick_spec() == u32::MAX {
                0
            } else {
                (old(self).tick_spec() + 1) as u32
            },
    {
        self.tick = if self.tick == u32::MAX {
            0
        } else {
            self.tick + 1
        };
    }

    /// The writes of the sun on a screen `width` columns wide.
    pub open spec fn puts(&self, width: u16) -> Seq<Put> {
        let x = if width >= SUN_MARGIN {
            width - SUN_MARGIN
        } else {
            0
        };
        block_puts(x, SUN_Y as int, sun_lines(phase_of(self.tick_spec())), 3, Color::Yellow)
    }

    pub fn render(&self, renderer: &mut GridRenderer, width: u16)
        requires
            old(renderer).wf(),
        ensures
            final(renderer).wf(),
            final(renderer).cols() == old(renderer).cols(),
            final(renderer).rows() == old(renderer).rows(),
            final(renderer).shown() == old(renderer).shown(),
            final(renderer).full_pending() == old(renderer).full_pending(),
            final(renderer).cells() == old(renderer).drawn(self.puts(width)),
    {
        let mut lines: Vec<&'static str> = Vec::new();
        if (self.tick / RAY_PERIOD) % 2 == 0 {
            lines.push("  \\ | /  ");
            lines.push("-- ( ) --");
            lines.push("  / | \\  ");
        } else {
            lines.push("  . | .  ");
            lines.push(" - ( ) - ");
            lines.push("  ' | '  ");
        }
        assert(texts(lines@) =~= sun_lines(phase_of(self.tick)));
        let x = width.saturating_sub(SUN_MARGIN);
        renderer.render_block(x as u32, SUN_Y, &lines, Color::Yellow);
    }
}

} // verus!
