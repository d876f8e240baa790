//! Lightning: a rare strike that holds a bolt on screen for a few ticks.
use crate::render::{block_puts, texts, Color, GridRenderer, Put};
use vstd::prelude::*;

verus! {

/// Ticks a bolt stays on screen.
pub const FLASH_TICKS: u8 = 3;

/// A strike happens on a tick with probability `STRIKE_CHANCE` in
/// `STRIKE_CHANCE_SCALE`.
pub const STRIKE_CHANCE: u32 = 5;

pub const STRIKE_CHANCE_SCALE: u32 = 1000;

/// Row of the bolt's top.
pub const BOLT_Y: u32 = 1;

pub open spec fn bolt_lines() -> Seq<Seq<char>> {
    seq![" \\"@, "  \\"@, "  /"@, "  \\"@, "   \\"@]
}

pub struct Lightning {
    flash_left: u8,
    column: u16,
}

/// Ticks left of the flash, and its column, after one tick: a running
/// flash counts down; else, while storms are on, a strike starts with the
/// chance draw under the threshold, at a random column.
pub open spec fn tick_flash(
    flash_left: u8,
    column: u16,
    active: bool,
    width: u16,
    chance: u32,
    column_draw: u16,
) -> (u8, u16) {
    if flash_left > 0 {
        ((flash_left - 1) as u8, column)
    } else if active && chance % STRIKE_CHANCE_SCALE < STRIKE_CHANCE && width > 0 {
        (FLASH_TICKS, column_draw % width)
    } else {
        (0, column)
    }
}

impl Lightning {
    pub closed spec fn flash_spec(&self) -> (u8, u16) {
        (self.flash_left, self.column)
    }

    pub fn new() -> (r: Self)
        ensures
            r.flash_spec().0 == 0,
    {
        Lightning { flash_left: 0, column: 0 }
    }

    pub fn is_flashing(&self) -> (r: bool)
        ensures
            r == (self.flash_spec().0 > 0),
    {
        self.flash_left > 0
    }

    pub fn update_with(&mut self, active: bool, width: u16, chance: u32, column_draw: u16)
        ensures
            final(self).flash_spec() == tick_flash(
                old(self).flash_spec().0,
                old(self).flash_spec().1,
                active,
                width,
                chance,
                column_draw,
            ),
    {
        if self.flash_left > 0 {
            self.flash_left = self.flash_left - 1;
        } else if active && chance % STRIKE_CHANCE_SCALE < STRIKE_CHANCE && width > 0 {
            self.flash_left = FLASH_TICKS;
            self.column = column_draw % width;
        }
    }

    /// One tick with values drawn from the random generator.
    pub fn update(&mut self, active: bool, width: u16)
        ensures
            exists|chance: u32, column_draw: u16|
                #![trigger tick_flash(
                    old(self).flash_spec().0,
                    old(self).flash_spec().1,
                    active,
                    width,
                    chance,
                    column_draw,
                )]
                final(self).flash_spec() == tick_flash(
                    old(self).flash_spec().0,
                    old(self).flash_spec().1,
                    active,
                    width,
                    chance,
                    column_draw,
                ),
    {
        let chance = rand::random::<u32>();
        let column_draw = rand::random::<u16>();
        self.update_with(active, width, chance, column_draw);
    }

    /// The writes of the bolt while a flash runs: yellow, from its column
    /// down from `BOLT_Y`.
    pub open spec fn puts(&self) -> Seq<Put> {
        if self.flash_spec().0 > 0 {
            block_puts(self.flash_spec().1 as int, BOLT_Y as int, bolt_lines(), 5, Color::Yellow)
        } else {
            Seq::empty()
        }
    }

    pub fn render(&self, renderer: &mut GridRenderer)
        requires
            old(renderer).wf(),
        ensures
            final(renderer).wf(),
            final(renderer).cols() == old(renderer).cols(),
            final(renderer).rows() == old(renderer).rows(),
            final(renderer).shown() == old(renderer).shown(),
            final(renderer).full_pending() == old(renderer).full_pending(),
            final(renderer).cells() == old(renderer).drawn(self.puts()),
    {
        if self.flash_left > 0 {
            let mut bolt: Vec<&'static str> = Vec::new();
            bolt.push(" \\");
            bolt.push("  \\");
            bolt.push("  /");
            bolt.push("  \\");
            bolt.push("   \\");
            assert(texts(bolt@) =~= bolt_lines());
            renderer.render_block(self.column as u32, BOLT_Y, &bolt, Color::Yellow);
        }
    }
}

} // verus!
