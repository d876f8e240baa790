//! Rain streaks and snow flakes: one population falling at jittered
//! speeds, thicker the higher the intensity.
//!
//! Heights are kept in hundredths of a row.
use crate::render::{apply_puts, lemma_apply_puts_push, put_at, Color, GridRenderer, Put};
use vstd::prelude::*;

verus! {

/// Sub-row steps per row.
pub const STEPS_PER_ROW: u32 = 100;

/// What falls: its glyph, colour and speed band.
#[derive(Clone, Copy, PartialEq, Eq, Structural, Debug)]
pub enum PrecipitationKind {
    Rain,
    Snow,
}

pub open spec fn glyph_of(k: PrecipitationKind) -> char {
    match k {
        PrecipitationKind::Rain => '|',
        PrecipitationKind::Snow => '*',
    }
}

pub open spec fn color_of(k: PrecipitationKind) -> Color {
    match k {
        PrecipitationKind::Rain => Color::Blue,
        PrecipitationKind::Snow => Color::White,
    }
}

/// Slowest fall per tick, in hundredths of a row.
pub open spec fn min_speed(k: PrecipitationKind) -> int {
    match k {
        PrecipitationKind::Rain => 80,
        PrecipitationKind::Snow => 20,
    }
}

/// How many speeds above the slowest the band holds.
pub open spec fn speed_spread(k: PrecipitationKind) -> int {
    match k {
        PrecipitationKind::Rain => 41,
        PrecipitationKind::Snow => 21,
    }
}

/// One particle: its column, its height in hundredths of a row, its speed.
#[derive(Clone, Copy, PartialEq, Eq, Structural, Debug)]
pub struct Particle {
    pub x: u16,
    pub y: u32,
    pub speed: u32,
}

/// The random values one tick may use.
#[derive(Clone, Copy, Debug)]
pub struct FallDraws {
    /// Decides, against the intensity, whether a particle appears.
    pub chance: u32,
    /// Picks its column.
    pub column: u16,
    /// Picks its speed.
    pub speed: u32,
}

pub open spec fn fallen(p: Particle) -> Particle {
    Particle { x: p.x, y: (p.y + p.speed) as u32, speed: p.speed }
}

pub open spec fn on_screen(p: Particle, width: int, height: int) -> bool {
    p.x < width && p.y < STEPS_PER_ROW * height
}

/// The particles after one tick of falling, without those that left the
/// screen, in their old order.
pub open spec fn still_falling(ps: Seq<Particle>, width: int, height: int) -> Seq<Particle>
    decreases ps.len(),
{
    if ps.len() == 0 {
        Seq::empty()
    } else {
        let rest = still_falling(ps.drop_last(), width, height);
        let p = fallen(ps.last());
        if on_screen(p, width, height) {
            rest.push(p)
        } else {
            rest
        }
    }
}

/// A particle appears with probability `intensity` percent, if the screen
/// has a cell to put it in.
pub open spec fn appears(intensity: u8, width: int, height: int, d: FallDraws) -> bool {
    &&& d.chance % 100 < intensity
    &&& width > 0
    &&& height > 0
}

/// The new particle: on the top row, in a random column, at a speed in its
/// kind's band.
pub open spec fn new_particle(k: PrecipitationKind, width: int, d: FallDraws) -> Particle {
    Particle {
        x: (d.column as int % width) as u16,
        y: 0,
        speed: (min_speed(k) + d.speed as int % speed_spread(k)) as u32,
    }
}

pub open spec fn tick_particles(
    k: PrecipitationKind,
    ps: Seq<Particle>,
    intensity: u8,
    width: int,
    height: int,
    d: FallDraws,
) -> Seq<Particle> {
    let kept = still_falling(ps, width, height);
    if appears(intensity, width, height, d) {
        kept.push(new_particle(k, width, d))
    } else {
        kept
    }
}

/// Falling never adds particles.
pub proof fn lemma_still_falling_len(ps: Seq<Particle>, width: int, height: int)
    ensures
        still_falling(ps, width, height).len() <= ps.len(),
    decreases ps.len(),
{
    if ps.len() > 0 {
        lemma_still_falling_len(ps.drop_last(), width, height);
    }
}

/// At intensity zero nothing new appears, so the population can only
/// shrink.
pub proof fn lemma_no_intensity_no_growth(
    k: PrecipitationKind,
    ps: Seq<Particle>,
    width: int,
    height: int,
    d: FallDraws,
)
    ensures
        tick_particles(k, ps, 0, width, height, d).len() <= ps.len(),
{
    lemma_still_falling_len(ps, width, height);
}

pub open spec fn particle_ok(p: Particle, width: int, height: int) -> bool {
    on_screen(p, width, height) && p.speed <= 200
}

proof fn lemma_still_falling_ok(ps: Seq<Particle>, width: int, height: int)
    requires
        forall|i: int| 0 <= i < ps.len() ==> (#[trigger] ps[i]).speed <= 200 && ps[i].y
            < u32::MAX - 200,
    ensures
        forall|i: int|
            0 <= i < still_falling(ps, width, height).len() ==> particle_ok(
                #[trigger] still_falling(ps, width, height)[i],
                width,
                height,
            ),
    decreases ps.len(),
{
    if ps.len() > 0 {
        let q = ps.drop_last();
        assert forall|i: int| 0 <= i < q.len() implies (#[trigger] q[i]).speed <= 200 && q[i].y
            < u32::MAX - 200 by {
            assert(q[i] == ps[i]);
        }
        lemma_still_falling_ok(q, width, height);
        let rest = still_falling(q, width, height);
        assert forall|i: int|
            0 <= i < still_falling(ps, width, height).len() implies particle_ok(
                #[trigger] still_falling(ps, width, height)[i],
                width,
                height,
            ) by {
            if i < rest.len() {
                assert(still_falling(ps, width, height)[i] == rest[i]);
            }
        }
    }
}

/// The writes of the first `n` particles: each its kind's glyph at its
/// column and row.
pub open spec fn particle_puts(k: PrecipitationKind, ps: Seq<Particle>, n: int) -> Seq<Put>
    decreases n,
{
    if n <= 0 {
        Seq::empty()
    } else {
        particle_puts(k, ps, n - 1).push(
            put_at(
                ps[n - 1].x as int,
                ps[n - 1].y as int / STEPS_PER_ROW as int,
                glyph_of(k),
                color_of(k),
            ),
        )
    }
}

pub struct Precipitation {
    kind: PrecipitationKind,
    particles: Vec<Particle>,
    width: u16,
    height: u16,
}

impl Precipitation {
    pub closed spec fn particles(&self) -> Seq<Particle> {
        self.particles@
    }

    pub closed spec fn kind_spec(&self) -> PrecipitationKind {
        self.kind
    }

    /// The bounds passed to the most recent update (or to `new`).
    pub closed spec fn bounds(&self) -> (int, int) {
        (self.width as int, self.height as int)
    }

    /// Every particle lies on the screen of the most recent bounds.
    pub closed spec fn wf(&self) -> bool {
        forall|i: int|
            0 <= i < self.particles@.len() ==> particle_ok(
                #[trigger] self.particles@[i],
                self.width as int,
                self.height as int,
            )
    }

    /// Every particle of a population that `new` and `update` keep lies on
    /// the screen given by the most recent bounds.
    pub proof fn lemma_particles_on_screen(&self)
        requires
            self.wf(),
        ensures
            forall|i: int|
                0 <= i < self.particles().len() ==> on_screen(
                    #[trigger] self.particles()[i],
                    self.bounds().0,
                    self.bounds().1,
                ),
    {
    }

    pub fn new(kind: PrecipitationKind, width: u16, height: u16) -> (r: Self)
        ensures
            r.wf(),
            r.kind_spec() == kind,
            r.particles() == Seq::<Particle>::empty(),
            r.bounds() == (width as int, height as int),
    {
        Precipitation { kind, particles: Vec::new(), width, height }
    }

    pub fn len(&self) -> (r: usize)
        ensures
            r == self.particles().len(),
    {
        self.particles.len()
    }

    pub fn particle_at(&self, i: usize) -> (r: Particle)
        requires
            i < self.particles().len(),
        ensures
            r == self.particles()[i as int],
    {
        self.particles[i]
    }

    /// One tick with the random values `d`: every particle falls by its
    /// speed, those that left the `width` by `height` screen are removed,
    /// and a new one may appear on the top row, with probability
    /// `intensity` percent.
    pub fn update_with(&mut self, width: u16, height: u16, intensity: u8, d: FallDraws)
        requires
            old(self).wf(),
        ensures
            final(self).wf(),
            final(self).kind_spec() == old(self).kind_spec(),
            final(self).bounds() == (width as int, height as int),
            final(self).particles() == tick_particles(
                old(self).kind_spec(),
                old(self).particles(),
                intensity,
                width as int,
                height as int,
                d,
            ),
    {
        let ghost ps = self.particles@;
        let ghost w = width as int;
        let ghost h = height as int;
        proof {
            assert forall|i: int| 0 <= i < ps.len() implies (#[trigger] ps[i]).speed <= 200
                && ps[i].y < u32::MAX - 200 by {
                assert(particle_ok(ps[i], self.width as int, self.height as int));
            }
            lemma_still_falling_ok(ps, w, h);
        }
        let mut kept: Vec<Particle> = Vec::new();
        let n = self.particles.len();
        let mut i: usize = 0;
        while i < n
            invariant
                n == ps.len(),
                i <= n,
                self.particles@ == ps,
                forall|k: int| 0 <= k < n ==> (#[trigger] ps[k]).speed <= 200 && ps[k].y < u32::MAX - 200,
                kept@ == still_falling(ps.take(i as int), w, h),
                w == width,
                h == height,
            decreases n - i,
        {
            let p = self.particles[i];
            let q = Particle { x: p.x, y: p.y + p.speed, speed: p.speed };
            proof {
                assert(ps.take(i + 1).drop_last() =~= ps.take(i as int));
                assert(ps.take(i + 1).last() == ps[i as int]);
                assert(q == fallen(ps[i as int]));
            }
            if (q.x as u32) < width as u32 && q.y < STEPS_PER_ROW * height as u32 {
                kept.push(q);
            }
            i = i + 1;
        }
        proof {
            assert(ps.take(n as int) =~= ps);
        }
        self.particles = kept;
        self.width = width;
        self.height = height;
        if d.chance % 100 < intensity as u32 && width > 0 && height > 0 {
            let (lo, spread): (u32, u32) = match self.kind {
                PrecipitationKind::Rain => (80, 41),
                PrecipitationKind::Snow => (20, 21),
            };
            let p = Particle { x: d.column % width, y: 0, speed: lo + d.speed % spread };
            assert(p == new_particle(self.kind, w, d));
            self.particles.push(p);
        }
        proof {
            let kept_view = still_falling(ps, w, h);
            assert forall|k: int| 0 <= k < self.particles@.len() implies particle_ok(
                #[trigger] self.particles@[k],
                self.width as int,
                self.height as int,
            ) by {
                if k < kept_view.len() {
                    assert(self.particles@[k] == kept_view[k]);
                }
            }
        }
    }

    /// One tick with values drawn from the random generator: what
    /// `update_with` does for some draws.
    pub fn update(&mut self, width: u16, height: u16, intensity: u8)
        requires
            old(self).wf(),
        ensures
            final(self).wf(),
            final(self).kind_spec() == old(self).kind_spec(),
            final(self).bounds() == (width as int, height as int),
            exists|d: FallDraws|
                #![trigger tick_particles(
                    old(self).kind_spec(),
                    old(self).particles(),
                    intensity,
                    width as int,
                    height as int,
                    d,
                )]
                final(self).particles() == tick_particles(
                    old(self).kind_spec(),
                    old(self).particles(),
                    intensity,
                    width as int,
                    height as int,
                    d,
                ),
    {
        let d = FallDraws {
            chance: rand::random::<u32>(),
            column: rand::random::<u16>(),
            speed: rand::random::<u32>(),
        };
        self.update_with(width, height, intensity, d);
    }

    /// Draws every particle.
    pub fn render(&self, renderer: &mut GridRenderer)
        requires
            old(renderer).wf(),
        ensures
            final(renderer).wf(),
            final(renderer).cols() == old(renderer).cols(),
            final(renderer).rows() == old(renderer).rows(),
            final(renderer).shown() == old(renderer).shown(),
            final(renderer).full_pending() == old(renderer).full_pending(),
            final(renderer).cells() == old(renderer).drawn(
                particle_puts(self.kind_spec(), self.particles(), self.particles().len() as int),
            ),
    {
        let ghost g0 = renderer.cells();
        let ghost w = renderer.cols();
        let ghost h = renderer.rows();
        let (glyph, color) = match self.kind {
            PrecipitationKind::Rain => ('|', Color::Blue),
            PrecipitationKind::Snow => ('*', Color::White),
        };
        let mut i: usize = 0;
        while i < self.particles.len()
            invariant
                i <= self.particles@.len(),
                glyph == glyph_of(self.kind),
                color == color_of(self.kind),
                renderer.wf(),
                renderer.cols() == w,
                renderer.rows() == h,
                renderer.shown() == old(renderer).shown(),
                renderer.full_pending() == old(renderer).full_pending(),
                g0 == old(renderer).cells(),
                renderer.cells() == apply_puts(
                    g0,
                    w,
                    h,
                    particle_puts(self.kind, self.particles@, i as int),
                ),
            decreases self.particles@.len() - i,
        {
            let p = self.particles[i];
            renderer.render_char(p.x as u32, p.y / STEPS_PER_ROW, glyph, color);
            proof {
                lemma_apply_puts_push(
                    g0,
                    w,
                    h,
                    particle_puts(self.kind, self.particles@, i as int),
                    put_at(p.x as int, p.y as int / STEPS_PER_ROW as int, glyph, color),
                );
            }
            i = i + 1;
        }
    }
}

} // verus!
