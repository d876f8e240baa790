//! Drifting particles: chimney smoke rising from a fixed point, fireflies
//! wandering and blinking, leaves falling with a sway.
//!
//! Positions are kept in hundredths of a cell, and may step off the screen,
//! where the particle is removed.
use crate::render::{apply_puts, lemma_apply_puts_push, put_at, Color, GridRenderer, Put};
use vstd::prelude::*;

verus! {

pub const CELL: i32 = 100;

#[derive(Clone, Copy, PartialEq, Eq, Structural, Debug)]
pub enum DriftKind {
    Smoke,
    Firefly,
    Leaf,
}

/// Ticks a particle lives at most.
pub open spec fn max_age(k: DriftKind) -> int {
    match k {
        DriftKind::Smoke => 40,
        DriftKind::Firefly => 600,
        DriftKind::Leaf => 1000,
    }
}

/// Chance per thousand ticks that one appears while the effect is on.
pub open spec fn spawn_rate(k: DriftKind) -> int {
    match k {
        DriftKind::Smoke => 300,
        DriftKind::Firefly => 20,
        DriftKind::Leaf => 30,
    }
}

/// Sideways sway of a leaf by age, in hundredths of a column per tick: a
/// coarse sine over eight ticks.
pub open spec fn sway(age: int) -> int {
    let k = age % 8;
    if k == 0 || k == 4 {
        0
    } else if k == 1 || k == 3 {
        20
    } else if k == 2 {
        30
    } else if k == 6 {
        -30
    } else {
        -20
    }
}

#[derive(Clone, Copy, PartialEq, Eq, Structural, Debug)]
pub struct Drifter {
    pub x: i32,
    pub y: i32,
    pub age: u16,
}

/// The move of one tick: smoke rises and drifts a little sideways,
/// fireflies take a random step, leaves fall and sway. `j` is the
/// particle's random draw for the tick.
pub open spec fn step(k: DriftKind, p: Drifter, j: u32) -> Drifter {
    let (dx, dy) = match k {
        DriftKind::Smoke => ((j % 3) as int * 20 - 20, -30),
        DriftKind::Firefly => ((j % 41) as int - 20, (j / 41 % 41) as int - 20),
        DriftKind::Leaf => (sway(p.age as int), 40),
    };
    Drifter { x: (p.x + dx) as i32, y: (p.y + dy) as i32, age: (p.age + 1) as u16 }
}

pub open spec fn alive(k: DriftKind, p: Drifter, width: int, height: int) -> bool {
    &&& 0 <= p.x < CELL * width
    &&& 0 <= p.y < CELL * height
    &&& p.age < max_age(k)
}

/// The draw of particle `i`, zero past the end of `js`.
pub open spec fn draw_at(js: Seq<u32>, i: int) -> u32 {
    if 0 <= i < js.len() {
        js[i]
    } else {
        0
    }
}

/// The particles after one tick of moving, without those that left the
/// screen or outlived their kind, in their old order.
pub open spec fn survivors(
    k: DriftKind,
    ps: Seq<Drifter>,
    js: Seq<u32>,
    width: int,
    height: int,
) -> Seq<Drifter>
    decreases ps.len(),
{
    if ps.len() == 0 {
        Seq::empty()
    } else {
        let rest = survivors(k, ps.drop_last(), js, width, height);
        let p = step(k, ps.last(), draw_at(js, ps.len() - 1));
        if alive(k, p, width, height) {
            rest.push(p)
        } else {
            rest
        }
    }
}

/// The random values one tick uses besides the per-particle draws.
#[derive(Clone, Copy, Debug)]
pub struct DriftDraws {
    pub chance: u32,
    pub a: u16,
    pub b: u16,
}

/// Where a new particle starts: smoke at the chimney `origin` (a cell),
/// fireflies anywhere in the lower half, leaves anywhere on the top row.
pub open spec fn spawn_point(
    k: DriftKind,
    origin: (u16, u16),
    width: int,
    height: int,
    d: DriftDraws,
) -> Drifter {
    match k {
        DriftKind::Smoke => Drifter {
            x: (CELL * origin.0) as i32,
            y: (CELL * origin.1) as i32,
            age: 0,
        },
        DriftKind::Firefly => Drifter {
            x: (CELL * (d.a as int % width)) as i32,
            y: (CELL * (height / 2 + d.b as int % (height - height / 2))) as i32,
            age: 0,
        },
        DriftKind::Leaf => Drifter { x: (CELL * (d.a as int % width)) as i32, y: 0, age: 0 },
    }
}

/// One appears while the effect is on, with the kind's chance, when the
/// screen has a cell (and, for smoke, when the chimney is on screen).
pub open spec fn spawns(
    k: DriftKind,
    on: bool,
    origin: (u16, u16),
    width: int,
    height: int,
    d: DriftDraws,
) -> bool {
    &&& on
    &&& d.chance % 1000 < spawn_rate(k)
    &&& width > 0
    &&& height > 0
    &&& (k == DriftKind::Smoke ==> origin.0 < width && origin.1 < height)
}

pub open spec fn tick_drifters(
    k: DriftKind,
    ps: Seq<Drifter>,
    js: Seq<u32>,
    on: bool,
    origin: (u16, u16),
    width: int,
    height: int,
    d: DriftDraws,
) -> Seq<Drifter> {
    let kept = survivors(k, ps, js, width, height);
    if spawns(k, on, origin, width, height, d) {
        kept.push(spawn_point(k, origin, width, height, d))
    } else {
        kept
    }
}

pub proof fn lemma_survivors_alive(
    k: DriftKind,
    ps: Seq<Drifter>,
    js: Seq<u32>,
    width: int,
    height: int,
)
    ensures
        forall|i: int|
            0 <= i < survivors(k, ps, js, width, height).len() ==> alive(
                k,
                #[trigger] survivors(k, ps, js, width, height)[i],
                width,
                height,
            ),
        survivors(k, ps, js, width, height).len() <= ps.len(),
    decreases ps.len(),
{
    if ps.len() > 0 {
        lemma_survivors_alive(k, ps.drop_last(), js, width, height);
        let rest = survivors(k, ps.drop_last(), js, width, height);
        assert forall|i: int|
            0 <= i < survivors(k, ps, js, width, height).len() implies alive(
                k,
                #[trigger] survivors(k, ps, js, width, height)[i],
                width,
                height,
            ) by {
            if i < rest.len() {
                assert(survivors(k, ps, js, width, height)[i] == rest[i]);
            }
        }
    }
}

/// What a particle shows: smoke fades from `~` to `.`, fireflies blink on
/// and off every eight ticks, leaves turn between yellow and red.
pub open spec fn shows(k: DriftKind, p: Drifter) -> bool {
    k != DriftKind::Firefly || (p.age / 8) % 2 == 0
}

pub open spec fn drift_glyph(k: DriftKind, p: Drifter) -> char {
    match k {
        DriftKind::Smoke => if p.age < 10 {
            '~'
        } else {
            '.'
        },
        DriftKind::Firefly => '*',
        DriftKind::Leaf => ',',
    }
}

pub open spec fn drift_color(k: DriftKind, p: Drifter) -> Color {
    match k {
        DriftKind::Smoke => if p.age < 10 {
            Color::Grey
        } else {
            Color::DarkGrey
        },
        DriftKind::Firefly => Color::Yellow,
        DriftKind::Leaf => if p.age % 2 == 0 {
            Color::Yellow
        } else {
            Color::Red
        },
    }
}

/// The writes of the first `n` particles that show.
pub open spec fn drift_puts(k: DriftKind, ps: Seq<Drifter>, n: int) -> Seq<Put>
    decreases n,
{
    if n <= 0 {
        Seq::empty()
    } else {
        let rest = drift_puts(k, ps, n - 1);
        let p = ps[n - 1];
        if shows(k, p) {
            rest.push(
                put_at(
                    p.x as int / CELL as int,
                    p.y as int / CELL as int,
                    drift_glyph(k, p),
                    drift_color(k, p),
                ),
            )
        } else {
            rest
        }
    }
}

pub struct DriftSystem {
    kind: DriftKind,
    particles: Vec<Drifter>,
    width: u16,
    height: u16,
}

impl DriftSystem {
    pub closed spec fn kind_spec(&self) -> DriftKind {
        self.kind
    }

    pub closed spec fn particles(&self) -> Seq<Drifter> {
        self.particles@
    }

    pub closed spec fn bounds(&self) -> (int, int) {
        (self.width as int, self.height as int)
    }

    /// Every particle is on the screen of the most recent bounds and within
    /// its kind's lifetime.
    pub closed spec fn wf(&self) -> bool {
        forall|i: int|
            0 <= i < self.particles@.len() ==> alive(
                self.kind,
                #[trigger] self.particles@[i],
                self.width as int,
                self.height as int,
            )
    }

    /// Every particle of a population that `new` and `update` keep lies on
    /// the screen given by the most recent bounds.
    pub proof fn lemma_particles_on_screen(&self)
        requires
            self.wf(),
        ensures
            forall|i: int|
                0 <= i < self.particles().len() ==> alive(
                    self.kind_spec(),
                    #[trigger] self.particles()[i],
                    self.bounds().0,
                    self.bounds().1,
                ),
    {
    }

    pub fn new(kind: DriftKind, width: u16, height: u16) -> (r: Self)
        ensures
            r.wf(),
            r.kind_spec() == kind,
            r.particles() == Seq::<Drifter>::empty(),
            r.bounds() == (width as int, height as int),
    {
        DriftSystem { kind, particles: Vec::new(), width, height }
    }

    pub fn len(&self) -> (r: usize)
        ensures
            r == self.particles().len(),
    {
        self.particles.len()
    }

    pub fn particle_at(&self, i: usize) -> (r: Drifter)
        requires
            i < self.particles().len(),
        ensures
            r == self.particles()[i as int],
    {
        self.particles[i]
    }

    /// One tick: each particle moves by its kind's law with its draw from
    /// `jitter` (zero past its end); those that left the `width` by
    /// `height` screen or outlived their kind are removed; then, while `on`,
    /// one may appear.
    pub fn update_with(
        &mut self,
        width: u16,
        height: u16,
        on: bool,
        origin: (u16, u16),
        jitter: &Vec<u32>,
        d: DriftDraws,
    )
        requires
            old(self).wf(),
        ensures
            final(self).wf(),
            final(self).kind_spec() == old(self).kind_spec(),
            final(self).bounds() == (width as int, height as int),
            final(self).particles() == tick_drifters(
                old(self).kind_spec(),
                old(self).particles(),
                jitter@,
                on,
                origin,
                width as int,
                height as int,
                d,
            ),
    {
        let ghost ps = self.particles@;
        let ghost w = width as int;
        let ghost h = height as int;
        let k = self.kind;
        proof {
            lemma_survivors_alive(k, ps, jitter@, w, h);
        }
        let mut kept: Vec<Drifter> = Vec::new();
        let n = self.particles.len();
        let mut i: usize = 0;
        while i < n
            invariant
                n == ps.len(),
                i <= n,
                self.particles@ == ps,
                self.kind == k,
                forall|m: int|
                    0 <= m < n ==> alive(
                        k,
                        #[trigger] ps[m],
                        self.width as int,
                        self.height as int,
                    ),
                kept@ == survivors(k, ps.take(i as int), jitter@, w, h),
                w == width,
                h == height,
            decreases n - i,
        {
            let p = self.particles[i];
            assert(alive(k, ps[i as int], self.width as int, self.height as int));
            let j: u32 = if i < jitter.len() {
                jitter[i]
            } else {
                0
            };
            let (dx, dy): (i32, i32) = match k {
                DriftKind::Smoke => ((j % 3) as i32 * 20 - 20, -30),
                DriftKind::Firefly => ((j % 41) as i32 - 20, (j / 41 % 41) as i32 - 20),
                DriftKind::Leaf => {
                    let m = p.age % 8;
                    let s: i32 = if m == 0 || m == 4 {
                        0
                    } else if m == 1 || m == 3 {
                        20
                    } else if m == 2 {
                        30
                    } else if m == 6 {
                        -30
                    } else {
                        -20
                    };
                    (s, 40)
                },
            };
            let q = Drifter { x: p.x + dx, y: p.y + dy, age: p.age + 1 };
            proof {
                assert(ps.take(i + 1).drop_last() =~= ps.take(i as int));
                assert(ps.take(i + 1).last() == ps[i as int]);
                assert(draw_at(jitter@, i as int) == j);
                assert(q == step(k, ps[i as int], j));
            }
            let max: u16 = match k {
                DriftKind::Smoke => 40,
                DriftKind::Firefly => 600,
                DriftKind::Leaf => 1000,
            };
            if 0 <= q.x && q.x < CELL * width as i32 && 0 <= q.y && q.y < CELL * height as i32
                && q.age < max {
                kept.push(q);
            }
            i = i + 1;
        }
        proof {
            assert(ps.take(n as int) =~= ps);
        }
        self.particles = kept;
        self.width = width;
        self.height = height;
        let rate: u32 = match k {
            DriftKind::Smoke => 300,
            DriftKind::Firefly => 20,
            DriftKind::Leaf => 30,
        };
        let origin_ok = match k {
            DriftKind::Smoke => origin.0 < width && origin.1 < height,
            _ => true,
        };
        if on && d.chance % 1000 < rate && width > 0 && height > 0 && origin_ok {
            let p = match k {
                DriftKind::Smoke => Drifter {
                    x: CELL * origin.0 as i32,
                    y: CELL * origin.1 as i32,
                    age: 0,
                },
                DriftKind::Firefly => {
                    let half = height / 2;
                    Drifter {
                        x: CELL * (d.a % width) as i32,
                        y: CELL * (half + d.b % (height - half)) as i32,
                        age: 0,
                    }
                },
                DriftKind::Leaf => Drifter { x: CELL * (d.a % width) as i32, y: 0, age: 0 },
            };
            assert(p == spawn_point(k, origin, w, h, d));
            self.particles.push(p);
        }
        proof {
            let kept_view = survivors(k, ps, jitter@, w, h);
            assert forall|m: int| 0 <= m < self.particles@.len() implies alive(
                k,
                #[trigger] self.particles@[m],
                self.width as int,
                self.height as int,
            ) by {
                if m < kept_view.len() {
                    assert(self.particles@[m] == kept_view[m]);
                }
            }
        }
    }

    /// One tick with values drawn from the random generator: what
    /// `update_with` does for some draws.
    pub fn update(&mut self, width: u16, height: u16, on: bool, origin: (u16, u16))
        requires
            old(self).wf(),
        ensures
            final(self).wf(),
            final(self).kind_spec() == old(self).kind_spec(),
            final(self).bounds() == (width as int, height as int),
            exists|js: Seq<u32>, d: DriftDraws|
                #![trigger tick_drifters(
                    old(self).kind_spec(),
                    old(self).particles(),
                    js,
                    on,
                    origin,
                    width as int,
                    height as int,
                    d,
                )]
                final(self).particles() == tick_drifters(
                    old(self).kind_spec(),
                    old(self).particles(),
                    js,
                    on,
                    origin,
                    width as int,
                    height as int,
                    d,
                ),
    {
        let mut jitter: Vec<u32> = Vec::new();
        let mut i: usize = 0;
        while i < self.particles.len()
            decreases self.particles@.len() - i,
        {
            jitter.push(rand::random::<u32>());
            i = i + 1;
        }
        let d = DriftDraws {
            chance: rand::random::<u32>(),
            a: rand::random::<u16>(),
            b: rand::random::<u16>(),
        };
        self.update_with(width, height, on, origin, &jitter, d);
    }

    /// Draws the particles that show.
    pub fn render(&self, renderer: &mut GridRenderer)
        requires
            old(renderer).wf(),
        ensures
            final(renderer).wf(),
            final(renderer).cols() == old(renderer).cols(),
            final(renderer).rows() == old(renderer).rows(),
            final(renderer).shown() == old(renderer).shown(),
            final(renderer).full_pending() == old(renderer).full_pending(),
            final(renderer).cells() == old(renderer).drawn(
                drift_puts(self.kind_spec(), self.particles(), self.particles().len() as int),
            ),
    {
        let ghost g0 = renderer.cells();
        let ghost w = renderer.cols();
        let ghost h = renderer.rows();
        let k = self.kind;
        let mut i: usize = 0;
        while i < self.particles.len()
            invariant
                i <= self.particles@.len(),
                k == self.kind,
                renderer.wf(),
                renderer.cols() == w,
                renderer.rows() == h,
                renderer.shown() == old(renderer).shown(),
                renderer.full_pending() == old(renderer).full_pending(),
                g0 == old(renderer).cells(),
                renderer.cells() == apply_puts(g0, w, h, drift_puts(k, self.particles@, i as int)),
            decreases self.particles@.len() - i,
        {
            let p = self.particles[i];
            let visible = match k {
                DriftKind::Firefly => (p.age / 8) % 2 == 0,
                _ => true,
            };
            if visible && p.x >= 0 && p.y >= 0 {
                let (glyph, color) = match k {
                    DriftKind::Smoke => if p.age < 10 {
                        ('~', Color::Grey)
                    } else {
                        ('.', Color::DarkGrey)
                    },
                    DriftKind::Firefly => ('*', Color::Yellow),
                    DriftKind::Leaf => if p.age % 2 == 0 {
                        (',', Color::Yellow)
                    } else {
                        (',', Color::Red)
                    },
                };
                renderer.render_char((p.x / CELL) as u32, (p.y / CELL) as u32, glyph, color);
                proof {
                    lemma_apply_puts_push(
                        g0,
                        w,
                        h,
                        drift_puts(k, self.particles@, i as int),
                        put_at(
                            p.x as int / CELL as int,
                            p.y as int / CELL as int,
                            drift_glyph(k, p),
                            drift_color(k, p),
                        ),
                    );
                }
            } else if visible {
                proof {
                    lemma_apply_puts_push(
                        g0,
                        w,
                        h,
                        drift_puts(k, self.particles@, i as int),
                        put_at(
                            p.x as int / CELL as int,
                            p.y as int / CELL as int,
                            drift_glyph(k, p),
                            drift_color(k, p),
                        ),
                    );
                }
            }
            i = i + 1;
        }
    }
}

} // verus!
