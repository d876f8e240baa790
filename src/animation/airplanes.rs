//! Airplanes crossing the upper quarter of the sky, trailing dots.
//!
//! Positions along the row are kept in hundredths of a column, so that a
//! plane can move a fraction of a column per tick.
use crate::render::{apply_puts, lemma_apply_puts_concat, lemma_apply_puts_push, put_at};
use crate::render::{Color, GridRenderer, Put};
use vstd::prelude::*;

verus! {

/// Most recent positions a plane's trail keeps.
pub const TRAIL_CAPACITY: usize = 8;

/// Sub-column steps per column.
pub const STEPS_PER_COLUMN: u32 = 100;

/// Slowest and fastest plane, in hundredths of a column per tick.
pub const MIN_SPEED: u32 = 30;

pub const MAX_SPEED: u32 = 50;

/// A new plane appears on a tick with probability `SPAWN_CHANCE` in
/// `SPAWN_CHANCE_SCALE`, once the cooldown has run out.
pub const SPAWN_CHANCE: u32 = 3;

pub const SPAWN_CHANCE_SCALE: u32 = 1000;

/// After a spawn the cooldown is `COOLDOWN_BASE` plus less than
/// `COOLDOWN_SPREAD` ticks.
pub const COOLDOWN_BASE: u16 = 400;

pub const COOLDOWN_SPREAD: u16 = 200;

/// One plane: position in hundredths of a column, row, speed, and the
/// positions it held on the most recent ticks, newest first.
pub struct Airplane {
    pub x: u32,
    pub y: u16,
    pub speed: u32,
    pub trail_positions: Vec<u32>,
}

/// What a plane is, as a value.
pub struct PlaneState {
    pub x: int,
    pub y: int,
    pub speed: int,
    pub trail: Seq<u32>,
}

pub open spec fn plane_state(x: int, y: int, speed: int, trail: Seq<u32>) -> PlaneState {
    PlaneState { x: x, y: y, speed: speed, trail: trail }
}

impl Airplane {
    pub open spec fn view(&self) -> PlaneState {
        plane_state(self.x as int, self.y as int, self.speed as int, self.trail_positions@)
    }
}

/// The random values one tick may use.
#[derive(Clone, Copy, Debug)]
pub struct SpawnDraws {
    /// Decides whether a plane appears.
    pub chance: u32,
    /// Picks the new plane's row.
    pub row: u16,
    /// Picks the new plane's speed.
    pub speed: u32,
    /// Picks the cooldown after a spawn.
    pub cooldown: u16,
}

pub open spec fn views(planes: Seq<Airplane>) -> Seq<PlaneState>
    decreases planes.len(),
{
    if planes.len() == 0 {
        Seq::empty()
    } else {
        views(planes.drop_last()).push(planes.last().view())
    }
}

/// A plane is on screen while its column is between the left and right
/// edges and its row between the top and the bottom.
pub open spec fn visible(p: PlaneState, width: int, height: int) -> bool {
    0 <= p.x < STEPS_PER_COLUMN * width && 0 <= p.y < height
}

/// `v` recorded as the newest trail position; the oldest one beyond the
/// capacity is dropped.
pub open spec fn push_trail(t: Seq<u32>, v: u32) -> Seq<u32> {
    let s = seq![v] + t;
    if s.len() > TRAIL_CAPACITY {
        s.take(TRAIL_CAPACITY as int)
    } else {
        s
    }
}

/// A plane one tick later.
pub open spec fn step_plane(p: PlaneState) -> PlaneState {
    plane_state(p.x + p.speed, p.y, p.speed, push_trail(p.trail, (p.x + p.speed) as u32))
}

/// The planes after one tick of movement, without those that left the
/// screen, in their old order.
pub open spec fn survivors(ps: Seq<PlaneState>, width: int, height: int) -> Seq<PlaneState>
    decreases ps.len(),
{
    if ps.len() == 0 {
        Seq::empty()
    } else {
        let rest = survivors(ps.drop_last(), width, height);
        let p = step_plane(ps.last());
        if visible(p, width, height) {
            rest.push(p)
        } else {
            rest
        }
    }
}

/// The cooldown after it has counted down one tick.
pub open spec fn counted_down(cooldown: u16) -> u16 {
    if cooldown > 0 {
        (cooldown - 1) as u16
    } else {
        0
    }
}

/// Whether a plane appears this tick: the cooldown has run out, the chance
/// draw falls under the threshold, and the screen has a column and a top
/// quarter to put it in.
pub open spec fn spawns(cooldown: u16, width: int, height: int, d: SpawnDraws) -> bool {
    &&& counted_down(cooldown) == 0
    &&& d.chance % SPAWN_CHANCE_SCALE < SPAWN_CHANCE
    &&& width > 0
    &&& height / 4 > 0
}

/// The plane that appears: at the left edge, on a row of the top quarter,
/// at a speed between the slowest and the fastest, with no trail yet.
pub open spec fn spawned(height: int, d: SpawnDraws) -> PlaneState {
    plane_state(
        0,
        d.row as int % (height / 4),
        MIN_SPEED + d.speed as int % (MAX_SPEED - MIN_SPEED + 1),
        Seq::empty(),
    )
}

/// The population after one tick.
pub open spec fn tick_planes(
    ps: Seq<PlaneState>,
    cooldown: u16,
    width: int,
    height: int,
    d: SpawnDraws,
) -> Seq<PlaneState> {
    let kept = survivors(ps, width, height);
    if spawns(cooldown, width, height, d) {
        kept.push(spawned(height, d))
    } else {
        kept
    }
}

/// The cooldown after one tick.
pub open spec fn tick_cooldown(cooldown: u16, width: int, height: int, d: SpawnDraws) -> u16 {
    if spawns(cooldown, width, height, d) {
        (COOLDOWN_BASE + d.cooldown % COOLDOWN_SPREAD) as u16
    } else {
        counted_down(cooldown)
    }
}

/// Once the cooldown has run out and the chance draw falls under the
/// threshold, on a screen with a column and a top quarter, a tick keeps the
/// planes still on screen and adds exactly one, at the left edge, on a row
/// of the top quarter, with a speed in the band and no trail; the cooldown
/// restarts at 400 to 599 ticks.
pub proof fn lemma_forced_spawn_adds_one(
    ps: Seq<PlaneState>,
    cooldown: u16,
    width: int,
    height: int,
    d: SpawnDraws,
)
    requires
        cooldown <= 1,
        d.chance % SPAWN_CHANCE_SCALE < SPAWN_CHANCE,
        width > 0,
        height >= 4,
    ensures
        tick_planes(ps, cooldown, width, height, d).len() == survivors(ps, width, height).len()
            + 1,
        tick_planes(ps, cooldown, width, height, d).drop_last() == survivors(ps, width, height),
        tick_planes(ps, cooldown, width, height, d).last().x == 0,
        0 <= tick_planes(ps, cooldown, width, height, d).last().y < height / 4,
        MIN_SPEED <= tick_planes(ps, cooldown, width, height, d).last().speed <= MAX_SPEED,
        tick_planes(ps, cooldown, width, height, d).last().trail.len() == 0,
        COOLDOWN_BASE <= tick_cooldown(cooldown, width, height, d) < COOLDOWN_BASE
            + COOLDOWN_SPREAD,
{
    let kept = survivors(ps, width, height);
    assert(kept.push(spawned(height, d)).drop_last() =~= kept);
}

pub open spec fn plane_ok(p: PlaneState, width: int, height: int) -> bool {
    &&& visible(p, width, height)
    &&& 0 <= p.speed <= MAX_SPEED
    &&& p.trail.len() <= TRAIL_CAPACITY
    &&& forall|k: int| 0 <= k < p.trail.len() ==> #[trigger] p.trail[k] <= p.x
}

pub proof fn lemma_views_push(s: Seq<Airplane>, a: Airplane)
    ensures
        views(s.push(a)) == views(s).push(a.view()),
{
    assert(s.push(a).drop_last() =~= s);
}

pub proof fn lemma_views_index(s: Seq<Airplane>, i: int)
    requires
        0 <= i < s.len(),
    ensures
        views(s).len() == s.len(),
        views(s)[i] == s[i].view(),
    decreases s.len(),
{
    lemma_views_len(s);
    if i < s.len() - 1 {
        lemma_views_index(s.drop_last(), i);
    }
}

pub proof fn lemma_views_len(s: Seq<Airplane>)
    ensures
        views(s).len() == s.len(),
    decreases s.len(),
{
    if s.len() > 0 {
        lemma_views_len(s.drop_last());
    }
}

proof fn lemma_survivors_ok(ps: Seq<PlaneState>, width: int, height: int)
    requires
        forall|i: int| 0 <= i < ps.len() ==> 0 <= #[trigger] ps[i].speed <= MAX_SPEED,
        forall|i: int|
            0 <= i < ps.len() ==> forall|k: int|
                0 <= k < (#[trigger] ps[i]).trail.len() ==> #[trigger] ps[i].trail[k] <= ps[i].x,
        forall|i: int| 0 <= i < ps.len() ==> 0 <= #[trigger] ps[i].x < u32::MAX - MAX_SPEED,
    ensures
        forall|i: int|
            0 <= i < survivors(ps, width, height).len() ==> plane_ok(
                #[trigger] survivors(ps, width, height)[i],
                width,
                height,
            ),
    decreases ps.len(),
{
    if ps.len() > 0 {
        let q = ps.drop_last();
        assert forall|i: int| 0 <= i < q.len() implies 0 <= #[trigger] q[i].speed <= MAX_SPEED by {
            assert(q[i] == ps[i]);
        }
        assert forall|i: int|
            0 <= i < q.len() implies forall|k: int|
                0 <= k < (#[trigger] q[i]).trail.len() ==> #[trigger] q[i].trail[k] <= q[i].x by {
            assert(q[i] == ps[i]);
        }
        assert forall|i: int| 0 <= i < q.len() implies 0 <= #[trigger] q[i].x < u32::MAX
            - MAX_SPEED by {
            assert(q[i] == ps[i]);
        }
        lemma_survivors_ok(q, width, height);
        let last = ps.last();
        assert(last == ps[ps.len() - 1]);
        let p = step_plane(last);
        let s = seq![(last.x + last.speed) as u32] + last.trail;
        assert(((last.x + last.speed) as u32) as int == last.x + last.speed);
        assert forall|k: int| 0 <= k < p.trail.len() implies #[trigger] p.trail[k] <= p.x by {
            if s.len() > TRAIL_CAPACITY {
                assert(p.trail[k] == s[k]);
            }
            if k > 0 {
                assert(s[k] == last.trail[k - 1]);
            }
        }
        assert(plane_ok(p, width, height) <== visible(p, width, height));
        let rest = survivors(q, width, height);
        assert forall|i: int|
            0 <= i < survivors(ps, width, height).len() implies plane_ok(
                #[trigger] survivors(ps, width, height)[i],
                width,
                height,
            ) by {
            if i < rest.len() {
                assert(survivors(ps, width, height)[i] == rest[i]);
            }
        }
    }
}

/// Row `i` of the airplane art.
pub open spec fn airplane_line(i: int) -> Seq<char> {
    if i == 0 {
        "           _"@
    } else if i == 1 {
        "         -=\\`\\"@
    } else if i == 2 {
        "     |\\ ____\\_\\__"@
    } else if i == 3 {
        "   -=\\c`\"\"\"\"\"\"\" \"`)"@
    } else if i == 4 {
        "      `~~~~~/ /~~`"@
    } else if i == 5 {
        "        -==/ /"@
    } else {
        "          '-'"@
    }
}

/// Windows cyan, struts blue, underside dark grey, wings grey, the rest
/// white.
pub open spec fn plane_color(ch: char) -> Color {
    if ch == '"' {
        Color::Cyan
    } else if ch == '\\' {
        Color::Blue
    } else if ch == '_' {
        Color::DarkGrey
    } else if ch == '~' {
        Color::Grey
    } else {
        Color::White
    }
}

/// Trail dot `i` (0 the newest) fades with age.
pub open spec fn trail_glyph(i: int) -> char {
    if i <= 5 {
        '.'
    } else {
        '·'
    }
}

pub open spec fn trail_color(i: int) -> Color {
    if i <= 1 {
        Color::White
    } else if i <= 3 {
        Color::Grey
    } else {
        Color::DarkGrey
    }
}

/// The writes of the first `text.len()` characters of an art row at
/// (`x`, `y`); spaces are transparent.
pub open spec fn sprite_row_puts(x: int, y: int, text: Seq<char>) -> Seq<Put>
    decreases text.len(),
{
    if text.len() == 0 {
        Seq::empty()
    } else {
        let rest = sprite_row_puts(x, y, text.drop_last());
        let ch = text.last();
        if ch == ' ' {
            rest
        } else {
            rest.push(put_at(x + text.len() - 1, y, ch, plane_color(ch)))
        }
    }
}

/// The writes of the first `n` rows of the airplane art at (`x`, `y`).
pub open spec fn art_puts(x: int, y: int, n: int) -> Seq<Put>
    decreases n,
{
    if n <= 0 {
        Seq::empty()
    } else {
        art_puts(x, y, n - 1) + sprite_row_puts(x, y + n - 1, airplane_line(n - 1))
    }
}

/// The writes of the first `n` dots of `trail` on row `row`.
pub open spec fn trail_puts(trail: Seq<u32>, n: int, row: int) -> Seq<Put>
    decreases n,
{
    if n <= 0 {
        Seq::empty()
    } else {
        trail_puts(trail, n - 1, row).push(
            put_at(
                trail[n - 1] as int / STEPS_PER_COLUMN as int,
                row,
                trail_glyph(n - 1),
                trail_color(n - 1),
            ),
        )
    }
}

/// The writes of one plane: its trail three rows below its top, then its
/// art from its column and row.
pub open spec fn plane_puts(p: PlaneState) -> Seq<Put> {
    trail_puts(p.trail, p.trail.len() as int, p.y + 3) + art_puts(
        p.x / STEPS_PER_COLUMN as int,
        p.y,
        7,
    )
}

/// The writes of the first `n` planes of `ps`, oldest first.
pub open spec fn planes_puts(ps: Seq<PlaneState>, n: int) -> Seq<Put>
    decreases n,
{
    if n <= 0 {
        Seq::empty()
    } else {
        planes_puts(ps, n - 1) + plane_puts(ps[n - 1])
    }
}

fn plane_color_of(ch: char) -> (c: Color)
    ensures
        c == plane_color(ch),
{
    if ch == '"' {
        Color::Cyan
    } else if ch == '\\' {
        Color::Blue
    } else if ch == '_' {
        Color::DarkGrey
    } else if ch == '~' {
        Color::Grey
    } else {
        Color::White
    }
}

fn airplane_art() -> (r: Vec<&'static str>)
    ensures
        r@.len() == 7,
        forall|i: int| 0 <= i < 7 ==> #[trigger] r@[i]@ == airplane_line(i),
{
    let mut r: Vec<&'static str> = Vec::new();
    r.push("           _");
    r.push("         -=\\`\\");
    r.push("     |\\ ____\\_\\__");
    r.push("   -=\\c`\"\"\"\"\"\"\" \"`)");
    r.push("      `~~~~~/ /~~`");
    r.push("        -==/ /");
    r.push("          '-'");
    r
}

/// Draws one art row with its spaces left transparent.
fn render_sprite_row(renderer: &mut GridRenderer, x: u32, y: u32, text: &str)
    requires
        old(renderer).wf(),
    ensures
        final(renderer).wf(),
        final(renderer).cols() == old(renderer).cols(),
        final(renderer).rows() == old(renderer).rows(),
        final(renderer).shown() == old(renderer).shown(),
        final(renderer).full_pending() == old(renderer).full_pending(),
        final(renderer).cells() == old(renderer).drawn(sprite_row_puts(x as int, y as int, text@)),
{
    let ghost g0 = renderer.cells();
    let ghost w = renderer.cols();
    let ghost h = renderer.rows();
    let mut j: u32 = 0;
    proof {
        renderer.lemma_size_bounds();
    }
    for ch in it: text.chars()
        invariant
            renderer.wf(),
            renderer.cols() == w,
            renderer.rows() == h,
            renderer.shown() == old(renderer).shown(),
            renderer.full_pending() == old(renderer).full_pending(),
            g0 == old(renderer).cells(),
            w <= u16::MAX,
            h <= u16::MAX,
            it.seq() == text@,
            j == if it.index() < u32::MAX {
                it.index() as int
            } else {
                u32::MAX as int
            },
            renderer.cells() == apply_puts(
                g0,
                w,
                h,
                sprite_row_puts(x as int, y as int, text@.take(it.index() as int)),
            ),
    {
        let ghost k = it.index() as int;
        let ghost p = put_at(x + k, y as int, ch, plane_color(ch));
        let ghost before = sprite_row_puts(x as int, y as int, text@.take(k));
        assert(k < text@.len() && text@[k] == ch);
        proof {
            assert(text@.take(k + 1).drop_last() =~= text@.take(k));
            assert(text@.take(k + 1).last() == ch);
        }
        if ch != ' ' {
            let color = plane_color_of(ch);
            if j < u32::MAX && x as u64 + j as u64 <= u32::MAX as u64 {
                renderer.render_char(x + j, y, ch, color);
            } else {
                assert(!(p.x < w));
            }
            proof {
                lemma_apply_puts_push(g0, w, h, before, p);
            }
        }
        if j < u32::MAX {
            j = j + 1;
        }
    }
    proof {
        assert(text@.take(text@.len() as int) =~= text@);
    }
}

pub struct AirplaneSystem {
    planes: Vec<Airplane>,
    terminal_width: u16,
    terminal_height: u16,
    spawn_cooldown: u16,
}

impl AirplaneSystem {
    /// The planes, oldest first.
    pub closed spec fn planes(&self) -> Seq<PlaneState> {
        views(self.planes@)
    }

    pub closed spec fn cooldown(&self) -> u16 {
        self.spawn_cooldown
    }

    /// The bounds passed to the most recent update (or to `new`).
    pub closed spec fn bounds(&self) -> (int, int) {
        (self.terminal_width as int, self.terminal_height as int)
    }

    /// Every plane is on screen within the last bounds, no faster than the
    /// fastest speed, with at most `TRAIL_CAPACITY` trail positions, none
    /// ahead of the plane.
    pub closed spec fn wf(&self) -> bool {
        &&& self.terminal_width <= u16::MAX
        &&& forall|i: int|
            0 <= i < self.planes().len() ==> plane_ok(
                #[trigger] self.planes()[i],
                self.bounds().0,
                self.bounds().1,
            )
    }

    /// Every plane of a population that `new` and `update` keep lies on the
    /// screen given by the most recent bounds, and its trail holds at most
    /// `TRAIL_CAPACITY` positions.
    pub proof fn lemma_planes_on_screen(&self)
        requires
            self.wf(),
        ensures
            forall|i: int|
                0 <= i < self.planes().len() ==> visible(
                    #[trigger] self.planes()[i],
                    self.bounds().0,
                    self.bounds().1,
                ) && self.planes()[i].trail.len() <= TRAIL_CAPACITY,
    {
        assert forall|i: int| 0 <= i < self.planes().len() implies visible(
            #[trigger] self.planes()[i],
            self.bounds().0,
            self.bounds().1,
        ) && self.planes()[i].trail.len() <= TRAIL_CAPACITY by {
            assert(plane_ok(self.planes()[i], self.bounds().0, self.bounds().1));
        }
    }

    pub fn new(terminal_width: u16, terminal_height: u16) -> (r: Self)
        ensures
            r.wf(),
            r.planes() == Seq::<PlaneState>::empty(),
            r.cooldown() == 0,
            r.bounds() == (terminal_width as int, terminal_height as int),
    {
        AirplaneSystem {
            planes: Vec::new(),
            terminal_width,
            terminal_height,
            spawn_cooldown: 0,
        }
    }

    pub fn len(&self) -> (r: usize)
        ensures
            r == self.planes().len(),
    {
        proof {
            lemma_views_len(self.planes@);
        }
        self.planes.len()
    }

    pub fn cooldown_ticks(&self) -> (r: u16)
        ensures
            r == self.cooldown(),
    {
        self.spawn_cooldown
    }

    /// Sets the ticks left until a plane may appear.
    pub fn set_cooldown(&mut self, ticks: u16)
        requires
            old(self).wf(),
        ensures
            final(self).wf(),
            final(self).planes() == old(self).planes(),
            final(self).bounds() == old(self).bounds(),
            final(self).cooldown() == ticks,
    {
        self.spawn_cooldown = ticks;
        assert(self.planes() == old(self).planes());
        assert(self.bounds() == old(self).bounds());
    }

    /// Plane `i`: column, row, and trail length.
    pub fn plane_at(&self, i: usize) -> (r: (u16, u16, usize))
        requires
            self.wf(),
            i < self.planes().len(),
        ensures
            r.0 == self.planes()[i as int].x / STEPS_PER_COLUMN as int,
            r.1 == self.planes()[i as int].y,
            r.2 == self.planes()[i as int].trail.len(),
    {
        proof {
            lemma_views_len(self.planes@);
            lemma_views_index(self.planes@, i as int);
        }
        let p = &self.planes[i];
        assert(p.x < STEPS_PER_COLUMN * self.terminal_width);
        ((p.x / STEPS_PER_COLUMN) as u16, p.y, p.trail_positions.len())
    }

    /// One tick with the random values `d`: every plane moves by its speed
    /// and records its position in its trail; planes that left the
    /// `terminal_width` by `terminal_height` screen are removed; then, if
    /// the cooldown has run out and the chance draw is under the threshold,
    /// one plane appears and the cooldown restarts.
    pub fn update_with(&mut self, terminal_width: u16, terminal_height: u16, d: SpawnDraws)
        requires
            old(self).wf(),
        ensures
            final(self).wf(),
            final(self).bounds() == (terminal_width as int, terminal_height as int),
            final(self).planes() == tick_planes(
                old(self).planes(),
                old(self).cooldown(),
                terminal_width as int,
                terminal_height as int,
                d,
            ),
            final(self).cooldown() == tick_cooldown(
                old(self).cooldown(),
                terminal_width as int,
                terminal_height as int,
                d,
            ),
    {
        let ghost old_views = self.planes();
        let ghost w = terminal_width as int;
        let ghost h = terminal_height as int;
        proof {
            lemma_views_len(self.planes@);
            assert forall|i: int| 0 <= i < old_views.len() implies 0 <= #[trigger] old_views[i].x
                < u32::MAX - MAX_SPEED by {
                assert(plane_ok(old_views[i], self.bounds().0, self.bounds().1));
                lemma_views_index(self.planes@, i);
            }
            lemma_survivors_ok(old_views, w, h);
        }
        let mut kept: Vec<Airplane> = Vec::new();
        let mut old_planes: Vec<Airplane> = Vec::new();
        std::mem::swap(&mut old_planes, &mut self.planes);
        let n = old_planes.len();
        let mut i: usize = 0;
        while i < n
            invariant
                n == old_planes.len(),
                i <= n,
                views(old_planes@) == old_views,
                old_views.len() == n,
                forall|k: int| 0 <= k < n ==> plane_ok(#[trigger] old_views[k], self.bounds().0, self.bounds().1),
                self.terminal_width <= u16::MAX,
                views(kept@) == survivors(old_views.take(i as int), w, h),
                w == terminal_width,
                h == terminal_height,
            decreases n - i,
        {
            proof {
                lemma_views_index(old_planes@, i as int);
            }
            let p = &old_planes[i];
            assert(p.x < STEPS_PER_COLUMN * self.terminal_width);
            let x = p.x + p.speed;
            let trail = pushed_trail(&p.trail_positions, x);
            let q = Airplane { x, y: p.y, speed: p.speed, trail_positions: trail };
            proof {
                assert(old_views.take(i + 1).drop_last() =~= old_views.take(i as int));
                assert(old_views.take(i + 1).last() == old_views[i as int]);
                assert(q.view() == step_plane(old_views[i as int]));
                let sv = survivors(old_views.take(i + 1), w, h);
                let prev = survivors(old_views.take(i as int), w, h);
                if visible(q.view(), w, h) {
                    assert(sv == prev.push(q.view()));
                } else {
                    assert(sv == prev);
                }
            }
            let vis = x < STEPS_PER_COLUMN * terminal_width as u32 && p.y < terminal_height;
            assert(q.view().x == x as int);
            assert(q.view().y == p.y as int);
            assert(vis == visible(q.view(), w, h));
            let ghost qv = q.view();
            let ghost before = kept@;
            if vis {
                proof {
                    lemma_views_push(kept@, q);
                }
                kept.push(q);
                assert(views(kept@) == views(before).push(qv));
            }
            i = i + 1;
        }
        proof {
            assert(old_views.take(n as int) =~= old_views);
        }
        self.planes = kept;
        self.terminal_width = terminal_width;
        self.terminal_height = terminal_height;
        self.spawn_cooldown = if self.spawn_cooldown > 0 {
            self.spawn_cooldown - 1
        } else {
            0
        };
        if self.spawn_cooldown == 0 && d.chance % SPAWN_CHANCE_SCALE < SPAWN_CHANCE
            && terminal_width > 0 && terminal_height / 4 > 0 {
            let row = d.row % (terminal_height / 4);
            let speed = MIN_SPEED + d.speed % (MAX_SPEED - MIN_SPEED + 1);
            let plane = Airplane { x: 0, y: row, speed, trail_positions: Vec::new() };
            proof {
                lemma_views_push(self.planes@, plane);
                assert(plane.view() == spawned(h, d));
            }
            self.planes.push(plane);
            self.spawn_cooldown = COOLDOWN_BASE + d.cooldown % COOLDOWN_SPREAD;
        }
        proof {
            let ps = self.planes();
            assert forall|k: int| 0 <= k < ps.len() implies plane_ok(
                #[trigger] ps[k],
                self.bounds().0,
                self.bounds().1,
            ) by {
                let kept_views = survivors(old_views, w, h);
                if k < kept_views.len() {
                    assert(ps[k] == kept_views[k]);
                }
            }
        }
    }

    /// Draws every plane, oldest first: its trail dots, then its art.
    pub fn render(&self, renderer: &mut GridRenderer)
        requires
            old(renderer).wf(),
            self.wf(),
        ensures
            final(renderer).wf(),
            final(renderer).cols() == old(renderer).cols(),
            final(renderer).rows() == old(renderer).rows(),
            final(renderer).shown() == old(renderer).shown(),
            final(renderer).full_pending() == old(renderer).full_pending(),
            final(renderer).cells() == old(renderer).drawn(
                planes_puts(self.planes(), self.planes().len() as int),
            ),
    {
        let ghost g0 = renderer.cells();
        let ghost w = renderer.cols();
        let ghost h = renderer.rows();
        let ghost ps = self.planes();
        let art = airplane_art();
        proof {
            lemma_views_len(self.planes@);
        }
        let mut i: usize = 0;
        while i < self.planes.len()
            invariant
                i <= self.planes@.len(),
                ps == self.planes(),
                ps.len() == self.planes@.len(),
                self.wf(),
                art@.len() == 7,
                forall|k: int| 0 <= k < 7 ==> #[trigger] art@[k]@ == airplane_line(k),
                renderer.wf(),
                renderer.cols() == w,
                renderer.rows() == h,
                renderer.shown() == old(renderer).shown(),
                renderer.full_pending() == old(renderer).full_pending(),
                g0 == old(renderer).cells(),
                renderer.cells() == apply_puts(g0, w, h, planes_puts(ps, i as int)),
            decreases self.planes@.len() - i,
        {
            proof {
                lemma_views_index(self.planes@, i as int);
                assert(plane_ok(ps[i as int], self.bounds().0, self.bounds().1));
            }
            let plane = &self.planes[i];
            let ghost pv = ps[i as int];
            let ghost g1 = renderer.cells();
            let row = plane.y as u32 + 3;
            let mut t: usize = 0;
            while t < plane.trail_positions.len()
                invariant
                    t <= plane.trail_positions@.len(),
                    pv == plane.view(),
                    row == pv.y + 3,
                    renderer.wf(),
                    renderer.cols() == w,
                    renderer.rows() == h,
                    renderer.shown() == old(renderer).shown(),
                    renderer.full_pending() == old(renderer).full_pending(),
                    renderer.cells() == apply_puts(g1, w, h, trail_puts(pv.trail, t as int, row as int)),
                decreases plane.trail_positions@.len() - t,
            {
                let col = plane.trail_positions[t] / STEPS_PER_COLUMN;
                let glyph = if t <= 5 {
                    '.'
                } else {
                    '·'
                };
                let color = if t <= 1 {
                    Color::White
                } else if t <= 3 {
                    Color::Grey
                } else {
                    Color::DarkGrey
                };
                renderer.render_char(col, row, glyph, color);
                proof {
                    lemma_apply_puts_push(
                        g1,
                        w,
                        h,
                        trail_puts(pv.trail, t as int, row as int),
                        put_at(col as int, row as int, trail_glyph(t as int), trail_color(t as int)),
                    );
                }
                t = t + 1;
            }
            let ghost g2 = renderer.cells();
            let x = plane.x / STEPS_PER_COLUMN;
            let mut r: usize = 0;
            while r < 7
                invariant
                    r <= 7,
                    pv == plane.view(),
                    x == pv.x / STEPS_PER_COLUMN as int,
                    art@.len() == 7,
                    forall|k: int| 0 <= k < 7 ==> #[trigger] art@[k]@ == airplane_line(k),
                    renderer.wf(),
                    renderer.cols() == w,
                    renderer.rows() == h,
                    renderer.shown() == old(renderer).shown(),
                    renderer.full_pending() == old(renderer).full_pending(),
                    renderer.cells() == apply_puts(g2, w, h, art_puts(x as int, pv.y, r as int)),
                decreases 7 - r,
            {
                render_sprite_row(renderer, x, plane.y as u32 + r as u32, art[r]);
                proof {
                    lemma_apply_puts_concat(
                        g2,
                        w,
                        h,
                        art_puts(x as int, pv.y, r as int),
                        sprite_row_puts(x as int, pv.y + r, airplane_line(r as int)),
                    );
                }
                r = r + 1;
            }
            proof {
                let tp = trail_puts(pv.trail, pv.trail.len() as int, pv.y + 3);
                let ap = art_puts(x as int, pv.y, 7);
                lemma_apply_puts_concat(g1, w, h, tp, ap);
                lemma_apply_puts_concat(g0, w, h, planes_puts(ps, i as int), tp + ap);
            }
            i = i + 1;
        }
    }

    /// One tick with values drawn from the random generator: what
    /// `update_with` does for some draws.
    pub fn update(&mut self, terminal_width: u16, terminal_height: u16)
        requires
            old(self).wf(),
        ensures
            final(self).wf(),
            final(self).bounds() == (terminal_width as int, terminal_height as int),
            exists|d: SpawnDraws|
                #![trigger tick_planes(
                    old(self).planes(),
                    old(self).cooldown(),
                    terminal_width as int,
                    terminal_height as int,
                    d,
                )]
                final(self).planes() == tick_planes(
                    old(self).planes(),
                    old(self).cooldown(),
                    terminal_width as int,
                    terminal_height as int,
                    d,
                ) && final(self).cooldown() == tick_cooldown(
                    old(self).cooldown(),
                    terminal_width as int,
                    terminal_height as int,
                    d,
                ),
    {
        let d = SpawnDraws {
            chance: rand::random::<u32>(),
            row: rand::random::<u16>(),
            speed: rand::random::<u32>(),
            cooldown: rand::random::<u16>(),
        };
        self.update_with(terminal_width, terminal_height, d);
    }
}

/// `v` put in front of the trail `t`, which is then cut to its capacity.
fn pushed_trail(t: &Vec<u32>, v: u32) -> (r: Vec<u32>)
    ensures
        r@ == push_trail(t@, v),
{
    let mut r: Vec<u32> = Vec::new();
    r.push(v);
    let mut i: usize = 0;
    while i < t.len() && r.len() < TRAIL_CAPACITY
        invariant
            i <= t.len(),
            r@.len() == i + 1,
            r@.len() <= TRAIL_CAPACITY,
            r@ == (seq![v] + t@).take(i + 1),
        decreases t.len() - i,
    {
        r.push(t[i]);
        i = i + 1;
        assert(r@ =~= (seq![v] + t@).take(i + 1));
    }
    if i == t.len() {
        assert((seq![v] + t@).take(i + 1) =~= seq![v] + t@);
    } else {
        assert(r@.len() == TRAIL_CAPACITY);
    }
    assert(r@ =~= push_trail(t@, v));
    r
}

} // verus!
