//! Double-buffered character grid: draws go into the current frame, and
//! `flush` lists the terminal operations that turn the frame shown last
//! into the current one.
use vstd::arithmetic::div_mod::lemma_fundamental_div_mod_converse;
use vstd::prelude::*;

verus! {

/// Foreground colour of a cell.
#[derive(Clone, Copy, PartialEq, Eq, Structural, Debug)]
pub enum Color {
    Reset,
    White,
    Grey,
    DarkGrey,
    Red,
    DarkRed,
    Green,
    DarkGreen,
    Blue,
    DarkBlue,
    Cyan,
    Magenta,
    Yellow,
    Rgb { r: u8, g: u8, b: u8 },
}

/// One character position of the grid.
#[derive(Clone, Copy, PartialEq, Eq, Structural, Debug)]
pub struct Cell {
    pub ch: char,
    pub color: Color,
}

/// The blank cell: a space in the terminal's default colour.
pub open spec fn blank_cell() -> Cell {
    Cell { ch: ' ', color: Color::Reset }
}

/// One terminal operation emitted by `flush`.
#[derive(Clone, Copy, PartialEq, Eq, Structural, Debug)]
pub enum DrawOp {
    MoveTo { x: u16, y: u16 },
    SetColor(Color),
    Print(char),
}

/// A single cell write, at any (possibly off-grid) coordinate.
pub struct Put {
    pub x: int,
    pub y: int,
    pub ch: char,
    pub color: Color,
}

/// The cell holding `ch` in `color`.
pub open spec fn cell_of(ch: char, color: Color) -> Cell {
    Cell { ch: ch, color: color }
}

/// The write of `ch` in `color` at column `x`, row `y`.
pub open spec fn put_at(x: int, y: int, ch: char, color: Color) -> Put {
    Put { x: x, y: y, ch: ch, color: color }
}

/// The grid `g` (row-major, `w` columns, `h` rows) after one cell write;
/// a write outside the grid leaves it as it was.
pub open spec fn put_cell(g: Seq<Cell>, w: int, h: int, p: Put) -> Seq<Cell> {
    if 0 <= p.x < w && 0 <= p.y < h && p.y * w + p.x < g.len() {
        g.update(p.y * w + p.x, cell_of(p.ch, p.color))
    } else {
        g
    }
}

/// The grid after a sequence of cell writes, applied in order.
pub open spec fn apply_puts(g: Seq<Cell>, w: int, h: int, puts: Seq<Put>) -> Seq<Cell>
    decreases puts.len(),
{
    if puts.len() == 0 {
        g
    } else {
        put_cell(apply_puts(g, w, h, puts.drop_last()), w, h, puts.last())
    }
}

/// The writes of a text row: character `j` goes to column `x + j`.
pub open spec fn line_puts(x: int, y: int, text: Seq<char>, color: Color) -> Seq<Put>
    decreases text.len(),
{
    if text.len() == 0 {
        Seq::empty()
    } else {
        line_puts(x, y, text.drop_last(), color).push(
            put_at(x + text.len() - 1, y, text.last(), color),
        )
    }
}

/// The writes of a block of text rows, row `i` at row `y + i`, all from
/// column `x`: the first `n` rows of `lines`.
pub open spec fn block_puts(x: int, y: int, lines: Seq<Seq<char>>, n: int, color: Color) -> Seq<
    Put,
>
    decreases n,
{
    if n <= 0 {
        Seq::empty()
    } else {
        block_puts(x, y, lines, n - 1, color) + line_puts(x, y + n - 1, lines[n - 1], color)
    }
}

/// The text of each row of a block.
pub open spec fn texts(lines: Seq<&str>) -> Seq<Seq<char>> {
    lines.map_values(|s: &str| s@)
}

pub proof fn lemma_apply_puts_push(g: Seq<Cell>, w: int, h: int, puts: Seq<Put>, p: Put)
    ensures
        apply_puts(g, w, h, puts.push(p)) == put_cell(apply_puts(g, w, h, puts), w, h, p),
{
    assert(puts.push(p).drop_last() =~= puts);
}

pub proof fn lemma_apply_puts_concat(g: Seq<Cell>, w: int, h: int, a: Seq<Put>, b: Seq<Put>)
    ensures
        apply_puts(g, w, h, a + b) == apply_puts(apply_puts(g, w, h, a), w, h, b),
    decreases b.len(),
{
    if b.len() == 0 {
        assert(a + b =~= a);
    } else {
        assert((a + b).drop_last() =~= a + b.drop_last());
        lemma_apply_puts_concat(g, w, h, a, b.drop_last());
    }
}

/// Writes that all fall below the last row change nothing.
pub proof fn lemma_puts_off_grid(g: Seq<Cell>, w: int, h: int, puts: Seq<Put>)
    requires
        forall|k: int| 0 <= k < puts.len() ==> #[trigger] puts[k].y >= h,
    ensures
        apply_puts(g, w, h, puts) == g,
    decreases puts.len(),
{
    if puts.len() > 0 {
        assert(puts.last() == puts[puts.len() - 1]);
        lemma_puts_off_grid(g, w, h, puts.drop_last());
    }
}

pub proof fn lemma_line_puts_row(x: int, y: int, text: Seq<char>, color: Color)
    ensures
        line_puts(x, y, text, color).len() == text.len(),
        forall|k: int| 0 <= k < text.len() ==> #[trigger] line_puts(x, y, text, color)[k].y == y,
    decreases text.len(),
{
    if text.len() > 0 {
        lemma_line_puts_row(x, y, text.drop_last(), color);
        let a = line_puts(x, y, text.drop_last(), color);
        assert forall|k: int| 0 <= k < text.len() implies #[trigger] line_puts(x, y, text, color)[k].y == y by {
            if k < text.len() - 1 {
                assert(line_puts(x, y, text, color)[k] == a[k]);
            }
        }
    }
}

pub proof fn lemma_apply_puts_len(g: Seq<Cell>, w: int, h: int, puts: Seq<Put>)
    ensures
        apply_puts(g, w, h, puts).len() == g.len(),
    decreases puts.len(),
{
    if puts.len() > 0 {
        lemma_apply_puts_len(g, w, h, puts.drop_last());
        let p = puts.last();
        let g1 = apply_puts(g, w, h, puts.drop_last());
        assert(apply_puts(g, w, h, puts) == put_cell(g1, w, h, p));
        if 0 <= p.x < w && 0 <= p.y < h && p.y * w + p.x < g1.len() {
            assert(0 <= p.y * w + p.x) by (nonlinear_arith)
                requires
                    0 <= p.x,
                    0 <= p.y,
                    0 < w,
            ;
        }
    }
}

/// The operations that bring cells `i..` of the screen from `prev` to `cur`,
/// given where the terminal cursor stands and which colour was set last.
/// A cell is emitted when it changed or when `full` asks for a repaint; the
/// cursor is moved only where it does not already stand, and the colour is
/// set only where it differs from the last one set.
pub open spec fn ops_from(
    prev: Seq<Cell>,
    cur: Seq<Cell>,
    w: int,
    full: bool,
    i: int,
    cursor: Option<(u16, u16)>,
    color: Option<Color>,
) -> Seq<DrawOp>
    decreases cur.len() - i,
{
    if i < 0 || i >= cur.len() || w <= 0 {
        Seq::empty()
    } else if full || prev[i] != cur[i] {
        let x = (i % w) as u16;
        let y = (i / w) as u16;
        let c = cur[i];
        let mv = if cursor == Some((x, y)) {
            Seq::empty()
        } else {
            seq![DrawOp::MoveTo { x, y }]
        };
        let cl = if color == Some(c.color) {
            Seq::empty()
        } else {
            seq![DrawOp::SetColor(c.color)]
        };
        mv + cl + seq![DrawOp::Print(c.ch)] + ops_from(
            prev,
            cur,
            w,
            full,
            i + 1,
            Some(((x + 1) as u16, y)),
            Some(c.color),
        )
    } else {
        ops_from(prev, cur, w, full, i + 1, cursor, color)
    }
}

/// The whole output of one flush, from a cursor and colour that are unknown.
pub open spec fn diff_ops(prev: Seq<Cell>, cur: Seq<Cell>, w: int, full: bool) -> Seq<DrawOp> {
    ops_from(prev, cur, w, full, 0, None, None)
}

/// The characters printed by a sequence of operations, in order.
pub open spec fn printed(ops: Seq<DrawOp>) -> Seq<char>
    decreases ops.len(),
{
    if ops.len() == 0 {
        Seq::empty()
    } else {
        let head = match ops[0] {
            DrawOp::Print(c) => seq![c],
            _ => Seq::empty(),
        };
        head + printed(ops.drop_first())
    }
}

/// The characters of a run of cells.
pub open spec fn chars_of(cells: Seq<Cell>) -> Seq<char> {
    cells.map_values(|c: Cell| c.ch)
}

pub proof fn lemma_printed_concat(a: Seq<DrawOp>, b: Seq<DrawOp>)
    ensures
        printed(a + b) == printed(a) + printed(b),
    decreases a.len(),
{
    if a.len() == 0 {
        assert(a + b =~= b);
    } else {
        assert((a + b).drop_first() =~= a.drop_first() + b);
        lemma_printed_concat(a.drop_first(), b);
        assert((a + b)[0] == a[0]);
    }
}

proof fn lemma_printed_single(op: DrawOp)
    ensures
        printed(seq![op]) == match op {
            DrawOp::Print(c) => seq![c],
            _ => Seq::<char>::empty(),
        },
{
    assert(seq![op].drop_first() =~= Seq::<DrawOp>::empty());
    assert(printed(Seq::<DrawOp>::empty()) == Seq::<char>::empty());
    assert(seq![op][0] == op);
    match op {
        DrawOp::Print(c) => assert(seq![c] + Seq::<char>::empty() =~= seq![c]),
        _ => assert(Seq::<char>::empty() + Seq::<char>::empty() =~= Seq::<char>::empty()),
    }
}

proof fn lemma_unchanged_emits_nothing(
    cur: Seq<Cell>,
    w: int,
    i: int,
    cursor: Option<(u16, u16)>,
    color: Option<Color>,
)
    ensures
        ops_from(cur, cur, w, false, i, cursor, color) == Seq::<DrawOp>::empty(),
    decreases cur.len() - i,
{
    if !(i < 0 || i >= cur.len() || w <= 0) {
        lemma_unchanged_emits_nothing(cur, w, i + 1, cursor, color);
    }
}

proof fn lemma_full_prints_every_cell(
    prev: Seq<Cell>,
    cur: Seq<Cell>,
    w: int,
    i: int,
    cursor: Option<(u16, u16)>,
    color: Option<Color>,
)
    requires
        w > 0,
        0 <= i <= cur.len(),
    ensures
        printed(ops_from(prev, cur, w, true, i, cursor, color)) == chars_of(
            cur.subrange(i, cur.len() as int),
        ),
    decreases cur.len() - i,
{
    if i == cur.len() {
        assert(chars_of(cur.subrange(i, cur.len() as int)) =~= Seq::<char>::empty());
        assert(printed(Seq::<DrawOp>::empty()) == Seq::<char>::empty());
    } else {
        let x = (i % w) as u16;
        let y = (i / w) as u16;
        let c = cur[i];
        let mv = if cursor == Some((x, y)) {
            Seq::empty()
        } else {
            seq![DrawOp::MoveTo { x, y }]
        };
        let cl = if color == Some(c.color) {
            Seq::empty()
        } else {
            seq![DrawOp::SetColor(c.color)]
        };
        let rest = ops_from(prev, cur, w, true, i + 1, Some(((x + 1) as u16, y)), Some(c.color));
        lemma_full_prints_every_cell(prev, cur, w, i + 1, Some(((x + 1) as u16, y)), Some(c.color));
        lemma_printed_concat(mv + cl + seq![DrawOp::Print(c.ch)], rest);
        lemma_printed_concat(mv + cl, seq![DrawOp::Print(c.ch)]);
        lemma_printed_concat(mv, cl);
        lemma_printed_single(DrawOp::Print(c.ch));
        if cursor != Some((x, y)) {
            lemma_printed_single(DrawOp::MoveTo { x, y });
        }
        if color != Some(c.color) {
            lemma_printed_single(DrawOp::SetColor(c.color));
        }
        assert(printed(Seq::<DrawOp>::empty()) == Seq::<char>::empty());
        assert(chars_of(cur.subrange(i, cur.len() as int)) =~= seq![c.ch] + chars_of(
            cur.subrange(i + 1, cur.len() as int),
        ));
        assert(printed(mv) + printed(cl) =~= Seq::<char>::empty());
        assert(printed(mv + cl) + seq![c.ch] =~= seq![c.ch]);
    }
}

/// A terminal: its screen, where its cursor stands, and the colour set
/// last (unknown at first).
pub struct TermState {
    pub screen: Seq<Cell>,
    pub cursor: (int, int),
    pub color: Option<Color>,
}

pub open spec fn term_state(screen: Seq<Cell>, cursor: (int, int), color: Option<Color>) -> TermState {
    TermState { screen: screen, cursor: cursor, color: color }
}

/// What one operation does to a terminal `w` columns wide: a move sets the
/// cursor, a colour change sets the colour, a print writes the cell under
/// the cursor in the current colour (the default one if none was set) and
/// steps right.
pub open spec fn apply_op(t: TermState, w: int, op: DrawOp) -> TermState {
    match op {
        DrawOp::MoveTo { x, y } => term_state(t.screen, (x as int, y as int), t.color),
        DrawOp::SetColor(c) => term_state(t.screen, t.cursor, Some(c)),
        DrawOp::Print(ch) => {
            let i = t.cursor.1 * w + t.cursor.0;
            let color = match t.color {
                Some(c) => c,
                None => Color::Reset,
            };
            let screen = if 0 <= t.cursor.0 < w && 0 <= i < t.screen.len() {
                t.screen.update(i, cell_of(ch, color))
            } else {
                t.screen
            };
            term_state(screen, (t.cursor.0 + 1, t.cursor.1), t.color)
        },
    }
}

/// What a sequence of operations does, in order.
pub open spec fn run_ops(t: TermState, w: int, ops: Seq<DrawOp>) -> TermState
    decreases ops.len(),
{
    if ops.len() == 0 {
        t
    } else {
        run_ops(apply_op(t, w, ops[0]), w, ops.drop_first())
    }
}

pub proof fn lemma_run_ops_concat(t: TermState, w: int, a: Seq<DrawOp>, b: Seq<DrawOp>)
    ensures
        run_ops(t, w, a + b) == run_ops(run_ops(t, w, a), w, b),
    decreases a.len(),
{
    if a.len() == 0 {
        assert(a + b =~= b);
    } else {
        assert((a + b).drop_first() =~= a.drop_first() + b);
        assert((a + b)[0] == a[0]);
        lemma_run_ops_concat(apply_op(t, w, a[0]), w, a.drop_first(), b);
    }
}

proof fn lemma_run_single(t: TermState, w: int, op: DrawOp)
    ensures
        run_ops(t, w, seq![op]) == apply_op(t, w, op),
{
    assert(seq![op].drop_first() =~= Seq::<DrawOp>::empty());
    assert(seq![op][0] == op);
    assert(run_ops(apply_op(t, w, op), w, Seq::<DrawOp>::empty()) == apply_op(t, w, op));
}

/// The terminal's cursor and colour agree with what `ops_from` assumes of
/// them, where it assumes anything.
pub open spec fn agrees(t: TermState, cursor: Option<(u16, u16)>, color: Option<Color>) -> bool {
    &&& (cursor matches Some(c) ==> t.cursor == (c.0 as int, c.1 as int))
    &&& (color matches Some(c) ==> t.color == Some(c))
}

proof fn lemma_ops_from_replays(
    prev: Seq<Cell>,
    cur: Seq<Cell>,
    w: int,
    h: int,
    full: bool,
    i: int,
    cursor: Option<(u16, u16)>,
    color: Option<Color>,
    t: TermState,
)
    requires
        0 < w <= u16::MAX,
        0 <= h <= u16::MAX,
        cur.len() == w * h,
        prev.len() == cur.len(),
        0 <= i <= cur.len(),
        t.screen.len() == cur.len(),
        forall|k: int| 0 <= k < i ==> t.screen[k] == cur[k],
        forall|k: int| i <= k < cur.len() ==> t.screen[k] == prev[k],
        agrees(t, cursor, color),
    ensures
        run_ops(t, w, ops_from(prev, cur, w, full, i, cursor, color)).screen == cur,
    decreases cur.len() - i,
{
    if i == cur.len() {
        assert(t.screen =~= cur);
    } else if full || prev[i] != cur[i] {
        let x = (i % w) as u16;
        let y = (i / w) as u16;
        let c = cur[i];
        assert(0 <= i % w < w);
        assert(i / w < h) by (nonlinear_arith)
            requires
                0 <= i < w * h,
                0 < w,
        ;
        assert(0 <= i / w) by (nonlinear_arith)
            requires
                0 <= i,
                0 < w,
        ;
        assert((i / w) * w + i % w == i) by (nonlinear_arith)
            requires
                0 < w,
        ;
        let mv = if cursor == Some((x, y)) {
            Seq::empty()
        } else {
            seq![DrawOp::MoveTo { x, y }]
        };
        let cl = if color == Some(c.color) {
            Seq::empty()
        } else {
            seq![DrawOp::SetColor(c.color)]
        };
        let pr = seq![DrawOp::Print(c.ch)];
        let next_cursor = Some(((x + 1) as u16, y));
        let rest = ops_from(prev, cur, w, full, i + 1, next_cursor, Some(c.color));
        let t1 = run_ops(t, w, mv);
        if cursor == Some((x, y)) {
            assert(mv =~= Seq::<DrawOp>::empty());
        } else {
            lemma_run_single(t, w, DrawOp::MoveTo { x, y });
        }
        assert(t1.cursor == (x as int, y as int));
        assert(t1.screen == t.screen);
        let t2 = run_ops(t1, w, cl);
        if color == Some(c.color) {
            assert(cl =~= Seq::<DrawOp>::empty());
            assert(t2 == t1);
            assert(t1.color == Some(c.color)) by {
                if cursor != Some((x, y)) {
                    assert(t1.color == t.color);
                }
            }
        } else {
            lemma_run_single(t1, w, DrawOp::SetColor(c.color));
        }
        assert(t2.color == Some(c.color));
        assert(t2.cursor == (x as int, y as int));
        assert(t2.screen == t.screen);
        let t3 = run_ops(t2, w, pr);
        lemma_run_single(t2, w, DrawOp::Print(c.ch));
        assert(cell_of(c.ch, c.color) == c);
        assert(t3.screen == t.screen.update(i, c));
        assert(t3.cursor == ((x + 1) as int, y as int));
        lemma_ops_from_replays(prev, cur, w, h, full, i + 1, next_cursor, Some(c.color), t3);
        lemma_run_ops_concat(t, w, mv, cl);
        lemma_run_ops_concat(t, w, mv + cl, pr);
        lemma_run_ops_concat(t, w, mv + cl + pr, rest);
    } else {
        lemma_ops_from_replays(prev, cur, w, h, full, i + 1, cursor, color, t);
    }
}

/// Whatever the terminal's cursor and colour, the operations of a flush
/// turn the frame shown last into the current frame.
pub proof fn lemma_flush_shows_current(g: GridRenderer, cursor: (int, int), color: Option<Color>)
    requires
        g.wf(),
    ensures
        run_ops(term_state(g.shown(), cursor, color), g.cols(), g.flush_ops()).screen
            == g.cells(),
{
    let w = g.cols();
    let h = g.rows();
    let t = term_state(g.shown(), cursor, color);
    if w > 0 {
        lemma_ops_from_replays(g.shown(), g.cells(), w, h, g.full_pending(), 0, None, None, t);
    } else {
        assert(w * h == 0) by (nonlinear_arith)
            requires
                w == 0,
        ;
        assert(t.screen =~= g.cells());
    }
}

pub struct GridRenderer {
    width: u16,
    height: u16,
    current: Vec<Cell>,
    previous: Vec<Cell>,
    full_repaint: bool,
}

fn blank_cells(n: usize) -> (r: Vec<Cell>)
    ensures
        r@ == Seq::new(n as nat, |i: int| blank_cell()),
{
    let mut r: Vec<Cell> = Vec::new();
    let mut i: usize = 0;
    while i < n
        invariant
            i <= n,
            r@ == Seq::new(i as nat, |k: int| blank_cell()),
        decreases n - i,
    {
        r.push(Cell { ch: ' ', color: Color::Reset });
        i = i + 1;
        assert(r@ =~= Seq::new(i as nat, |k: int| blank_cell()));
    }
    r
}

fn copy_cells(src: &Vec<Cell>) -> (r: Vec<Cell>)
    ensures
        r@ == src@,
{
    let mut r: Vec<Cell> = Vec::new();
    let mut i: usize = 0;
    while i < src.len()
        invariant
            i <= src.len(),
            r@ == src@.subrange(0, i as int),
        decreases src.len() - i,
    {
        r.push(src[i]);
        i = i + 1;
        assert(r@ =~= src@.subrange(0, i as int));
    }
    assert(r@ =~= src@);
    r
}

fn grid_len(width: u16, height: u16) -> (n: usize)
    ensures
        n == width * height,
{
    assert(width * height <= 65535 * 65535) by (nonlinear_arith)
        requires
            width <= 65535,
            height <= 65535,
    ;
    let n: u32 = (width as u32) * (height as u32);
    n as usize
}

impl GridRenderer {
    /// Width, height, and the consistency of both buffers with them.
    pub closed spec fn wf(&self) -> bool {
        &&& self.current@.len() == self.width * self.height
        &&& self.previous@.len() == self.width * self.height
    }

    pub closed spec fn cols(&self) -> int {
        self.width as int
    }

    pub closed spec fn rows(&self) -> int {
        self.height as int
    }

    pub proof fn lemma_size_bounds(&self)
        ensures
            0 <= self.cols() <= u16::MAX,
            0 <= self.rows() <= u16::MAX,
    {
    }

    /// The frame being drawn.
    pub closed spec fn cells(&self) -> Seq<Cell> {
        self.current@
    }

    /// The frame on the terminal after the last flush.
    pub closed spec fn shown(&self) -> Seq<Cell> {
        self.previous@
    }

    /// Whether the next flush repaints every cell.
    pub closed spec fn full_pending(&self) -> bool {
        self.full_repaint
    }

    /// What the next flush emits.
    pub open spec fn flush_ops(&self) -> Seq<DrawOp> {
        diff_ops(self.shown(), self.cells(), self.cols(), self.full_pending())
    }

    /// The frame being drawn after the writes `puts`.
    pub open spec fn drawn(&self, puts: Seq<Put>) -> Seq<Cell> {
        apply_puts(self.cells(), self.cols(), self.rows(), puts)
    }

    /// A grid of blank cells; the first flush repaints it all.
    pub fn new(width: u16, height: u16) -> (r: Self)
        ensures
            r.wf(),
            r.cols() == width,
            r.rows() == height,
            r.cells() == Seq::new((width * height) as nat, |i: int| blank_cell()),
            r.full_pending(),
    {
        let n = grid_len(width, height);
        GridRenderer {
            width,
            height,
            current: blank_cells(n),
            previous: blank_cells(n),
            full_repaint: true,
        }
    }

    pub fn get_size(&self) -> (r: (u16, u16))
        ensures
            r.0 == self.cols(),
            r.1 == self.rows(),
    {
        (self.width, self.height)
    }

    /// The cell being drawn at (`x`, `y`), if that is on the grid.
    pub fn cell(&self, x: u16, y: u16) -> (r: Option<Cell>)
        requires
            self.wf(),
        ensures
            x < self.cols() && y < self.rows() ==> r == Some(
                self.cells()[y * self.cols() + x],
            ),
            !(x < self.cols() && y < self.rows()) ==> r is None,
    {
        if x < self.width && y < self.height {
            let w = self.width as u32;
            let h = self.height as u32;
            assert(y * w + x < w * h) by (nonlinear_arith)
                requires
                    x < w,
                    y < h,
            ;
            assert(w * h <= 65535 * 65535) by (nonlinear_arith)
                requires
                    w <= 65535,
                    h <= 65535,
            ;
            Some(self.current[(y as u32 * w + x as u32) as usize])
        } else {
            None
        }
    }

    /// Reallocates both buffers blank and forces the next flush to repaint
    /// every cell.
    pub fn manual_resize(&mut self, width: u16, height: u16)
        ensures
            final(self).wf(),
            final(self).cols() == width,
            final(self).rows() == height,
            final(self).cells() == Seq::new((width * height) as nat, |i: int| blank_cell()),
            final(self).full_pending(),
    {
        let n = grid_len(width, height);
        self.width = width;
        self.height = height;
        self.current = blank_cells(n);
        self.previous = blank_cells(n);
        self.full_repaint = true;
    }

    /// Blanks the frame being drawn; what was shown stays for the diff.
    pub fn clear(&mut self)
        requires
            old(self).wf(),
        ensures
            final(self).wf(),
            final(self).cols() == old(self).cols(),
            final(self).rows() == old(self).rows(),
            final(self).cells() == Seq::new(old(self).cells().len(), |i: int| blank_cell()),
            final(self).shown() == old(self).shown(),
            final(self).full_pending() == old(self).full_pending(),
    {
        let n = self.current.len();
        self.current = blank_cells(n);
    }

    /// Writes one cell; a position outside the grid is ignored.
    pub fn render_char(&mut self, x: u32, y: u32, ch: char, color: Color)
        requires
            old(self).wf(),
        ensures
            final(self).wf(),
            final(self).cols() == old(self).cols(),
            final(self).rows() == old(self).rows(),
            final(self).shown() == old(self).shown(),
            final(self).full_pending() == old(self).full_pending(),
            final(self).cells() == put_cell(
                old(self).cells(),
                old(self).cols(),
                old(self).rows(),
                put_at(x as int, y as int, ch, color),
            ),
    {
        if x < self.width as u32 && y < self.height as u32 {
            let w = self.width as u32;
            let h = self.height as u32;
            assert(y * w + x < w * h) by (nonlinear_arith)
                requires
                    x < w,
                    y < h,
            ;
            assert(w * h <= 65535 * 65535) by (nonlinear_arith)
                requires
                    w <= 65535,
                    h <= 65535,
            ;
            assert(0 <= y * w) by (nonlinear_arith)
                requires
                    0 <= y,
                    0 <= w,
            ;
            let idx = (y * w + x) as usize;
            self.current.set(idx, Cell { ch, color });
        }
    }

    /// Emits what turns the frame shown last into the current one, then
    /// records the current frame as shown.
    pub fn flush(&mut self) -> (ops: Vec<DrawOp>)
        requires
            old(self).wf(),
        ensures
            final(self).wf(),
            final(self).cols() == old(self).cols(),
            final(self).rows() == old(self).rows(),
            final(self).cells() == old(self).cells(),
            final(self).shown() == old(self).cells(),
            !final(self).full_pending(),
            ops@ == old(self).flush_ops(),
    {
        let ghost prev = self.previous@;
        let ghost cur = self.current@;
        let full = self.full_repaint;
        let w = self.width;
        let ghost h = self.height as int;
        let n = self.current.len();
        let mut ops: Vec<DrawOp> = Vec::new();
        let mut cursor: Option<(u16, u16)> = None;
        let mut color: Option<Color> = None;
        let mut i: usize = 0;
        let mut x: u16 = 0;
        let mut y: u16 = 0;
        while i < n
            invariant
                self.current@ == cur,
                self.previous@ == prev,
                self.width == w,
                self.height == h,
                self.full_repaint == full,
                n == cur.len(),
                cur.len() == w * h,
                prev.len() == w * h,
                i <= n,
                w > 0 ==> x < w,
                i == y * w + x,
                ops@ + ops_from(prev, cur, w as int, full, i as int, cursor, color) == ops_from(
                    prev,
                    cur,
                    w as int,
                    full,
                    0,
                    None,
                    None,
                ),
            decreases n - i,
        {
            assert(w > 0) by (nonlinear_arith)
                requires
                    i < n,
                    n == w * h,
                    h >= 0,
            ;
            assert(y < h) by (nonlinear_arith)
                requires
                    i < n,
                    n == w * h,
                    i == y * w + x,
                    x >= 0,
                    w > 0,
            ;
            let ghost before = ops@;
            let ghost rest = ops_from(prev, cur, w as int, full, i as int + 1, cursor, color);
            let c = self.current[i];
            if full || !(c == self.previous[i]) {
                proof {
                    lemma_fundamental_div_mod_converse(i as int, w as int, y as int, x as int);
                }
                let at_cursor = match cursor {
                    Some((cx, cy)) => cx == x && cy == y,
                    None => false,
                };
                let same_color = match color {
                    Some(k) => k == c.color,
                    None => false,
                };
                let ghost mv = if at_cursor {
                    Seq::<DrawOp>::empty()
                } else {
                    seq![DrawOp::MoveTo { x, y }]
                };
                let ghost cl = if same_color {
                    Seq::<DrawOp>::empty()
                } else {
                    seq![DrawOp::SetColor(c.color)]
                };
                if !at_cursor {
                    ops.push(DrawOp::MoveTo { x, y });
                }
                if !same_color {
                    ops.push(DrawOp::SetColor(c.color));
                }
                ops.push(DrawOp::Print(c.ch));
                cursor = Some((x + 1, y));
                color = Some(c.color);
                proof {
                    assert(ops@ =~= before + mv + cl + seq![DrawOp::Print(c.ch)]);
                    let rest2 = ops_from(prev, cur, w as int, full, i as int + 1, cursor, color);
                    assert(ops@ + rest2 =~= before + (mv + cl + seq![DrawOp::Print(c.ch)] + rest2));
                }
            }
            i = i + 1;
            if x + 1 == w {
                assert((y + 1) * w == y * w + x + 1) by (nonlinear_arith)
                    requires
                        x + 1 == w,
                ;
                x = 0;
                y = y + 1;
            } else {
                x = x + 1;
            }
        }
        proof {
            assert(ops@ + Seq::<DrawOp>::empty() =~= ops@);
        }
        self.previous = copy_cells(&self.current);
        self.full_repaint = false;
        ops
    }

    /// Writes the rows of `lines` one below the other from (`x`, `y`).
    pub fn render_block(&mut self, x: u32, y: u32, lines: &Vec<&str>, color: Color)
        requires
            old(self).wf(),
        ensures
            final(self).wf(),
            final(self).cols() == old(self).cols(),
            final(self).rows() == old(self).rows(),
            final(self).shown() == old(self).shown(),
            final(self).full_pending() == old(self).full_pending(),
            final(self).cells() == old(self).drawn(
                block_puts(x as int, y as int, texts(lines@), lines@.len() as int, color),
            ),
    {
        let ghost g0 = self.cells();
        let ghost w = self.cols();
        let ghost h = self.rows();
        let mut i: usize = 0;
        proof {
            self.lemma_size_bounds();
        }
        while i < lines.len()
            invariant
                i <= lines.len(),
                self.wf(),
                self.cols() == w,
                self.rows() == h,
                self.shown() == old(self).shown(),
                self.full_pending() == old(self).full_pending(),
                g0 == old(self).cells(),
                w <= u16::MAX,
                h <= u16::MAX,
                self.cells() == apply_puts(
                    g0,
                    w,
                    h,
                    block_puts(x as int, y as int, texts(lines@), i as int, color),
                ),
            decreases lines.len() - i,
        {
            let ghost before = block_puts(x as int, y as int, texts(lines@), i as int, color);
            let ghost row = line_puts(x as int, y + i, lines@[i as int]@, color);
            if i as u64 <= (u32::MAX - y) as u64 {
                self.render_line_colored(x, y + i as u32, lines[i], color);
            } else {
                proof {
                    lemma_line_puts_row(x as int, y + i, lines@[i as int]@, color);
                    lemma_puts_off_grid(self.cells(), w, h, row);
                }
            }
            proof {
                lemma_apply_puts_concat(g0, w, h, before, row);
                assert(texts(lines@)[i as int] == lines@[i as int]@);
            }
            i = i + 1;
        }
    }

    /// Writes `text` left to right from column `x`, clipped at the grid's
    /// edges.
    pub fn render_line_colored(&mut self, x: u32, y: u32, text: &str, color: Color)
        requires
            old(self).wf(),
        ensures
            final(self).wf(),
            final(self).cols() == old(self).cols(),
            final(self).rows() == old(self).rows(),
            final(self).shown() == old(self).shown(),
            final(self).full_pending() == old(self).full_pending(),
            final(self).cells() == old(self).drawn(line_puts(x as int, y as int, text@, color)),
    {
        let ghost g0 = self.cells();
        let ghost w = self.cols();
        let ghost h = self.rows();
        let mut j: u32 = 0;
        for ch in it: text.chars()
            invariant
                self.wf(),
                self.cols() == w,
                self.rows() == h,
                self.shown() == old(self).shown(),
                self.full_pending() == old(self).full_pending(),
                g0 == old(self).cells(),
                it.seq() == text@,
                j == if it.index() < u32::MAX { it.index() as int } else { u32::MAX as int },
                self.cells() == apply_puts(
                    g0,
                    w,
                    h,
                    line_puts(x as int, y as int, text@.take(it.index() as int), color),
                ),
        {
            let ghost k = it.index() as int;
            let ghost p = put_at(x + k, y as int, ch, color);
            assert(k < text@.len() && text@[k] == ch);
            if j < u32::MAX && x as u64 + j as u64 <= u32::MAX as u64 {
                self.render_char(x + j, y, ch, color);
            } else {
                assert(!(p.x < w));
            }
            proof {
                assert(text@.take(k + 1).drop_last() =~= text@.take(k));
                assert(text@.take(k + 1).last() == ch);
                assert(line_puts(x as int, y as int, text@.take(k + 1), color) == line_puts(
                    x as int,
                    y as int,
                    text@.take(k),
                    color,
                ).push(p));
                lemma_apply_puts_push(g0, w, h, line_puts(x as int, y as int, text@.take(k), color), p);
            }
            if j < u32::MAX {
                j = j + 1;
            }
        }
        proof {
            assert(text@.take(text@.len() as int) =~= text@);
        }
    }
}

/// A frame equal to the one shown last, with no repaint pending, emits
/// nothing: in particular a frame that redraws, over a cleared grid, the
/// writes of the frame flushed last.
pub proof fn lemma_unchanged_frame_emits_nothing(g: GridRenderer)
    requires
        g.wf(),
        g.cells() == g.shown(),
        !g.full_pending(),
    ensures
        g.flush_ops() == Seq::<DrawOp>::empty(),
{
    lemma_unchanged_emits_nothing(g.cells(), g.cols(), 0, None, None);
}

/// Two frames drawn with the same writes over a cleared grid: once the
/// first is flushed, flushing the second emits nothing.
pub proof fn lemma_same_writes_emit_nothing(g: GridRenderer, puts: Seq<Put>)
    requires
        g.wf(),
        !g.full_pending(),
        g.shown() == apply_puts(
            Seq::new(g.cells().len(), |i: int| blank_cell()),
            g.cols(),
            g.rows(),
            puts,
        ),
        g.cells() == apply_puts(
            Seq::new(g.cells().len(), |i: int| blank_cell()),
            g.cols(),
            g.rows(),
            puts,
        ),
    ensures
        g.flush_ops() == Seq::<DrawOp>::empty(),
{
    lemma_unchanged_frame_emits_nothing(g);
}

/// A flush that follows a flush, with no write between them, emits nothing.
pub proof fn lemma_second_flush_is_empty(before: GridRenderer, after: GridRenderer)
    requires
        before.wf(),
        after.cols() == before.cols(),
        after.cells() == before.cells(),
        after.shown() == before.cells(),
        !after.full_pending(),
    ensures
        after.flush_ops() == Seq::<DrawOp>::empty(),
{
    lemma_unchanged_emits_nothing(after.cells(), after.cols(), 0, None, None);
}

/// After a resize, the next flush prints every cell of the grid, in order,
/// whatever was drawn in between.
pub proof fn lemma_resize_repaints_all(g: GridRenderer)
    requires
        g.wf(),
        g.full_pending(),
    ensures
        printed(g.flush_ops()) == chars_of(g.cells()),
{
    if g.cols() > 0 {
        lemma_full_prints_every_cell(g.shown(), g.cells(), g.cols(), 0, None, None);
        assert(g.cells().subrange(0, g.cells().len() as int) =~= g.cells());
    } else {
        assert(g.cols() * g.rows() == 0) by (nonlinear_arith)
            requires
                g.cols() == 0,
        ;
        assert(g.cells().len() == 0);
        assert(chars_of(g.cells()) =~= Seq::<char>::empty());
        assert(printed(Seq::<DrawOp>::empty()) == Seq::<char>::empty());
    }
}

} // verus!
