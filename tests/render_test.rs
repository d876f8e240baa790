use weathr::render::{Cell, Color, DrawOp, GridRenderer};

fn blank() -> Cell {
    Cell { ch: ' ', color: Color::Reset }
}

#[test]
fn first_flush_paints_every_cell_with_minimal_moves_and_colors() {
    let mut r = GridRenderer::new(3, 2);
    r.render_char(0, 0, 'a', Color::Red);
    let ops = r.flush();
    assert_eq!(
        ops,
        vec![
            DrawOp::MoveTo { x: 0, y: 0 },
            DrawOp::SetColor(Color::Red),
            DrawOp::Print('a'),
            DrawOp::SetColor(Color::Reset),
            DrawOp::Print(' '),
            DrawOp::Print(' '),
            DrawOp::MoveTo { x: 0, y: 1 },
            DrawOp::Print(' '),
            DrawOp::Print(' '),
            DrawOp::Print(' '),
        ]
    );
}

#[test]
fn second_flush_without_writes_is_empty() {
    let mut r = GridRenderer::new(10, 4);
    r.render_line_colored(1, 1, "hello", Color::Cyan);
    let first = r.flush();
    assert!(!first.is_empty());
    let second = r.flush();
    assert!(second.is_empty());
}

#[test]
fn redrawing_the_same_frame_emits_nothing() {
    let mut r = GridRenderer::new(10, 4);
    r.render_line_colored(1, 1, "hello", Color::Cyan);
    r.flush();
    r.clear();
    r.render_line_colored(1, 1, "hello", Color::Cyan);
    assert!(r.flush().is_empty());
}

#[test]
fn flush_emits_only_changed_cells() {
    let mut r = GridRenderer::new(3, 2);
    r.flush();
    r.render_char(2, 1, 'z', Color::Green);
    assert_eq!(
        r.flush(),
        vec![DrawOp::MoveTo { x: 2, y: 1 }, DrawOp::SetColor(Color::Green), DrawOp::Print('z')]
    );
}

#[test]
fn adjacent_changes_share_one_move_and_one_color() {
    let mut r = GridRenderer::new(5, 1);
    r.flush();
    r.render_line_colored(1, 0, "ab", Color::Blue);
    assert_eq!(
        r.flush(),
        vec![
            DrawOp::MoveTo { x: 1, y: 0 },
            DrawOp::SetColor(Color::Blue),
            DrawOp::Print('a'),
            DrawOp::Print('b'),
        ]
    );
}

#[test]
fn resize_then_flush_repaints_everything() {
    let mut r = GridRenderer::new(4, 3);
    r.flush();
    r.manual_resize(4, 3);
    let ops = r.flush();
    let prints = ops.iter().filter(|op| matches!(op, DrawOp::Print(_))).count();
    assert_eq!(prints, 12);
}

#[test]
fn resize_changes_size_and_blanks() {
    let mut r = GridRenderer::new(4, 3);
    r.render_char(1, 1, 'x', Color::Red);
    r.manual_resize(6, 2);
    assert_eq!(r.get_size(), (6, 2));
    assert_eq!(r.cell(1, 1), Some(blank()));
    assert_eq!(r.cell(5, 1), Some(blank()));
    assert_eq!(r.cell(1, 2), None);
}

#[test]
fn out_of_bounds_writes_are_ignored() {
    let mut r = GridRenderer::new(3, 3);
    r.render_char(3, 0, 'x', Color::Red);
    r.render_char(0, 3, 'x', Color::Red);
    r.render_char(u32::MAX, u32::MAX, 'x', Color::Red);
    for y in 0..3 {
        for x in 0..3 {
            assert_eq!(r.cell(x, y), Some(blank()));
        }
    }
}

#[test]
fn write_line_clips_at_right_edge() {
    let mut r = GridRenderer::new(4, 1);
    r.render_line_colored(2, 0, "xyz", Color::Yellow);
    assert_eq!(r.cell(1, 0), Some(blank()));
    assert_eq!(r.cell(2, 0), Some(Cell { ch: 'x', color: Color::Yellow }));
    assert_eq!(r.cell(3, 0), Some(Cell { ch: 'y', color: Color::Yellow }));
}

#[test]
fn clear_keeps_previous_frame_for_the_diff() {
    let mut r = GridRenderer::new(2, 1);
    r.render_char(0, 0, 'q', Color::White);
    r.flush();
    r.clear();
    assert_eq!(r.cell(0, 0), Some(blank()));
    assert_eq!(
        r.flush(),
        vec![DrawOp::MoveTo { x: 0, y: 0 }, DrawOp::SetColor(Color::Reset), DrawOp::Print(' ')]
    );
}

#[test]
fn render_block_draws_rows_downward() {
    let mut r = GridRenderer::new(5, 5);
    let lines = vec!["ab", "cd"];
    r.render_block(1, 2, &lines, Color::Magenta);
    assert_eq!(r.cell(1, 2), Some(Cell { ch: 'a', color: Color::Magenta }));
    assert_eq!(r.cell(2, 3), Some(Cell { ch: 'd', color: Color::Magenta }));
    assert_eq!(r.cell(1, 4), Some(blank()));
}

fn replay(screen: &mut Vec<Cell>, width: usize, ops: &[DrawOp]) {
    let (mut x, mut y, mut color) = (0usize, 0usize, Color::Reset);
    for op in ops {
        match *op {
            DrawOp::MoveTo { x: nx, y: ny } => {
                x = nx as usize;
                y = ny as usize;
            }
            DrawOp::SetColor(c) => color = c,
            DrawOp::Print(ch) => {
                screen[y * width + x] = Cell { ch, color };
                x += 1;
            }
        }
    }
}

#[test]
fn replaying_flushes_reproduces_each_frame() {
    let mut r = GridRenderer::new(7, 4);
    let mut screen = vec![Cell { ch: '#', color: Color::Red }; 28];
    let frames: [&[(u32, u32, &str, Color)]; 3] = [
        &[(0, 0, "abc", Color::Green), (5, 3, "zz", Color::Blue)],
        &[(1, 0, "bcd", Color::Green), (0, 2, "-------", Color::Grey)],
        &[],
    ];
    for frame in frames {
        r.clear();
        for &(x, y, text, color) in frame {
            r.render_line_colored(x, y, text, color);
        }
        let ops = r.flush();
        replay(&mut screen, 7, &ops);
        for y in 0..4u16 {
            for x in 0..7u16 {
                assert_eq!(Some(screen[y as usize * 7 + x as usize]), r.cell(x, y));
            }
        }
    }
}
