use sketchpad::drag::{DragTracker, PointerEvent, END_MARKER_SIZE};
use sketchpad::surface::DrawOp;

fn renders(ops: &[DrawOp]) -> usize {
    ops.iter()
        .filter(|op| matches!(op, DrawOp::Stroke | DrawOp::FillRect { .. }))
        .count()
}

#[test]
fn down_move_up_scenario() {
    let mut t = DragTracker::new();
    let mut ops = Vec::new();
    ops.extend(t.on_pointer_down(10, 10));
    ops.extend(t.on_pointer_move(20, 20));
    ops.extend(t.on_pointer_up(30, 30));
    assert_eq!(
        ops,
        vec![
            DrawOp::BeginPath,
            DrawOp::MoveTo { x: 10, y: 10 },
            DrawOp::LineTo { x: 20, y: 20 },
            DrawOp::Stroke,
            DrawOp::BeginPath,
            DrawOp::MoveTo { x: 20, y: 20 },
            DrawOp::LineTo { x: 30, y: 30 },
            DrawOp::Stroke,
            DrawOp::FillRect { x: 30, y: 30, w: 10, h: 10 },
        ]
    );
    assert!(!t.is_drawing());
}

#[test]
fn drag_with_moves_renders_moves_plus_two() {
    for n in 0..6 {
        let mut t = DragTracker::new();
        assert!(!t.is_drawing());
        let mut ops = t.on_pointer_down(1, 2);
        for i in 0..n {
            ops.extend(t.on_pointer_move(i * 3, i * 5));
        }
        ops.extend(t.on_pointer_up(-4, 7));
        assert_eq!(renders(&ops), n as usize + 2);
        assert!(!t.is_drawing());
    }
}

#[test]
fn moves_while_idle_draw_nothing() {
    let mut t = DragTracker::new();
    assert!(t.on_pointer_move(5, 5).is_empty());
    t.on_pointer_down(0, 0);
    t.on_pointer_up(1, 1);
    assert!(t.on_pointer_move(6, 6).is_empty());
    assert!(!t.is_drawing());
}

#[test]
fn up_while_idle_still_draws_and_stays_idle() {
    let mut t = DragTracker::new();
    let first = t.on_pointer_up(3, 4);
    assert!(!t.is_drawing());
    let second = t.on_pointer_up(3, 4);
    assert!(!t.is_drawing());
    let expected = vec![
        DrawOp::LineTo { x: 3, y: 4 },
        DrawOp::Stroke,
        DrawOp::FillRect { x: 3, y: 4, w: END_MARKER_SIZE, h: END_MARKER_SIZE },
    ];
    assert_eq!(first, expected);
    assert_eq!(second, expected);
}

#[test]
fn down_starts_a_stroke() {
    let mut t = DragTracker::new();
    let ops = t.on_pointer_down(-7, 9);
    assert_eq!(ops, vec![DrawOp::BeginPath, DrawOp::MoveTo { x: -7, y: 9 }]);
    assert!(t.is_drawing());
    let again = t.on_pointer_down(1, 1);
    assert_eq!(again, vec![DrawOp::BeginPath, DrawOp::MoveTo { x: 1, y: 1 }]);
    assert!(t.is_drawing());
}

#[test]
fn handle_dispatches_each_event() {
    let mut t = DragTracker::new();
    let mut direct = DragTracker::new();
    let evs = [
        PointerEvent::Move { x: 1, y: 1 },
        PointerEvent::Down { x: 2, y: 2 },
        PointerEvent::Move { x: 3, y: 3 },
        PointerEvent::Up { x: 4, y: 4 },
        PointerEvent::Up { x: 5, y: 5 },
    ];
    for ev in evs {
        let got = t.handle(ev);
        let want = match ev {
            PointerEvent::Down { x, y } => direct.on_pointer_down(x, y),
            PointerEvent::Move { x, y } => direct.on_pointer_move(x, y),
            PointerEvent::Up { x, y } => direct.on_pointer_up(x, y),
        };
        assert_eq!(got, want);
        assert_eq!(t.is_drawing(), direct.is_drawing());
    }
    assert!(!t.is_drawing());
}

#[test]
fn extreme_coordinates_pass_through() {
    let mut t = DragTracker::new();
    let ops = t.on_pointer_down(i32::MIN, i32::MAX);
    assert_eq!(ops[1], DrawOp::MoveTo { x: i32::MIN, y: i32::MAX });
    let ops = t.on_pointer_move(i32::MAX, i32::MIN);
    assert_eq!(ops[0], DrawOp::LineTo { x: i32::MAX, y: i32::MIN });
}
