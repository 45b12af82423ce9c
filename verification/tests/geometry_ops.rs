use cursive_tabs::{Event, MouseKind, XY};

#[test]
fn xy_arithmetic_saturates() {
    let a = XY::new(usize::MAX - 1, 3);
    let b = XY::new(5, 4);
    assert_eq!(a.plus(b), XY::new(usize::MAX, 7));
    assert_eq!(b.minus(XY::new(7, 1)), XY::new(0, 3));
    assert_eq!(XY::new(10, 2).checked_sub(XY::new(3, 2)), Some(XY::new(7, 0)));
    assert_eq!(XY::new(10, 2).checked_sub(XY::new(3, 5)), None);
}

#[test]
fn stacking_adds_along_one_axis_and_maxes_the_other() {
    let a = XY::new(4, 2);
    let b = XY::new(3, 5);
    assert_eq!(a.stack_horizontal(b), XY::new(7, 5));
    assert_eq!(a.stack_vertical(b), XY::new(4, 7));
    assert_eq!(a.keep_x(), XY::new(4, 0));
    assert_eq!(a.keep_y(), XY::new(0, 2));
}

#[test]
fn relativized_shifts_only_mouse_offsets() {
    let m = Event::Mouse {
        offset: XY::new(2, 3),
        position: XY::new(9, 9),
        kind: MouseKind::Press,
    };
    assert_eq!(
        m.relativized(XY::new(1, 1)),
        Event::Mouse {
            offset: XY::new(3, 4),
            position: XY::new(9, 9),
            kind: MouseKind::Press,
        }
    );
    assert_eq!(Event::Refresh.relativized(XY::new(5, 5)), Event::Refresh);
}
