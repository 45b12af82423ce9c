use crossbeam::channel::unbounded;
use cursive_tabs::{Align, Event, EventResult, Key, MouseKind, Placement, TabBar, XY};

fn sizes(widths: &[usize]) -> Vec<XY> {
    widths.iter().map(|w| XY::new(*w, 1)).collect()
}

#[test]
fn end_alignment_offset_for_ten_in_twenty_is_ten() {
    assert_eq!(Align::End.get_offset(10, 20), 10);
}

#[test]
fn offset_rules_per_alignment() {
    assert_eq!(Align::Start.get_offset(10, 20), 0);
    assert_eq!(Align::Center.get_offset(10, 20), 5);
    assert_eq!(Align::Center.get_offset(7, 20), 6);
    assert_eq!(Align::End.get_offset(7, 20), 13);
    // overflowing content clamps to zero instead of failing
    assert_eq!(Align::Start.get_offset(30, 20), 0);
    assert_eq!(Align::Center.get_offset(30, 20), 0);
    assert_eq!(Align::End.get_offset(30, 20), 0);
}

#[test]
fn center_offset_keeps_content_inside_container() {
    for content in 0..25usize {
        for container in 0..25usize {
            let offset = Align::Center.get_offset(content, container);
            if content <= container {
                assert!(offset + content <= container);
            } else {
                assert_eq!(offset, 0);
            }
        }
    }
}

#[test]
fn added_button_takes_cursor_and_highlight() {
    let (tx, _keep) = unbounded();
    let (_tx2, rx) = unbounded();
    let mut bar = TabBar::new(rx);
    bar.add_button(tx.clone(), "a".to_string());
    bar.add_button(tx.clone(), "b".to_string());
    assert_eq!(bar.button_count(), 2);
    assert_eq!(bar.cursor_index(), Some(1));
    assert_eq!(bar.active_index(), Some(1));
    assert_eq!(bar.button_key(0), "a");
    assert_eq!(bar.button_key(1), "b");
}

#[test]
fn add_button_at_clamps_past_the_end() {
    let (tx, _keep) = unbounded();
    let (_tx2, rx) = unbounded();
    let mut bar = TabBar::new(rx);
    bar.add_button(tx.clone(), "a".to_string());
    bar.add_button_at(tx.clone(), "x".to_string(), 100);
    assert_eq!(bar.button_count(), 2);
    assert_eq!(bar.button_key(1), "x");
    assert_eq!(bar.cursor_index(), Some(1));
}

#[test]
fn remove_button_slides_cursor_back() {
    let (tx, _keep) = unbounded();
    let (_tx2, rx) = unbounded();
    let mut bar = TabBar::new(rx);
    bar.add_button(tx.clone(), "a".to_string());
    bar.add_button(tx.clone(), "b".to_string());
    bar.add_button(tx.clone(), "c".to_string());
    // cursor and highlight sit on "c" (index 2)
    bar.remove_button("a");
    assert_eq!(bar.button_count(), 2);
    assert_eq!(bar.cursor_index(), Some(1));
    assert_eq!(bar.active_index(), Some(1));
    assert_eq!(bar.button_key(1), "c");
    // removing the control under the cursor clears both indices
    bar.remove_button("c");
    assert_eq!(bar.cursor_index(), None);
    assert_eq!(bar.active_index(), None);
}

#[test]
fn swap_button_exchanges_positions() {
    let (tx, _keep) = unbounded();
    let (_tx2, rx) = unbounded();
    let mut bar = TabBar::new(rx);
    bar.add_button(tx.clone(), "a".to_string());
    bar.add_button(tx.clone(), "b".to_string());
    bar.add_button(tx.clone(), "c".to_string());
    bar.swap_button("a", "c");
    assert_eq!(bar.button_key(0), "c");
    assert_eq!(bar.button_key(1), "b");
    assert_eq!(bar.button_key(2), "a");
    bar.swap_button("b", "zz");
    assert_eq!(bar.button_key(1), "b");
}

#[test]
fn required_size_accumulates_along_the_bar_axis() {
    let (tx, _keep) = unbounded();
    let (_tx2, rx) = unbounded();
    let mut bar = TabBar::new(rx);
    bar.add_button(tx.clone(), "a".to_string());
    bar.add_button(tx.clone(), "b".to_string());
    bar.add_button(tx.clone(), "c".to_string());
    let r = bar.required_size(XY::new(20, 5), &sizes(&[4, 3, 3]));
    // full width requested, transverse extent is the tallest control
    assert_eq!(r, XY::new(20, 1));
    assert_eq!(bar.total_size(), XY::new(10, 1));
    assert_eq!(bar.button_position(0), XY::new(4, 1));
    assert_eq!(bar.button_position(1), XY::new(7, 1));
    assert_eq!(bar.button_position(2), XY::new(10, 1));
    assert_eq!(bar.button_size(1), XY::new(3, 1));
}

#[test]
fn required_size_vertical_uses_widest_control() {
    let (tx, _keep) = unbounded();
    let (_tx2, rx) = unbounded();
    let mut bar = TabBar::new(rx).with_placement(Placement::VerticalLeft);
    bar.add_button(tx.clone(), "a".to_string());
    bar.add_button(tx.clone(), "bb".to_string());
    let r = bar.required_size(XY::new(30, 10), &vec![XY::new(3, 1), XY::new(4, 1)]);
    assert_eq!(r, XY::new(4, 10));
    assert_eq!(bar.total_size(), XY::new(4, 2));
}

#[test]
fn empty_bar_reports_minimal_footprint() {
    let (_tx2, rx) = unbounded();
    let mut bar = TabBar::new(rx);
    let r = bar.required_size(XY::new(20, 5), &Vec::new());
    assert_eq!(r, XY::new(1, 1));
}

#[test]
fn arrow_keys_move_cursor_clamped() {
    let (tx, _keep) = unbounded();
    let (_tx2, rx) = unbounded();
    let mut bar = TabBar::new(rx);
    bar.add_button(tx.clone(), "a".to_string());
    bar.add_button(tx.clone(), "b".to_string());
    assert_eq!(bar.cursor_index(), Some(1));
    // clamped at the last control
    assert_eq!(bar.on_event(Event::Key(Key::Right)), EventResult::Ignored);
    assert_eq!(bar.cursor_index(), Some(1));
    assert_eq!(bar.on_event(Event::Key(Key::Left)), EventResult::Consumed);
    assert_eq!(bar.cursor_index(), Some(0));
    // clamped at the first control, no wraparound
    assert_eq!(bar.on_event(Event::Key(Key::Left)), EventResult::Ignored);
    assert_eq!(bar.cursor_index(), Some(0));
    // transverse keys are not consumed on a horizontal bar
    assert_eq!(bar.on_event(Event::Key(Key::Down)), EventResult::Ignored);
    assert_eq!(bar.on_event(Event::Key(Key::Up)), EventResult::Ignored);
}

#[test]
fn enter_activates_the_cursor_control() {
    let (tx, click_rx) = unbounded();
    let (_tx2, rx) = unbounded();
    let mut bar = TabBar::new(rx);
    bar.add_button(tx.clone(), "a".to_string());
    bar.add_button(tx.clone(), "b".to_string());
    assert_eq!(bar.on_event(Event::Key(Key::Enter)), EventResult::Consumed);
    assert_eq!(click_rx.try_recv(), Ok("b".to_string()));
}

#[test]
fn left_release_selects_the_control_under_the_pointer() {
    let (tx, click_rx) = unbounded();
    let (_tx2, rx) = unbounded();
    let mut bar = TabBar::new(rx);
    bar.add_button(tx.clone(), "a".to_string());
    bar.add_button(tx.clone(), "b".to_string());
    bar.add_button(tx.clone(), "c".to_string());
    bar.required_size(XY::new(20, 3), &sizes(&[3, 3, 3]));
    bar.layout(XY::new(20, 1));
    let click = |x: usize| Event::Mouse {
        offset: XY::new(0, 0),
        position: XY::new(x, 0),
        kind: MouseKind::ReleaseLeft,
    };
    assert_eq!(bar.on_event(click(2)), EventResult::Consumed);
    assert_eq!(bar.cursor_index(), Some(0));
    assert_eq!(click_rx.try_recv(), Ok("a".to_string()));
    // past the first control's corner, the second one is picked
    assert_eq!(bar.on_event(click(6)), EventResult::Consumed);
    assert_eq!(bar.cursor_index(), Some(1));
    assert_eq!(click_rx.try_recv(), Ok("b".to_string()));
    // a press does not select
    let press = Event::Mouse {
        offset: XY::new(0, 0),
        position: XY::new(2, 0),
        kind: MouseKind::Press,
    };
    assert_eq!(bar.on_event(press), EventResult::Ignored);
    assert_eq!(bar.cursor_index(), Some(1));
    assert!(click_rx.try_recv().is_err());
}

#[test]
fn highlight_follows_latest_channel_message() {
    let (tx, _keep) = unbounded();
    let (active_tx, rx) = unbounded();
    let mut bar = TabBar::new(rx);
    bar.add_button(tx.clone(), "a".to_string());
    bar.add_button(tx.clone(), "b".to_string());
    bar.add_button(tx.clone(), "c".to_string());
    assert_eq!(bar.active_index(), Some(2));
    // several queued updates: only the latest one is applied
    active_tx.send("c".to_string()).unwrap();
    active_tx.send("b".to_string()).unwrap();
    active_tx.send("a".to_string()).unwrap();
    bar.required_size(XY::new(20, 3), &sizes(&[3, 3, 3]));
    assert_eq!(bar.active_index(), Some(0));
    // a key that no control carries leaves the highlight alone
    active_tx.send("zz".to_string()).unwrap();
    bar.required_size(XY::new(20, 3), &sizes(&[3, 3, 3]));
    assert_eq!(bar.active_index(), Some(0));
}

#[test]
fn separator_glyphs_mark_the_highlight() {
    assert_eq!(TabBar::h_separator(Some(0), 0), '\u{2528}');
    assert_eq!(TabBar::h_separator(None, 0), '\u{2524}');
    assert_eq!(TabBar::h_separator(Some(1), 1), '\u{2503}');
    assert_eq!(TabBar::h_separator(Some(0), 1), '\u{2503}');
    assert_eq!(TabBar::h_separator(Some(2), 1), '\u{2502}');
    assert_eq!(TabBar::h_end_cap(Some(2), 2), '\u{2520}');
    assert_eq!(TabBar::h_end_cap(Some(1), 2), '\u{251c}');
    assert_eq!(TabBar::v_separator(Some(1), 1), '\u{2501}');
    assert_eq!(TabBar::v_separator(None, 1), '\u{2500}');
    assert_eq!(TabBar::v_start_connector(Some(0)), '\u{2537}');
    assert_eq!(TabBar::v_start_connector(Some(1)), '\u{2534}');
    assert_eq!(TabBar::v_end_connector(Some(1), 1), '\u{252f}');
    assert_eq!(TabBar::v_end_connector(Some(0), 1), '\u{252c}');
}
