use cursive_tabs::{
    Align, Direction, Event, EventResult, EventStep, Key, MouseKind, Placement, TabPanel,
    TakeFocusStep, XY,
};

fn widths(ws: &[usize]) -> Vec<XY> {
    ws.iter().map(|w| XY::new(*w, 1)).collect()
}

fn panel_ab() -> TabPanel<String> {
    let mut p = TabPanel::new();
    p.add_tab("A".to_string(), "va".to_string());
    p.add_tab("B".to_string(), "vb".to_string());
    p
}

#[test]
fn panel_mirrors_registry_operations() {
    let mut p = panel_ab();
    assert_eq!(p.active_tab(), Some("B"));
    assert_eq!(p.tab_order(), vec!["A".to_string(), "B".to_string()]);
    p.set_active_tab("A").expect("Setting active tab has failed");
    assert_eq!(p.active_tab(), Some("A"));
    p.next();
    assert_eq!(p.active_tab(), Some("B"));
    p.prev();
    assert_eq!(p.active_tab(), Some("A"));
    assert!(p.set_active_tab("zz").is_err());
}

#[test]
fn panel_keeps_bar_and_registry_in_lockstep() {
    let mut p = panel_ab();
    p.add_tab_at("C".to_string(), "vc".to_string(), 1);
    assert_eq!(
        p.tab_order(),
        vec!["A".to_string(), "C".to_string(), "B".to_string()]
    );
    let bar = p.selector_bar();
    assert_eq!(bar.button_count(), 3);
    assert_eq!(bar.button_key(0), "A");
    assert_eq!(bar.button_key(1), "C");
    assert_eq!(bar.button_key(2), "B");
    p.swap_tabs("A", "B");
    assert_eq!(
        p.tab_order(),
        vec!["B".to_string(), "C".to_string(), "A".to_string()]
    );
    assert_eq!(p.selector_bar().button_key(0), "B");
    assert_eq!(p.selector_bar().button_key(2), "A");
    p.remove_tab("C").expect("Removal failed.");
    assert_eq!(p.tab_order(), vec!["B".to_string(), "A".to_string()]);
    assert_eq!(p.selector_bar().button_count(), 2);
    // re-adding an existing key must not grow the bar
    p.add_tab("B".to_string(), "vb2".to_string());
    assert_eq!(p.selector_bar().button_count(), 2);
    assert_eq!(p.tab_order(), vec!["B".to_string(), "A".to_string()]);
}

#[test]
fn with_builders_chain() {
    let p: TabPanel<String> = TabPanel::new()
        .with_tab("Stonks".to_string(), "Pshhhh".to_string())
        .with_tab_at("So".to_string(), "Fooooo".to_string(), 0)
        .with_tab_at("Much".to_string(), "Ahhhhh".to_string(), 1)
        .with_bar_alignment(Align::Center);
    assert_eq!(
        p.tab_order(),
        vec!["So".to_string(), "Much".to_string(), "Stonks".to_string()]
    );
    assert_eq!(p.bar_alignment(), Align::Center);
    let p = match p.with_active_tab("Stonks") {
        Ok(p) => p,
        Err(_) => panic!("Setting active tab has failed"),
    };
    let p = p.with_bar_placement(Placement::VerticalLeft);
    assert_eq!(p.active_tab(), Some("Stonks"));
    assert_eq!(p.bar_placement(), Placement::VerticalLeft);
    assert_eq!(p.selector_bar().placement(), Placement::VerticalLeft);
}

#[test]
fn highlight_follows_set_active_over_the_channel() {
    let mut p = panel_ab();
    assert_eq!(p.selector_bar().active_index(), Some(1));
    p.set_active_tab("A").expect("Setting tab has failed");
    // the notification is applied on the next measuring pass
    p.required_size(XY::new(20, 5), XY::new(5, 3), &widths(&[3, 3]));
    assert_eq!(p.selector_bar().active_index(), Some(0));
}

#[test]
fn click_on_bar_drives_the_registry() {
    let mut p = panel_ab();
    p.required_size(XY::new(20, 5), XY::new(5, 3), &widths(&[3, 3]));
    p.layout(XY::new(20, 5));
    assert_eq!(p.active_tab(), Some("B"));
    // left release over the first control, in panel coordinates
    let click = Event::Mouse {
        offset: XY::new(0, 0),
        position: XY::new(2, 0),
        kind: MouseKind::ReleaseLeft,
    };
    let step = p.on_event(&click);
    assert_eq!(step, EventStep::Done(EventResult::Consumed));
    // the click sent "A" to the registry; the next poll applies it
    p.poll_bar_request();
    assert_eq!(p.active_tab(), Some("A"));
}

#[test]
fn move_toward_content_hands_focus_over_when_accepted() {
    let mut p = panel_ab();
    assert!(p.is_bar_focused());
    let step = p.on_event(&Event::Key(Key::Down));
    assert_eq!(step, EventStep::AskContentFocus { dir: Direction::Up });
    let r = p.on_focus_resolved(true);
    assert_eq!(r, EventResult::Consumed);
    assert!(!p.is_bar_focused());
}

#[test]
fn move_toward_content_stays_put_when_refused() {
    let mut p = panel_ab();
    let step = p.on_event(&Event::Key(Key::Down));
    assert_eq!(step, EventStep::AskContentFocus { dir: Direction::Up });
    let r = p.on_focus_resolved(false);
    assert_eq!(r, EventResult::Ignored);
    assert!(p.is_bar_focused());
}

#[test]
fn unconsumed_key_toward_bar_returns_focus_to_it() {
    let mut p = panel_ab();
    let step = p.on_event(&Event::Key(Key::Down));
    assert!(matches!(step, EventStep::AskContentFocus { .. }));
    p.on_focus_resolved(true);
    assert!(!p.is_bar_focused());
    // content holds focus: events are forwarded to it
    let evt = Event::Key(Key::Up);
    let step = p.on_event(&evt);
    assert_eq!(
        step,
        EventStep::ForwardToContent {
            evt,
            base: EventResult::Ignored
        }
    );
    let r = p.on_content_resolved(&evt, false, EventResult::Ignored);
    assert_eq!(r, EventResult::Consumed);
    assert!(p.is_bar_focused());
}

#[test]
fn consumed_content_event_leaves_focus_alone() {
    let mut p = panel_ab();
    p.on_event(&Event::Key(Key::Down));
    p.on_focus_resolved(true);
    let evt = Event::Key(Key::Up);
    p.on_event(&evt);
    let r = p.on_content_resolved(&evt, true, EventResult::Ignored);
    assert_eq!(r, EventResult::Consumed);
    assert!(!p.is_bar_focused());
}

#[test]
fn press_in_content_region_grabs_focus_for_it() {
    let mut p = panel_ab();
    p.required_size(XY::new(20, 8), XY::new(10, 5), &widths(&[3, 3]));
    p.layout(XY::new(20, 8));
    assert!(p.is_bar_focused());
    let press = Event::Mouse {
        offset: XY::new(0, 0),
        position: XY::new(5, 5),
        kind: MouseKind::Press,
    };
    let step = p.on_event(&press);
    assert_eq!(step, EventStep::AskContentGrab);
    let step = p.on_grab_resolved(&press, true);
    assert!(matches!(step, EventStep::ForwardToContent { .. }));
    assert!(!p.is_bar_focused());
    // a press back on the bar's row grabs focus for the bar
    let press_bar = Event::Mouse {
        offset: XY::new(0, 0),
        position: XY::new(0, 0),
        kind: MouseKind::Press,
    };
    let step = p.on_event(&press_bar);
    assert!(matches!(step, EventStep::Done(_)));
    assert!(p.is_bar_focused());
}

#[test]
fn refresh_is_always_consumed() {
    let mut p = panel_ab();
    assert_eq!(
        p.on_event(&Event::Refresh),
        EventStep::Done(EventResult::Consumed)
    );
}

#[test]
fn take_focus_respects_placement() {
    let mut p = panel_ab();
    // bar on top: focus arriving from above selects the bar
    assert_eq!(
        p.take_focus(Direction::Up),
        TakeFocusStep::Done(EventResult::Consumed)
    );
    assert!(p.is_bar_focused());
    // focus pushing down is offered to the content first
    assert_eq!(
        p.take_focus(Direction::Down),
        TakeFocusStep::AskContent {
            dir: Direction::Down
        }
    );
    assert_eq!(p.on_take_focus_resolved(true), EventResult::Consumed);
    assert!(!p.is_bar_focused());
    // sideways focus goes to whichever region already holds it
    assert_eq!(
        p.take_focus(Direction::Left),
        TakeFocusStep::AskContent {
            dir: Direction::Left
        }
    );
    assert_eq!(p.on_take_focus_resolved(false), EventResult::Ignored);
    assert!(p.is_bar_focused());
    assert_eq!(
        p.take_focus(Direction::Left),
        TakeFocusStep::Done(EventResult::Consumed)
    );
}

#[test]
fn panel_sizing_combines_bar_and_content() {
    let mut p = panel_ab();
    let r = p.required_size(XY::new(20, 8), XY::new(10, 5), &widths(&[3, 3]));
    // bar asks for (20, 1); stacked over content (10, 5) plus the
    // border row (12, 1): width 20, height 1 + 5 + 1
    assert_eq!(r, XY::new(20, 7));
    assert_eq!(p.bar_region_size(), XY::new(20, 1));
    let (bar_cst, content) = p.layout(XY::new(20, 8));
    assert_eq!(bar_cst, XY::new(18, 1));
    assert_eq!(content, XY::new(18, 6));
    assert_eq!(p.tab_region_size(), XY::new(18, 6));
}

#[test]
fn panel_areas_and_frame_for_top_placement() {
    let mut p = panel_ab();
    p.required_size(XY::new(20, 8), XY::new(10, 5), &widths(&[3, 3]));
    p.layout(XY::new(20, 8));
    let size = XY::new(20, 8);
    assert_eq!(p.bar_area(size), (XY::new(1, 0), XY::new(18, 1)));
    assert_eq!(p.tab_area(size), (XY::new(1, 1), XY::new(18, 6)));
    let (tl, tr, bl, br) = p.frame_corners(size);
    assert_eq!(tl, XY::new(0, 0));
    assert_eq!(tr, XY::new(19, 0));
    assert_eq!(bl, XY::new(0, 7));
    assert_eq!(br, XY::new(19, 7));
}

#[test]
fn vertical_right_panel_keeps_lockstep_and_layout() {
    let p: TabPanel<String> =
        TabPanel::new().with_tab("Stronk test".to_string(), "Pshhhh".to_string());
    let p = match p.with_active_tab("Stronk test") {
        Ok(p) => p,
        Err(_) => panic!("Setting active tab has failed"),
    };
    let mut p = p
        .with_bar_alignment(Align::Center)
        .with_bar_placement(Placement::VerticalRight);
    let r = p.required_size(XY::new(30, 10), XY::new(8, 4), &widths(&[11]));
    // bar asks for (11, 10) beside content (8, 4), stacked over the
    // border allowance (1, 6)
    assert_eq!(r, XY::new(19, 16));
    let (bar_cst, content) = p.layout(XY::new(30, 10));
    assert_eq!(bar_cst, XY::new(11, 8));
    assert_eq!(content, XY::new(18, 8));
}

#[test]
fn panel_default_is_empty_with_bar_focused() {
    let p: TabPanel<String> = Default::default();
    assert!(p.active_tab().is_none());
    assert!(p.tab_order().is_empty());
    assert!(p.is_bar_focused());
}
