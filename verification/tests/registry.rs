use cursive_tabs::TabView;

#[test]
fn smoke() {
    let _ = TabView::<String>::new();
}

#[test]
fn insert() {
    let mut tabs = TabView::new().with_tab("0".to_string(), "zero".to_string());
    tabs.add_tab("1".to_string(), "one".to_string());
}

#[test]
fn switch() {
    let mut tabs = TabView::new();
    tabs.add_tab("0".to_string(), "zero".to_string());
    tabs.add_tab("1".to_string(), "one".to_string());
    assert_eq!(tabs.active_tab().expect("Id not correct"), "1");
    tabs.set_active_tab("0").expect("Id not taken");
    assert_eq!(tabs.active_tab().expect("Id not correct"), "0");
}

#[test]
fn remove() {
    let mut tabs = TabView::new();
    tabs.add_tab("0".to_string(), "zero".to_string());
    tabs.add_tab("1".to_string(), "one".to_string());
    assert_eq!(tabs.remove_tab("1"), Ok(()));
    assert!(tabs.active_tab().is_none());
}

#[test]
fn last_inserted_becomes_active_and_next_wraps() {
    let mut tabs = TabView::new();
    tabs.add_tab("A".to_string(), "a".to_string());
    tabs.add_tab("B".to_string(), "b".to_string());
    assert_eq!(tabs.active_tab(), Some("B"));
    tabs.next();
    assert_eq!(tabs.active_tab(), Some("A"));
    tabs.next();
    assert_eq!(tabs.active_tab(), Some("B"));
}

#[test]
fn prev_wraps_and_round_trips() {
    let mut tabs = TabView::new();
    tabs.add_tab("A".to_string(), "a".to_string());
    tabs.add_tab("B".to_string(), "b".to_string());
    tabs.add_tab("C".to_string(), "c".to_string());
    assert_eq!(tabs.active_tab(), Some("C"));
    tabs.prev();
    assert_eq!(tabs.active_tab(), Some("B"));
    tabs.prev();
    assert_eq!(tabs.active_tab(), Some("A"));
    tabs.prev();
    assert_eq!(tabs.active_tab(), Some("C"));
    // next after prev returns to the starting key, from every key
    for start in ["A", "B", "C"] {
        tabs.set_active_tab(start).unwrap();
        tabs.next();
        tabs.prev();
        assert_eq!(tabs.active_tab(), Some(start));
        tabs.prev();
        tabs.next();
        assert_eq!(tabs.active_tab(), Some(start));
    }
}

#[test]
fn next_prev_on_empty_registry_is_a_noop() {
    let mut tabs = TabView::<String>::new();
    tabs.next();
    tabs.prev();
    assert!(tabs.active_tab().is_none());
    assert!(tabs.tab_order().is_empty());
}

#[test]
fn remove_active_clears_active_and_keeps_order() {
    let mut tabs = TabView::new();
    tabs.add_tab("A".to_string(), "a".to_string());
    tabs.add_tab("B".to_string(), "b".to_string());
    tabs.add_tab("C".to_string(), "c".to_string());
    tabs.set_active_tab("B").unwrap();
    assert_eq!(tabs.remove_tab("B"), Ok(()));
    assert_eq!(tabs.tab_order(), vec!["A".to_string(), "C".to_string()]);
    assert!(tabs.active_tab().is_none());
}

#[test]
fn remove_inactive_keeps_active() {
    let mut tabs = TabView::new();
    tabs.add_tab("A".to_string(), "a".to_string());
    tabs.add_tab("B".to_string(), "b".to_string());
    tabs.add_tab("C".to_string(), "c".to_string());
    tabs.set_active_tab("B").unwrap();
    assert_eq!(tabs.remove_tab("C"), Ok(()));
    assert_eq!(tabs.active_tab(), Some("B"));
    assert_eq!(tabs.tab_order(), vec!["A".to_string(), "B".to_string()]);
}

#[test]
fn remove_missing_key_is_an_error() {
    let mut tabs = TabView::new();
    tabs.add_tab("A".to_string(), "a".to_string());
    let err = tabs.remove_tab("missing").unwrap_err();
    assert_eq!(err.id, "missing".to_string());
    assert_eq!(err.id(), "missing");
    assert_eq!(tabs.tab_order(), vec!["A".to_string()]);
    assert_eq!(tabs.active_tab(), Some("A"));
}

#[test]
fn set_active_succeeds_exactly_for_registered_keys() {
    let mut tabs = TabView::new();
    tabs.add_tab("A".to_string(), "a".to_string());
    tabs.add_tab("B".to_string(), "b".to_string());
    assert_eq!(tabs.set_active_tab("A"), Ok(()));
    assert_eq!(tabs.active_tab(), Some("A"));
    let err = tabs.set_active_tab("Z").unwrap_err();
    assert_eq!(err.id, "Z".to_string());
    assert_eq!(tabs.active_tab(), Some("A"));
}

#[test]
fn add_at_past_the_end_appends() {
    let mut tabs = TabView::new();
    tabs.add_tab("A".to_string(), "a".to_string());
    tabs.add_tab("B".to_string(), "b".to_string());
    tabs.add_tab_at("X".to_string(), "x".to_string(), 100);
    assert_eq!(
        tabs.tab_order(),
        vec!["A".to_string(), "B".to_string(), "X".to_string()]
    );
    assert_eq!(tabs.active_tab(), Some("X"));
}

#[test]
fn add_at_inserts_in_order() {
    let tabs = TabView::new()
        .with_tab_at("Third".to_string(), "3".to_string(), 0)
        .with_tab_at("First".to_string(), "1".to_string(), 0)
        .with_tab_at("Second".to_string(), "2".to_string(), 1);
    assert_eq!(
        tabs.tab_order(),
        vec![
            "First".to_string(),
            "Second".to_string(),
            "Third".to_string()
        ]
    );
    assert_eq!(tabs.active_tab(), Some("Second"));
}

#[test]
fn re_adding_a_key_keeps_its_position_and_replaces_the_view() {
    let mut tabs = TabView::new();
    tabs.add_tab("A".to_string(), "a1".to_string());
    tabs.add_tab("B".to_string(), "b".to_string());
    tabs.add_tab("A".to_string(), "a2".to_string());
    assert_eq!(tabs.tab_order(), vec!["A".to_string(), "B".to_string()]);
    assert_eq!(tabs.active_tab(), Some("A"));
    assert_eq!(tabs.active_view(), Some(&"a2".to_string()));
}

#[test]
fn order_holds_each_registered_key_exactly_once() {
    let mut tabs = TabView::new();
    tabs.add_tab("A".to_string(), "a".to_string());
    tabs.add_tab("B".to_string(), "b".to_string());
    tabs.add_tab_at("C".to_string(), "c".to_string(), 1);
    tabs.add_tab("B".to_string(), "b2".to_string());
    tabs.swap_tabs("A", "C");
    tabs.remove_tab("C").unwrap();
    tabs.add_tab_at("A".to_string(), "a2".to_string(), 5);
    let order = tabs.tab_order();
    for key in ["A", "B"] {
        assert_eq!(order.iter().filter(|k| k.as_str() == key).count(), 1);
    }
    assert_eq!(order.len(), 2);
}

#[test]
fn swap_exchanges_positions_only() {
    let mut tabs = TabView::new();
    tabs.add_tab("A".to_string(), "a".to_string());
    tabs.add_tab("B".to_string(), "b".to_string());
    tabs.add_tab("C".to_string(), "c".to_string());
    tabs.set_active_tab("A").unwrap();
    tabs.swap_tabs("A", "C");
    assert_eq!(
        tabs.tab_order(),
        vec!["C".to_string(), "B".to_string(), "A".to_string()]
    );
    assert_eq!(tabs.active_tab(), Some("A"));
}

#[test]
fn swap_with_missing_key_is_a_noop() {
    let mut tabs = TabView::new();
    tabs.add_tab("A".to_string(), "a".to_string());
    tabs.add_tab("B".to_string(), "b".to_string());
    tabs.swap_tabs("A", "Z");
    assert_eq!(tabs.tab_order(), vec!["A".to_string(), "B".to_string()]);
}

#[test]
fn with_active_tab_returns_the_registry_either_way() {
    let tabs = TabView::new().with_tab("A".to_string(), "a".to_string());
    let tabs = match tabs.with_active_tab("Z") {
        Ok(_) => panic!("unknown key accepted"),
        Err(t) => t,
    };
    let tabs = match tabs.with_active_tab("A") {
        Ok(t) => t,
        Err(_) => panic!("known key refused"),
    };
    assert_eq!(tabs.active_tab(), Some("A"));
}

#[test]
fn views_follow_display_order() {
    let mut tabs = TabView::new();
    tabs.add_tab("A".to_string(), "a".to_string());
    tabs.add_tab("B".to_string(), "b".to_string());
    let views = tabs.views();
    assert_eq!(views, vec![&"a".to_string(), &"b".to_string()]);
}

#[test]
fn active_view_mut_edits_in_place() {
    let mut tabs = TabView::new();
    tabs.add_tab("A".to_string(), "a".to_string());
    tabs.add_tab("B".to_string(), "b".to_string());
    if let Some(v) = tabs.active_view_mut() {
        v.push_str("-edited");
    }
    assert_eq!(tabs.active_view(), Some(&"b-edited".to_string()));
    assert_eq!(tabs.view_mut_at(0), &mut "a".to_string());
}

#[test]
fn tab_order_is_a_detached_copy() {
    let mut tabs = TabView::new();
    tabs.add_tab("A".to_string(), "a".to_string());
    let order = tabs.tab_order();
    tabs.add_tab("B".to_string(), "b".to_string());
    assert_eq!(order, vec!["A".to_string()]);
    assert_eq!(tabs.tab_order(), vec!["A".to_string(), "B".to_string()]);
}

#[test]
fn default_is_empty() {
    let tabs: TabView<String> = Default::default();
    assert!(tabs.active_tab().is_none());
    assert_eq!(tabs.len(), 0);
}
