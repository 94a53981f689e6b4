use damascus_ui::tab_bar::{Position, Status, TabBar, TabBarEvent, TabLabel};

#[derive(Clone, Debug, PartialEq, Eq)]
enum TestTabId {
    One,
    Two,
    Three,
}

type TestTabBar = TabBar<TestTabId>;

#[test]
fn tab_bar_push_adds_tab() {
    let tab_bar = TestTabBar::new().push(TestTabId::One, TabLabel::Text("Tab 1".to_owned()));

    assert_eq!(tab_bar.tab_labels().len(), 1);
    assert_eq!(tab_bar.tab_indices().len(), 1);
    assert_eq!(tab_bar.tab_indices()[0], TestTabId::One);
}

#[test]
fn tab_bar_push_multiple_tabs() {
    let tab_bar = TestTabBar::new()
        .push(TestTabId::One, TabLabel::Text("Tab 1".to_owned()))
        .push(TestTabId::Two, TabLabel::Text("Tab 2".to_owned()))
        .push(TestTabId::Three, TabLabel::Text("Tab 3".to_owned()));

    assert_eq!(tab_bar.tab_labels().len(), 3);
    assert_eq!(tab_bar.tab_indices().len(), 3);
}

#[test]
fn tab_bar_set_active_tab_sets_correct_index() {
    let tab_bar = TestTabBar::new()
        .push(TestTabId::One, TabLabel::Text("Tab 1".to_owned()))
        .push(TestTabId::Two, TabLabel::Text("Tab 2".to_owned()))
        .push(TestTabId::Three, TabLabel::Text("Tab 3".to_owned()))
        .set_active_tab(&TestTabId::Two);

    assert_eq!(tab_bar.get_active_tab_idx(), 1);
    assert_eq!(tab_bar.get_active_tab_id(), Some(&TestTabId::Two));
}

#[test]
fn tab_bar_get_active_tab_idx_returns_index() {
    let tab_bar = TestTabBar::new()
        .push(TestTabId::One, TabLabel::Text("Tab 1".to_owned()))
        .push(TestTabId::Two, TabLabel::Text("Tab 2".to_owned()))
        .set_active_tab(&TestTabId::Two);

    assert_eq!(tab_bar.get_active_tab_idx(), 1);
}

#[test]
fn tab_bar_size_returns_number_of_tabs() {
    let tab_bar = TestTabBar::new()
        .push(TestTabId::One, TabLabel::Text("Tab 1".to_owned()))
        .push(TestTabId::Two, TabLabel::Text("Tab 2".to_owned()))
        .push(TestTabId::Three, TabLabel::Text("Tab 3".to_owned()));

    assert_eq!(tab_bar.size(), 3);
}

#[test]
fn tab_bar_on_close_enables_close_button() {
    let tab_bar = TestTabBar::new().on_close();

    assert!(tab_bar.close_enabled());
}

#[test]
fn tab_bar_with_tab_labels_creates_tabs() {
    let labels = vec![
        (TestTabId::One, TabLabel::Text("Tab 1".to_owned())),
        (TestTabId::Two, TabLabel::Text("Tab 2".to_owned())),
    ];

    let tab_bar = TestTabBar::with_tab_labels(labels);

    assert_eq!(tab_bar.tab_labels().len(), 2);
    assert_eq!(tab_bar.tab_indices().len(), 2);
}

#[test]
fn tab_bar_new_is_empty_with_first_tab_active() {
    let tab_bar = TestTabBar::new();
    assert_eq!(tab_bar.get_active_tab_idx(), 0);
    assert_eq!(tab_bar.size(), 0);
    assert_eq!(tab_bar.tab_labels().len(), 0);
    assert_eq!(tab_bar.tab_indices().len(), 0);
    assert!(tab_bar.tab_statuses().is_empty());
    assert_eq!(tab_bar.get_active_tab_id(), None);
    assert!(!tab_bar.close_enabled());
    assert_eq!(tab_bar.position(), Position::Left);
    assert_eq!(Position::default(), Position::Left);
}

#[test]
fn tab_bar_with_tab_labels_keeps_order_and_clears_statuses() {
    let tab_bar = TestTabBar::with_tab_labels(vec![
        (TestTabId::Three, TabLabel::Icon('x')),
        (TestTabId::One, TabLabel::IconText('y', "One".to_owned())),
    ]);
    assert_eq!(tab_bar.tab_indices(), &vec![TestTabId::Three, TestTabId::One]);
    assert!(matches!(tab_bar.tab_labels()[0], TabLabel::Icon('x')));
    assert!(matches!(&tab_bar.tab_labels()[1], TabLabel::IconText('y', t) if t == "One"));
    assert_eq!(tab_bar.tab_statuses(), &vec![(None, None), (None, None)]);
}

#[test]
fn tab_bar_set_active_tab_picks_first_match_or_first_tab() {
    let tab_bar = TestTabBar::new()
        .push(TestTabId::One, TabLabel::Text("a".to_owned()))
        .push(TestTabId::Two, TabLabel::Text("b".to_owned()))
        .push(TestTabId::Two, TabLabel::Text("c".to_owned()));
    let tab_bar = tab_bar.set_active_tab(&TestTabId::Two);
    assert_eq!(tab_bar.get_active_tab_idx(), 1);
    let tab_bar = tab_bar.set_active_tab(&TestTabId::Three);
    assert_eq!(tab_bar.get_active_tab_idx(), 0);
}

#[test]
fn tab_bar_push_keeps_active_tab() {
    let tab_bar = TestTabBar::new()
        .push(TestTabId::One, TabLabel::Text("a".to_owned()))
        .push(TestTabId::Two, TabLabel::Text("b".to_owned()))
        .set_active_tab(&TestTabId::Two)
        .push(TestTabId::Three, TabLabel::Text("c".to_owned()));
    assert_eq!(tab_bar.get_active_tab_id(), Some(&TestTabId::Two));
    assert_eq!(tab_bar.tab_statuses().len(), 3);
}

#[test]
fn tab_bar_set_position_changes_only_position() {
    let tab_bar = TestTabBar::new()
        .push(TestTabId::One, TabLabel::Text("a".to_owned()))
        .set_position(Position::Top);
    assert_eq!(tab_bar.position(), Position::Top);
    assert_eq!(tab_bar.size(), 1);
}

#[test]
fn tab_bar_press_selects_first_hit_tab() {
    let tab_bar = TestTabBar::new()
        .push(TestTabId::One, TabLabel::Text("a".to_owned()))
        .push(TestTabId::Two, TabLabel::Text("b".to_owned()))
        .push(TestTabId::Three, TabLabel::Text("c".to_owned()));
    assert_eq!(
        tab_bar.press(&vec![false, true, true], &vec![true, true, true]),
        Some(TabBarEvent::Select(1))
    );
    assert_eq!(tab_bar.press(&vec![false, false, false], &vec![true, true, true]), None);
}

#[test]
fn tab_bar_press_closes_when_close_icon_hit() {
    let tab_bar = TestTabBar::new()
        .push(TestTabId::One, TabLabel::Text("a".to_owned()))
        .push(TestTabId::Two, TabLabel::Text("b".to_owned()))
        .on_close();
    assert_eq!(
        tab_bar.press(&vec![false, true], &vec![false, true]),
        Some(TabBarEvent::Close(1))
    );
    assert_eq!(
        tab_bar.press(&vec![true, false], &vec![false, true]),
        Some(TabBarEvent::Select(0))
    );
}

#[test]
fn tab_bar_update_statuses_redraw_then_settles() {
    let mut tab_bar = TestTabBar::new()
        .push(TestTabId::One, TabLabel::Text("a".to_owned()))
        .push(TestTabId::Two, TabLabel::Text("b".to_owned()))
        .push(TestTabId::Three, TabLabel::Text("c".to_owned()))
        .set_active_tab(&TestTabId::Two);
    let hovered = vec![true, false, false];
    let cross = vec![Some(false), None, None];
    // Nothing stored yet: only the close icon hover differs.
    assert!(tab_bar.update_statuses(&hovered, &cross, false));
    assert_eq!(tab_bar.tab_statuses(), &vec![(None, None), (None, None), (None, None)]);
    // A redraw stores the statuses and asks for nothing.
    assert!(!tab_bar.update_statuses(&hovered, &cross, true));
    assert_eq!(
        tab_bar.tab_statuses(),
        &vec![
            (Some(Status::Hovered), Some(false)),
            (Some(Status::Active), None),
            (Some(Status::Disabled), None),
        ]
    );
    // The same hover again asks for no redraw.
    assert!(!tab_bar.update_statuses(&hovered, &cross, false));
    // A different hover does.
    assert!(tab_bar.update_statuses(&vec![false, false, true], &cross, false));
}

#[test]
fn tab_labels_from_icons_and_texts() {
    assert!(matches!(TabLabel::from('x'), TabLabel::Icon('x')));
    assert!(matches!(TabLabel::from("Tab".to_string()), TabLabel::Text(t) if t == "Tab"));
    assert!(matches!(
        TabLabel::from(('i', "Tab".to_string())),
        TabLabel::IconText('i', t) if t == "Tab"
    ));
}
