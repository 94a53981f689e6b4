use damascus_ui::toolbar::FileMessage;
use damascus_ui::windows::{Window, WindowManager};

fn window(title: &str) -> Window {
    Window { title: title.to_string(), style_editor_visible: false }
}

#[test]
fn first_window_opened_is_the_main_one() {
    let mut manager = WindowManager::default();
    assert!(manager.main_window_id.is_none());
    manager.opened(7, None);
    manager.opened(3, Some(window("second")));
    assert_eq!(manager.main_window_id, Some(7));
    assert_eq!(manager.windows[&7].title, "damascus");
    assert_eq!(manager.windows[&3].title, "second");
    assert_eq!(manager.window_ids(), vec![3, 7]);
    assert_eq!(Window::default_title(), "damascus");
}

#[test]
fn focus_follows_focus_events() {
    let mut manager = WindowManager::default();
    manager.focused(2);
    assert_eq!(manager.focused_window_id, Some(2));
    manager.unfocused(5);
    assert_eq!(manager.focused_window_id, Some(2));
    manager.unfocused(2);
    assert_eq!(manager.focused_window_id, None);
}

#[test]
fn closing_windows_decides_exit() {
    let mut manager = WindowManager::default();
    manager.opened(1, None);
    manager.opened(2, None);
    manager.opened(3, None);
    assert!(!manager.closed(2));
    assert!(!manager.windows.contains_key(&2));
    assert!(manager.closed(1));
    let mut manager = WindowManager::default();
    manager.opened(1, None);
    assert!(manager.closed(1));
    assert!(manager.windows.is_empty());
}

#[test]
fn open_then_close_restores_windows() {
    let mut manager = WindowManager::default();
    manager.opened(1, Some(window("a")));
    manager.opened(4, None);
    assert!(!manager.closed(4));
    assert_eq!(manager.window_ids(), vec![1]);
    assert_eq!(manager.windows[&1].title, "a");
}

#[test]
fn messages_target_named_or_focused_window() {
    let mut manager = WindowManager::default();
    manager.opened(1, None);
    manager.opened(2, None);
    assert_eq!(manager.target_window(Some(2)), Some(2));
    assert_eq!(manager.target_window(Some(9)), None);
    assert_eq!(manager.target_window(None), None);
    manager.focused(1);
    assert_eq!(manager.target_window(None), Some(1));
}

#[test]
fn style_editors_and_titles_change_in_every_window() {
    let mut manager = WindowManager::default();
    manager.opened(1, None);
    manager.opened(2, Some(window("x")));
    manager.open_style_editors();
    assert!(manager.windows.values().all(|w| w.style_editor_visible));
    manager.update_titles("scene.dm - damascus");
    assert!(manager.windows.values().all(|w| w.title == "scene.dm - damascus"));
    assert!(manager.windows.values().all(|w| w.style_editor_visible));
    manager.close_style_editors();
    assert!(manager.windows.values().all(|w| !w.style_editor_visible));
    let mut w = Window::new();
    w.open_style_editor();
    assert!(w.style_editor_visible);
    w.close_style_editor();
    assert!(!w.style_editor_visible);
}

#[test]
fn restore_closes_every_window_but_the_main_one() {
    let mut manager = WindowManager::default();
    assert!(manager.windows_to_close_for_restore().is_empty());
    manager.opened(5, None);
    manager.opened(2, None);
    manager.opened(9, None);
    assert_eq!(manager.windows_to_close_for_restore(), vec![2, 9]);
}

fn titles(windows: &[Window]) -> Vec<String> {
    windows.iter().map(|w| w.title.clone()).collect()
}

#[test]
fn save_records_every_window_in_order_of_id() {
    let mut m = WindowManager::default();
    m.opened(5, Some(window("five")));
    m.opened(2, Some(window("two")));
    m.opened(9, Some(window("nine")));
    let c = m.record_for(FileMessage::Save).unwrap();
    assert_eq!(titles(&c.windows), vec!["two", "five", "nine"]);
    let c = m.record_for(FileMessage::SaveAs).unwrap();
    assert_eq!(titles(&c.windows), vec!["two", "five", "nine"]);
    assert!(m.record_for(FileMessage::Load).is_none());
}

#[test]
fn restore_fills_the_main_window_and_plans_the_rest() {
    let mut m = WindowManager::default();
    m.opened(5, Some(window("main")));
    m.opened(2, Some(window("two")));
    m.opened(9, Some(window("nine")));
    let saved = vec![window("a"), window("b"), window("c")];
    let plan = m.restore_windows(&saved);
    assert_eq!(m.windows.get(&5).unwrap().title, "a");
    assert_eq!(plan.close, vec![2, 9]);
    assert_eq!(titles(&plan.open), vec!["b", "c"]);
    assert_eq!(m.main_window_id, Some(5));
}

#[test]
fn restore_without_a_main_window_opens_everything_saved() {
    let mut m = WindowManager::default();
    let saved = vec![window("a"), window("b")];
    let plan = m.restore_windows(&saved);
    assert!(plan.close.is_empty());
    assert_eq!(titles(&plan.open), vec!["a", "b"]);
    assert!(m.windows.is_empty());
}

#[test]
fn restore_after_save_with_only_the_main_window_changes_nothing() {
    let mut m = WindowManager::default();
    m.opened(1, Some(window("main")));
    let c = m.context();
    let plan = m.restore_windows(&c.windows);
    assert_eq!(m.windows.get(&1).unwrap().title, "main");
    assert!(plan.close.is_empty() && plan.open.is_empty());
}
