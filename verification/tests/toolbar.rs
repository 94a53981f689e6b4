use damascus_ui::dialog::{Dialog, DialogStyle};
use damascus_ui::node_graph::NodeGraphMessage;
use damascus_ui::viewport::ViewportMessage;
use damascus_ui::panel::{Pane, TabErrors, TabMessage, Tabs};
use damascus_ui::toolbar::{
    FileMessage, FileTask, Menus, PreferenceMessage, Toolbar, ToolbarErrors, ToolbarMessage,
};

#[test]
fn menu_options_are_pascal_labels() {
    assert_eq!(Menus::File.menu_options(), vec!["Save", "Save As", "Load"]);
    assert_eq!(Menus::Preferences.menu_options(), vec!["Style"]);
    assert_eq!(Menus::iter(), vec![Menus::File, Menus::Preferences]);
    assert_eq!(Menus::Preferences.variant(), "Preferences");
}

#[test]
fn every_menu_option_reads_back_as_its_message() {
    for menu in Menus::iter() {
        for option in menu.menu_options() {
            let message = ToolbarMessage::from_str(&option);
            assert!(message.is_ok());
        }
    }
    assert!(matches!(
        ToolbarMessage::from_str("Save As"),
        Ok(ToolbarMessage::File(FileMessage::SaveAs))
    ));
    assert!(matches!(
        ToolbarMessage::from_str("Style"),
        Ok(ToolbarMessage::Preferences(PreferenceMessage::Style))
    ));
}

#[test]
fn unknown_option_is_a_deserialize_error() {
    match ToolbarMessage::from_str("Save All") {
        Err(ToolbarErrors::DeserializeError(v)) => assert_eq!(v, "SaveAll"),
        _ => panic!("expected an error"),
    }
    let error = ToolbarErrors::DeserializeError("x".to_string());
    assert_eq!(error.message(), "DeserializeError: Could not deserialize from: x");
    assert_eq!(ToolbarErrors::default().message(), "UnknownError: Sounds like a you problem.");
    assert!(matches!(
        ToolbarMessage::from_result(Err(ToolbarErrors::UnknownError)),
        ToolbarMessage::Error(ToolbarErrors::UnknownError)
    ));
    assert!(matches!(
        ToolbarMessage::from_result(Ok(ToolbarMessage::HideModal)),
        ToolbarMessage::HideModal
    ));
}

#[test]
fn file_and_preference_variants() {
    assert_eq!(FileMessage::iter(), vec![FileMessage::Save, FileMessage::SaveAs, FileMessage::Load]);
    assert_eq!(FileMessage::from_variant("Load"), Some(FileMessage::Load));
    assert_eq!(FileMessage::from_variant("load"), None);
    assert_eq!(FileMessage::SaveAs.variant_pascal_label(), "Save As");
    assert_eq!(PreferenceMessage::from_variant("Style"), Some(PreferenceMessage::Style));
}

#[test]
fn toolbar_update_shows_hides_and_asks_for_file_work() {
    let mut toolbar = Toolbar::default();
    assert!(toolbar.dialog.is_none());
    let task = toolbar.update(ToolbarMessage::ShowModal(Dialog::Info("hi".to_string())));
    assert_eq!(task, FileTask::Nothing);
    assert!(matches!(&toolbar.dialog, Some(Dialog::Info(m)) if m == "hi"));
    assert_eq!(toolbar.update(ToolbarMessage::File(FileMessage::Save)), FileTask::Save);
    assert!(toolbar.dialog.is_some());
    assert_eq!(toolbar.update(ToolbarMessage::File(FileMessage::SaveAs)), FileTask::SaveAs);
    assert_eq!(toolbar.update(ToolbarMessage::File(FileMessage::Load)), FileTask::Load);
    assert_eq!(toolbar.update(ToolbarMessage::HideModal), FileTask::Nothing);
    assert!(toolbar.dialog.is_none());
    assert_eq!(
        toolbar.update(ToolbarMessage::Preferences(PreferenceMessage::Style)),
        FileTask::Nothing
    );
}

#[test]
fn file_work_results_become_messages() {
    assert!(Toolbar::save_finished(Ok(true)).is_none());
    assert!(matches!(
        Toolbar::save_finished(Ok(false)),
        Some(ToolbarMessage::File(FileMessage::SaveAs))
    ));
    assert!(matches!(
        Toolbar::save_finished(Err("disk".to_string())),
        Some(ToolbarMessage::ShowModal(Dialog::Error(e))) if e == "disk"
    ));
    assert!(matches!(
        Toolbar::save_as_finished(Ok(true), Some("/tmp/a.dm")),
        Some(ToolbarMessage::ShowModal(Dialog::Success(m)))
            if m == "Successfully saved file at path '/tmp/a.dm'."
    ));
    assert!(matches!(
        Toolbar::save_as_finished(Ok(true), None),
        Some(ToolbarMessage::ShowModal(Dialog::Error(m)))
            if m == "File saved, but working file was not updated."
    ));
    assert!(Toolbar::save_as_finished(Ok(false), Some("x")).is_none());
    assert!(Toolbar::load_finished(Ok(())).is_none());
    assert!(matches!(
        Toolbar::load_finished(Err("bad".to_string())),
        Some(ToolbarMessage::ShowModal(Dialog::Error(e))) if e == "bad"
    ));
}

#[test]
fn dialog_text_and_style() {
    let error = Dialog::Error("e".to_string());
    assert_eq!(error.text(), "e");
    assert_eq!(error.style(), DialogStyle::Error);
    assert_eq!(Dialog::Warning("w".to_string()).style(), DialogStyle::Success);
    assert_eq!(Dialog::Success("s".to_string()).text(), "s");
}

#[test]
fn tab_messages_read_from_tab_names() {
    assert!(matches!(TabMessage::from_str("Node Graph"), Ok(TabMessage::New(Tabs::NodeGraph))));
    assert!(matches!(TabMessage::from_str("Viewport"), Ok(TabMessage::New(Tabs::Viewport))));
    match TabMessage::from_str("Timeline") {
        Err(TabErrors::DeserializeError(v)) => assert_eq!(v, "Timeline"),
        _ => panic!("expected an error"),
    }
    assert_eq!(Tabs::default(), Tabs::NodeGraph);
    assert_eq!(Tabs::iter(), vec![Tabs::NodeGraph, Tabs::Viewport, Tabs::Properties]);
    assert_eq!(TabErrors::default().message(), "UnknownError: Sounds like a you problem.");
}

#[test]
fn pane_update_follows_messages() {
    let mut pane = Pane::default();
    assert_eq!(pane.update(&TabMessage::Properties), None);
    assert_eq!(pane.update(&TabMessage::New(Tabs::NodeGraph)), Some(0));
    assert_eq!(pane.update(&TabMessage::New(Tabs::Viewport)), Some(0));
    assert_eq!(pane.update(&TabMessage::New(Tabs::Properties)), Some(0));
    assert_eq!(pane.update(&TabMessage::Selected(2)), Some(2));
    // Closing the active last tab moves the active index onto the new last tab.
    assert_eq!(pane.update(&TabMessage::Closed(2)), Some(1));
    assert_eq!(pane.tabs, vec![Tabs::NodeGraph, Tabs::Viewport]);
    // Selecting past the end leaves no active tab to forward to.
    assert_eq!(pane.update(&TabMessage::Selected(5)), None);
    assert_eq!(pane.active_tab, 5);
    assert_eq!(pane.update(&TabMessage::Closed(0)), Some(0));
    assert_eq!(pane.update(&TabMessage::Closed(0)), None);
    assert_eq!(pane.active_tab, 0);
    assert!(pane.tabs.is_empty());
}

#[test]
fn tabs_handle_messages_of_their_kind() {
    let graph = TabMessage::NodeGraph(NodeGraphMessage::ClearActiveNode);
    let view = TabMessage::Viewport(ViewportMessage::NoMessage);
    assert!(Tabs::NodeGraph.handles(&graph));
    assert!(!Tabs::NodeGraph.handles(&view));
    assert!(Tabs::Viewport.handles(&view));
    assert!(!Tabs::Properties.handles(&TabMessage::Properties));
    assert!(!Tabs::Viewport.handles(&TabMessage::Selected(0)));
}

#[test]
fn messages_from_their_parts() {
    assert!(matches!(
        ToolbarMessage::from(Dialog::Info("i".to_string())),
        ToolbarMessage::ShowModal(Dialog::Info(m)) if m == "i"
    ));
    assert!(matches!(
        TabMessage::from(NodeGraphMessage::SetActiveNode(3)),
        TabMessage::NodeGraph(NodeGraphMessage::SetActiveNode(3))
    ));
    assert!(matches!(
        TabMessage::from(ViewportMessage::NoMessage),
        TabMessage::Viewport(ViewportMessage::NoMessage)
    ));
}
