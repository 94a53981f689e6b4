use damascus_ui::style::{StyleEditor, StyleEditorErrors, StyleEditorFields, Theme};

#[test]
fn theme_names_and_labels() {
    assert_eq!(Theme::default(), Theme::Dracula);
    assert_eq!(Theme::iter().len(), 22);
    assert_eq!(Theme::TokyoNightStorm.variant(), "TokyoNightStorm");
    assert_eq!(Theme::TokyoNightStorm.variant_pascal_label(), "Tokyo Night Storm");
    assert_eq!(Theme::from_variant("Nord"), Some(Theme::Nord));
    assert_eq!(Theme::from_variant("nord"), None);
}

#[test]
fn every_theme_label_picks_its_theme() {
    for theme in Theme::iter() {
        let label = theme.variant_pascal_label();
        assert!(matches!(StyleEditor::theme_from_label(&label), Ok(t) if t == theme));
    }
}

#[test]
fn unknown_theme_label_is_an_error() {
    match StyleEditor::theme_from_label("Solarized Pink") {
        Err(StyleEditorErrors::DeserializeError(v)) => assert_eq!(v, "SolarizedPink"),
        _ => panic!("expected an error"),
    }
    assert_eq!(StyleEditorErrors::default().variant(), "UnknownError");
    assert_eq!(StyleEditorErrors::DeserializeError("x".to_string()).variant(), "DeserializeError");
}

#[test]
fn style_editor_fields() {
    assert_eq!(StyleEditorFields::default(), StyleEditorFields::TextSize);
    assert_eq!(StyleEditorFields::iter().len(), 10);
    assert_eq!(StyleEditorFields::FloatInputStep.variant(), "FloatInputStep");
    let _editor = StyleEditor::default();
}
