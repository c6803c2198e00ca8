use fonts_viewer::font_list::FontListRepository;
use fonts_viewer::model::{FontEntry, XMessage};
use fonts_viewer::settings_view::{EditorAction, SettingsView, SettingsViewCommand};

fn entry(filepath: &str, display_name: Option<&str>, font_name: &str) -> FontEntry {
    FontEntry {
        filepath: filepath.to_string(),
        display_name: display_name.map(|s| s.to_string()),
        font_name: font_name.to_string(),
    }
}

fn three_font_repository() -> FontListRepository {
    FontListRepository::with_entries(vec![
        entry("./a.ttf", Some("Font A"), "A"),
        entry("./b.ttf", None, "B"),
        entry("./c.ttf", None, "C"),
    ])
}

fn emitted_entries(task: Option<SettingsViewCommand>) -> Vec<FontEntry> {
    match task {
        Some(SettingsViewCommand::SendXMessage(XMessage::FontEntries(entries))) => entries,
        other => panic!("expected a FontEntries broadcast, got {other:?}"),
    }
}

#[test]
fn toggle_emits_enabled_subset_in_order() {
    let repository = three_font_repository();
    let mut panel = SettingsView::new(std::sync::Arc::new(repository));

    let task = panel.update(SettingsViewCommand::FontListItemChanged(
        entry("./b.ttf", None, "B"),
        false,
    ));
    let emitted = emitted_entries(task);
    assert_eq!(emitted.len(), 2);
    assert_eq!(emitted[0].filepath, "./a.ttf");
    assert_eq!(emitted[1].filepath, "./c.ttf");
}

#[test]
fn toggle_round_trip_restores_subset() {
    let repository = three_font_repository();
    let mut panel = SettingsView::new(std::sync::Arc::new(repository));

    let off = panel.update(SettingsViewCommand::FontListItemChanged(
        entry("./b.ttf", None, "B"),
        false,
    ));
    assert_eq!(emitted_entries(off).len(), 2);

    let on = panel.update(SettingsViewCommand::FontListItemChanged(
        entry("./b.ttf", None, "B"),
        true,
    ));
    let emitted = emitted_entries(on);
    assert_eq!(emitted.len(), 3);
    assert_eq!(emitted[0].filepath, "./a.ttf");
    assert_eq!(emitted[1].filepath, "./b.ttf");
    assert_eq!(emitted[2].filepath, "./c.ttf");
}

#[test]
fn init_broadcast_emits_full_list() {
    let repository = three_font_repository();
    let mut panel = SettingsView::new(std::sync::Arc::new(repository));

    let task = panel.update(SettingsViewCommand::XMessage(XMessage::Init));
    let emitted = emitted_entries(task);
    assert_eq!(emitted.len(), 3);
    assert_eq!(emitted[0].filepath, "./a.ttf");
    assert_eq!(emitted[1].filepath, "./b.ttf");
    assert_eq!(emitted[2].filepath, "./c.ttf");
}

#[test]
fn other_broadcasts_are_ignored() {
    let repository = three_font_repository();
    let mut panel = SettingsView::new(std::sync::Arc::new(repository));
    assert!(panel.update(SettingsViewCommand::XMessage(XMessage::SettingsOpen)).is_none());
    assert!(panel.update(SettingsViewCommand::XMessage(XMessage::Exit)).is_none());
    assert!(panel.update(SettingsViewCommand::Sink).is_none());
}

#[test]
fn font_size_edit_emits_broadcast_verbatim() {
    let repository = three_font_repository();
    let mut panel = SettingsView::new(std::sync::Arc::new(repository));

    let task = panel.update(SettingsViewCommand::FontSizeUpdated(500));
    match task {
        Some(SettingsViewCommand::SendXMessage(XMessage::FontSize(500))) => {}
        other => panic!("expected FontSize(500), got {other:?}"),
    }
    assert_eq!(panel.view().font_size, 500);

    let task = panel.update(SettingsViewCommand::FontSizeUpdated(1));
    match task {
        Some(SettingsViewCommand::SendXMessage(XMessage::FontSize(1))) => {}
        other => panic!("expected FontSize(1), got {other:?}"),
    }
    assert_eq!(panel.view().font_size, 1);

    let task = panel.update(SettingsViewCommand::FontSizeUpdated(1000));
    match task {
        Some(SettingsViewCommand::SendXMessage(XMessage::FontSize(1000))) => {}
        other => panic!("expected FontSize(1000), got {other:?}"),
    }
    assert_eq!(panel.view().font_size, 1000);
}

#[test]
fn empty_directory_renders_empty_panel() {
    let repository = FontListRepository::with_entries(vec![]);
    let mut panel = SettingsView::new(std::sync::Arc::new(repository));
    assert!(panel.view().rows.is_empty());
    let task = panel.update(SettingsViewCommand::XMessage(XMessage::Init));
    assert!(emitted_entries(task).is_empty());
}

#[test]
fn text_edit_emits_buffer_text() {
    let repository = three_font_repository();
    let mut panel = SettingsView::new(std::sync::Arc::new(repository));

    let task = panel.update(SettingsViewCommand::TextEditorAction(EditorAction::Edit(
        "Hello".to_string(),
    )));
    match task {
        Some(SettingsViewCommand::SendXMessage(XMessage::CustomText(text))) => {
            assert_eq!(text, "Hello");
        }
        other => panic!("expected CustomText, got {other:?}"),
    }
    assert_eq!(panel.view().text_buffer, "Hello");

    let cursor = panel.update(SettingsViewCommand::TextEditorAction(EditorAction::Cursor));
    assert!(cursor.is_none());
    assert_eq!(panel.view().text_buffer, "Hello");
}

#[test]
fn close_button_emits_settings_close() {
    let repository = three_font_repository();
    let mut panel = SettingsView::new(std::sync::Arc::new(repository));
    match panel.update(SettingsViewCommand::SettingsButtonClicked) {
        Some(SettingsViewCommand::SendXMessage(XMessage::SettingsClose)) => {}
        other => panic!("expected SettingsClose, got {other:?}"),
    }
}

#[test]
fn rows_show_display_name_or_font_name() {
    let repository = three_font_repository();
    let mut panel = SettingsView::new(std::sync::Arc::new(repository));
    let _ = panel.update(SettingsViewCommand::FontListItemChanged(
        entry("./c.ttf", None, "C"),
        false,
    ));

    let scene = panel.view();
    assert_eq!(scene.rows.len(), 3);
    assert_eq!(scene.rows[0].label, "Font A");
    assert!(scene.rows[0].enabled);
    assert_eq!(scene.rows[1].label, "B");
    assert!(scene.rows[1].enabled);
    assert_eq!(scene.rows[2].label, "C");
    assert!(!scene.rows[2].enabled);
    assert_eq!(scene.rows[2].font_entry.filepath, "./c.ttf");
    match scene.close_control {
        SettingsViewCommand::SettingsButtonClicked => {}
        other => panic!("expected the close control, got {other:?}"),
    }
}
