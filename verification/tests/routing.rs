use fonts_viewer::app::{boot, boot_with_repository, AppCommand, AppEffect, AppState};
use fonts_viewer::font_list::FontListRepository;
use fonts_viewer::main_view::{MainView, MainViewCommand};
use fonts_viewer::model::{FontEntry, XMessage};
use fonts_viewer::settings_view::{EditorAction, SettingsViewCommand};
use fonts_viewer::toolbar::{Toolbar, ToolbarCommand};

const DEFAULT_SAMPLE: &str = "あのイーハトーヴォのすきとおった風、夏でも底に冷たさをもつ青いそら、うつくしい森で飾られたモリーオ市、郊外のぎらぎらひかる草の波。";

/// Runs one effect to completion, feeding every produced message back into
/// the router, as the host scheduler would.
fn run_effect(app: &mut AppState, effect: AppEffect) -> bool {
    match effect {
        AppEffect::Nothing => false,
        AppEffect::Exit => true,
        AppEffect::Done(command) => {
            let next = app.update(command);
            run_effect(app, next)
        }
        AppEffect::Batch(commands) => {
            let mut exited = false;
            for command in commands {
                let next = app.update(command);
                exited = run_effect(app, next) || exited;
            }
            exited
        }
    }
}

fn booted() -> AppState {
    let (mut app, effect) = boot();
    assert!(!run_effect(&mut app, effect));
    app
}

#[test]
fn escape_terminates_only_while_overlay_closed() {
    let mut app = booted();
    assert!(app.view().settings.is_none());

    // Overlay closed: Escape requests termination.
    match app.update(AppCommand::Esc) {
        AppEffect::Exit => {}
        other => panic!("expected termination, got {other:?}"),
    }

    // Open the overlay, then Escape: consumed, no termination effect.
    let open = app.update(AppCommand::XMessage(XMessage::SettingsOpen));
    assert!(matches!(open, AppEffect::Nothing));
    assert!(app.view().settings.is_some());
    match app.update(AppCommand::Esc) {
        AppEffect::Nothing => {}
        other => panic!("expected Escape to be consumed, got {other:?}"),
    }
    assert!(app.view().settings.is_none());

    // It never double-fires: the next Escape terminates again.
    assert!(matches!(app.update(AppCommand::Esc), AppEffect::Exit));
}

#[test]
fn init_seeds_main_with_full_directory() {
    let repository = FontListRepository::with_entries(vec![FontEntry {
        filepath: "./arial.ttf".to_string(),
        display_name: None,
        font_name: "Arial".to_string(),
    }]);
    let (mut app, effect) = boot_with_repository(std::sync::Arc::new(repository));
    assert!(app.view().main.is_empty());
    assert!(!run_effect(&mut app, effect));

    let blocks = app.view().main;
    assert_eq!(blocks.len(), 1);
    assert_eq!(blocks[0].heading, "Arial");
    assert_eq!(blocks[0].font_name, "Arial");
}

#[test]
fn custom_text_reaches_every_block_and_clears_to_default() {
    let mut app = booted();
    let effect = app.update(AppCommand::SettingsViewCommand(
        SettingsViewCommand::TextEditorAction(EditorAction::Edit("Hello".to_string())),
    ));
    assert!(!run_effect(&mut app, effect));
    let blocks = app.view().main;
    assert!(!blocks.is_empty());
    for block in &blocks {
        assert_eq!(block.sample_text, "Hello");
    }

    let effect = app.update(AppCommand::SettingsViewCommand(
        SettingsViewCommand::TextEditorAction(EditorAction::Edit(String::new())),
    ));
    assert!(!run_effect(&mut app, effect));
    for block in &app.view().main {
        assert_eq!(block.sample_text, DEFAULT_SAMPLE);
    }
}

#[test]
fn font_size_is_rendered_verbatim() {
    let mut app = booted();

    let effect = app.update(AppCommand::SettingsViewCommand(
        SettingsViewCommand::FontSizeUpdated(500),
    ));
    assert!(!run_effect(&mut app, effect));
    for block in &app.view().main {
        assert_eq!(block.font_size, 500);
    }

    let effect = app.update(AppCommand::SettingsViewCommand(
        SettingsViewCommand::FontSizeUpdated(1),
    ));
    assert!(!run_effect(&mut app, effect));
    for block in &app.view().main {
        assert_eq!(block.font_size, 1);
    }
}

#[test]
fn toolbar_control_opens_and_close_control_closes() {
    let mut app = booted();
    assert!(app.view().settings.is_none());

    // Press the toolbar's settings control.
    let control = app.view().toolbar.settings_control;
    let effect = app.update(AppCommand::ToolbarCommand(control));
    assert!(!run_effect(&mut app, effect));
    assert!(app.view().settings.is_some());

    // Press the panel's close control.
    let close = app.view().settings.expect("overlay is open").close_control;
    let effect = app.update(AppCommand::SettingsViewCommand(close));
    assert!(!run_effect(&mut app, effect));
    assert!(app.view().settings.is_none());
}

#[test]
fn main_view_replaces_fields_verbatim() {
    let mut main = MainView::new();
    assert!(main.view().is_empty());

    let task = main.update(MainViewCommand::XMessage(XMessage::FontEntries(vec![
        FontEntry {
            filepath: "./a.ttf".to_string(),
            display_name: Some("Font A".to_string()),
            font_name: "A".to_string(),
        },
    ])));
    assert!(task.is_none());
    let blocks = main.view();
    assert_eq!(blocks.len(), 1);
    assert_eq!(blocks[0].heading, "Font A");
    assert_eq!(blocks[0].font_name, "A");
    assert_eq!(blocks[0].sample_text, DEFAULT_SAMPLE);
    assert_eq!(blocks[0].font_size, 28);

    assert!(main.update(MainViewCommand::XMessage(XMessage::CustomText("hi".to_string()))).is_none());
    assert_eq!(main.view()[0].sample_text, "hi");

    // A send-broadcast request passes through untouched.
    let task = main.update(MainViewCommand::SendXMessage(XMessage::SettingsOpen));
    assert!(matches!(
        task,
        Some(MainViewCommand::SendXMessage(XMessage::SettingsOpen))
    ));
}

#[test]
fn toolbar_emits_settings_open() {
    let mut toolbar = Toolbar::new();
    let control = toolbar.view().settings_control;
    match toolbar.update(control) {
        Some(ToolbarCommand::SendXMessage(XMessage::SettingsOpen)) => {}
        other => panic!("expected the settings-open request, got {other:?}"),
    }
    assert!(toolbar
        .update(ToolbarCommand::XMessage(XMessage::Init))
        .is_none());
}

#[test]
fn title_and_theme_are_fixed() {
    let app = booted();
    assert_eq!(app.title(), "Fonts66 Viewer");
    let _ = app.theme();
}
