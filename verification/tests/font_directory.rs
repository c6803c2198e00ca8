use fonts_viewer::font_list::{FontListDataSourceImpl, FontListRepository};
use fonts_viewer::model::FontEntry;

#[test]
fn test_find_all() {
    let data_source = FontListDataSourceImpl::new();
    let _ = data_source.find_all();
}

#[test]
fn builtin_directory_has_arial() {
    let repository = FontListRepository::default();
    let entries = repository.find_all();
    assert_eq!(entries.len(), 1);
    assert_eq!(entries[0].filepath, "./arial.ttf");
    assert_eq!(entries[0].font_name, "Arial");
    assert!(entries[0].display_name.is_none());
}

#[test]
fn with_entries_round_trips() {
    let repository = FontListRepository::with_entries(vec![
        FontEntry {
            filepath: "./a.ttf".to_string(),
            display_name: Some("Font A".to_string()),
            font_name: "A".to_string(),
        },
        FontEntry {
            filepath: "./b.ttf".to_string(),
            display_name: None,
            font_name: "B".to_string(),
        },
    ]);
    let entries = repository.find_all();
    assert_eq!(entries.len(), 2);
    assert_eq!(entries[0].filepath, "./a.ttf");
    assert_eq!(entries[0].display_name.as_deref(), Some("Font A"));
    assert_eq!(entries[1].filepath, "./b.ttf");
    assert_eq!(entries[1].font_name, "B");
}
