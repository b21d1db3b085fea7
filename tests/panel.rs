use ai_lab::messages::{error_dialog_text, window_title};
use ai_lab::workspace::{is_config_file_name, note_shown_after, LabelList, DEFAULT_LABEL};

#[test]
fn config_file_names() {
    assert!(is_config_file_name("example.toml"));
    assert!(is_config_file_name(".toml"));
    assert!(!is_config_file_name(""));
    assert!(!is_config_file_name("example.tom"));
    assert!(!is_config_file_name("toml"));
    assert!(!is_config_file_name("example.toml.bak"));
}

#[test]
fn labels_start_with_default() {
    let l = LabelList::new();
    assert_eq!(l.len(), 1);
    assert_eq!(l.get(0), DEFAULT_LABEL);
}

#[test]
fn labels_add_and_remove() {
    let mut l = LabelList::new();
    assert!(l.add("dog"));
    assert!(l.add("cat"));
    assert!(!l.add(""));
    assert!(l.add("dog"));
    assert_eq!(l.len(), 4);
    assert_eq!(l.get(3), "dog");
    assert!(l.remove(1));
    assert_eq!(l.len(), 3);
    assert_eq!(l.get(1), "cat");
    assert!(!l.remove(0));
    assert_eq!(l.len(), 3);
    assert_eq!(l.get(0), DEFAULT_LABEL);
}

#[test]
fn clustering_note_toggle() {
    assert!(note_shown_after(true, true, false));
    assert!(note_shown_after(true, false, true));
    assert!(!note_shown_after(true, true, true));
    assert!(!note_shown_after(false, false, false));
}

#[test]
fn window_title_with_and_without_version() {
    assert_eq!(window_title(Some("1.2.3")), "AI Lab - v1.2.3");
    assert_eq!(window_title(None), "AI Lab - v0.0.0");
}

#[test]
fn error_dialog_defaults() {
    assert_eq!(
        error_dialog_text(None, None),
        ("Error".to_string(), "An error has occurred!".to_string())
    );
    assert_eq!(
        error_dialog_text(Some("WARNING"), Some("No project selected.")),
        ("WARNING".to_string(), "No project selected.".to_string())
    );
}
