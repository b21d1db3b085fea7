use ai_lab::config::{
    generate_config, modify_config, parse_config, render_config, Config, Owner, StoreError,
};
use ai_lab::registry::{read_projects, register_project, registry_path};
use ai_lab::text::BANNER;

fn record(title: &str, name: &str, dob: &str) -> Config {
    Config {
        title: title.to_string(),
        owner: Owner { name: name.to_string(), dob: dob.to_string() },
    }
}

#[test]
fn generate_with_no_values_uses_defaults() {
    let c = generate_config(None, None, None);
    assert_eq!(c, record("Default Title", "Default Name", "2000-01-01"));
}

#[test]
fn generate_keeps_given_values() {
    let c = generate_config(Some("name"), Some("01.01.2024"), Some("ai lab config title"));
    assert_eq!(c, record("ai lab config title", "name", "01.01.2024"));
    let d = generate_config(None, Some("1999-12-31"), None);
    assert_eq!(d, record("Default Title", "Default Name", "1999-12-31"));
}

#[test]
fn config_round_trip() {
    let c = record("My \"quoted\" title", "Ada Lovelace", "1815-12-10");
    let text = render_config(&c);
    assert_eq!(parse_config(&text), Ok(c));
}

#[test]
fn config_round_trip_of_empty_and_unusual_text() {
    let c = record("", "name with = and # and \\ and \n newline", "ünïcödé");
    let text = render_config(&c);
    assert_eq!(parse_config(&text), Ok(c));
}

#[test]
fn rendered_config_is_toml_with_banner() {
    let text = render_config(&record("T", "N", "D"));
    assert!(text.starts_with(BANNER));
    let body = &text[BANNER.len()..];
    assert!(body.contains("title = \"T\""));
    assert!(body.contains("[owner]"));
    assert!(body.contains("name = \"N\""));
    assert!(body.contains("dob = \"D\""));
}

#[test]
fn parse_hand_written_config() {
    let text = "title = 'TOML Example'\n\n[owner]\nname = 'Lisa'\ndob = '1979-05-27'\n";
    assert_eq!(parse_config(text), Ok(record("TOML Example", "Lisa", "1979-05-27")));
}

#[test]
fn parse_ignores_unknown_keys() {
    let text = "title = 'T'\nextra = 3\n[owner]\nname = 'N'\ndob = 'D'\nage = 4\n";
    assert_eq!(parse_config(text), Ok(record("T", "N", "D")));
}

#[test]
fn parse_invalid_toml_fails() {
    assert_eq!(parse_config("this is = = not toml ["), Err(StoreError::Parse));
    assert_eq!(parse_config("title = \"unterminated\n"), Err(StoreError::Parse));
}

#[test]
fn parse_wrong_shape_fails() {
    assert_eq!(parse_config(""), Err(StoreError::Parse));
    assert_eq!(parse_config("title = 'T'\n"), Err(StoreError::Parse));
    assert_eq!(parse_config("title = 5\n[owner]\nname = 'N'\ndob = 'D'\n"), Err(StoreError::Parse));
    assert_eq!(parse_config("title = 'T'\nowner = 'me'\n"), Err(StoreError::Parse));
    assert_eq!(parse_config("title = 'T'\n[owner]\nname = 'N'\n"), Err(StoreError::Parse));
    assert_eq!(parse_config("title = 'T'\n[owner]\nname = 'N'\ndob = 2000-01-01\n"), Err(StoreError::Parse));
}

#[test]
fn register_on_missing_registry_lists_the_path() {
    let text = register_project(None, "a.toml");
    assert!(text.starts_with(BANNER));
    assert_eq!(read_projects(Some(&text)), vec!["a.toml".to_string()]);
}

#[test]
fn register_twice_keeps_order() {
    let first = register_project(None, "a.toml");
    let second = register_project(Some(&first), "b.toml");
    assert_eq!(read_projects(Some(&second)), vec!["a.toml".to_string(), "b.toml".to_string()]);
}

#[test]
fn register_keeps_duplicates() {
    let first = register_project(None, "a.toml");
    let second = register_project(Some(&first), "a.toml");
    assert_eq!(read_projects(Some(&second)), vec!["a.toml".to_string(), "a.toml".to_string()]);
}

#[test]
fn register_on_unreadable_registry_starts_afresh() {
    let text = register_project(Some("projects = [1, 2"), "c.toml");
    assert_eq!(read_projects(Some(&text)), vec!["c.toml".to_string()]);
    let text = register_project(Some("projects = 'one'\n"), "d.toml");
    assert_eq!(read_projects(Some(&text)), vec!["d.toml".to_string()]);
}

#[test]
fn read_projects_of_hand_written_registry() {
    assert_eq!(
        read_projects(Some("# comment\nprojects = ['x.toml', \"y.toml\"]\n")),
        vec!["x.toml".to_string(), "y.toml".to_string()]
    );
    assert_eq!(read_projects(Some("projects = ['x.toml', 3]\n")), Vec::<String>::new());
    assert_eq!(read_projects(Some("")), Vec::<String>::new());
    assert_eq!(read_projects(None), Vec::<String>::new());
}

#[test]
fn registry_path_prefers_given_path() {
    assert_eq!(registry_path(Some("/tmp/r.toml"), Some("/home/u")), Some("/tmp/r.toml".to_string()));
    assert_eq!(registry_path(None, Some("/home/u")), Some("/home/u/.config/ai-lab.toml".to_string()));
    assert_eq!(registry_path(None, None), None);
}

#[test]
fn registry_header_is_the_comment_block() {
    let text = register_project(None, "a.toml");
    assert!(text.starts_with("# This is a generated configuration file from AI Lab\n"));
    assert!(text.contains("#\n\nprojects = "));
}

#[test]
fn rendering_is_repeatable() {
    let c = record("T", "N", "D");
    assert_eq!(render_config(&c), render_config(&c.clone()));
    assert_eq!(register_project(Some("projects = ['x']\n"), "y"), register_project(Some("projects = ['x']\n"), "y"));
}

#[test]
fn modify_sets_title_and_owner_name() {
    let mut c = record("T", "N", "D");
    modify_config(&mut c);
    assert_eq!(c, record("New Title", "New Owner", "D"));
}
