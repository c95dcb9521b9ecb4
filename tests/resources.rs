use zed::{embedded_font_paths, has_language_file, themes_dir_step, ThemesDirStep};

fn strings(v: &[&str]) -> Vec<String> {
    v.iter().map(|s| s.to_string()).collect()
}

#[test]
fn only_ttf_fonts_are_loaded() {
    let paths = strings(&["fonts/a.ttf", "fonts/LICENSE", "fonts/b.otf", "fonts/c.ttf"]);
    assert_eq!(embedded_font_paths(&paths), strings(&["fonts/a.ttf", "fonts/c.ttf"]));
}

#[test]
fn no_fonts() {
    assert!(embedded_font_paths(&vec![]).is_empty());
    assert_eq!(embedded_font_paths(&strings(&[".ttf", "ttf"])), strings(&[".ttf"]));
}

#[test]
fn language_query_change_reloads() {
    assert!(has_language_file(&vec![Some("rs".to_string()), Some("scm".to_string())]));
    assert!(!has_language_file(&vec![Some("rs".to_string()), None, Some("scmx".to_string())]));
    assert!(!has_language_file(&vec![]));
}

#[test]
fn themes_dir_steps() {
    assert_eq!(themes_dir_step(Some(true)), ThemesDirStep::Load);
    assert_eq!(themes_dir_step(Some(false)), ThemesDirStep::NotADirectory);
    assert_eq!(themes_dir_step(None), ThemesDirStep::CreateThenLoad);
}
