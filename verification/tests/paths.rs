use image_converter::paths::{extension_or_empty, file_name_or_empty, glob_patterns, is_separator_free, make_glob_pattern};

#[test]
fn extension_is_what_follows_the_last_dot() {
    assert_eq!(extension_or_empty("a/b/photo.png"), "png");
    assert_eq!(extension_or_empty("photo.tar.gz"), "gz");
    assert_eq!(extension_or_empty("photo.JPG"), "JPG");
}

#[test]
fn extension_is_empty_where_there_is_none() {
    assert_eq!(extension_or_empty("a/b/photo"), "");
    assert_eq!(extension_or_empty(".hidden"), "");
    assert_eq!(extension_or_empty(""), "");
    assert_eq!(extension_or_empty("photo."), "");
}

#[test]
fn file_name_is_the_last_component() {
    assert_eq!(file_name_or_empty("a/b/photo.png"), "photo.png");
    assert_eq!(file_name_or_empty("photo.png"), "photo.png");
    assert_eq!(file_name_or_empty("a/b/.."), "");
    assert_eq!(file_name_or_empty(""), "");
}

#[test]
fn separators_are_found() {
    assert!(is_separator_free("avif"));
    assert!(is_separator_free(""));
    assert!(!is_separator_free("a/b"));
    assert!(!is_separator_free("a\\b"));
}

#[test]
fn glob_pattern_searches_every_depth() {
    assert_eq!(make_glob_pattern("/data/in", "png"), "/data/in/**/*.png");
}

#[test]
fn glob_patterns_go_folder_by_folder() {
    let folders = vec!["a".to_string(), "b".to_string()];
    let exts = vec!["jpeg".to_string(), "jpg".to_string(), "png".to_string()];
    assert_eq!(
        glob_patterns(&folders, &exts),
        vec![
            "a/**/*.jpeg".to_string(),
            "a/**/*.jpg".to_string(),
            "a/**/*.png".to_string(),
            "b/**/*.jpeg".to_string(),
            "b/**/*.jpg".to_string(),
            "b/**/*.png".to_string(),
        ]
    );
}

#[test]
fn glob_patterns_of_nothing_are_none() {
    let none: Vec<String> = Vec::new();
    let some = vec!["a".to_string()];
    assert!(glob_patterns(&none, &some).is_empty());
    assert!(glob_patterns(&some, &none).is_empty());
}
