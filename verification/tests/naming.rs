use batchimg::naming::{file_extension_filter, last_dot_segment, output_path, replace_extension};

#[test]
fn output_path_joins_directory_and_name() {
    assert_eq!(output_path("./output/", "photo.jpg"), "./output/photo.jpg");
    assert_eq!(output_path("", "photo.jpg"), "photo.jpg");
}

#[test]
fn replace_extension_replaces_trailing_token() {
    assert_eq!(replace_extension("photo.jpeg", "jpg"), "photo.jpg");
    assert_eq!(replace_extension("photo.png", "jpeg"), "photo.jpeg");
}

#[test]
fn replace_extension_touches_only_last_segment() {
    // Only the trailing extension token is replaced, not other dot segments.
    assert_eq!(replace_extension("a.b.png", "jpg"), "a.b.jpg");
    assert_eq!(replace_extension("archive.tar.gz", "png"), "archive.tar.png");
    assert_eq!(replace_extension("v1.2.3.jpeg", "png"), "v1.2.3.png");
}

#[test]
fn replace_extension_leaves_names_without_token() {
    // No dot at all: nothing to replace.
    assert_eq!(replace_extension("noext", "png"), "noext");
    // The trailing segment holds a non-alphanumeric character: no token.
    assert_eq!(replace_extension("weird.ext!", "png"), "weird.ext!");
    assert_eq!(replace_extension("spaced.e xt", "png"), "spaced.e xt");
}

#[test]
fn replace_extension_on_bare_trailing_dot() {
    // An empty trailing token is still a token: the dot is kept.
    assert_eq!(replace_extension("trailing.", "jpg"), "trailing.jpg");
}

#[test]
fn last_dot_segment_takes_suffix() {
    assert_eq!(last_dot_segment("a.b.c"), "c");
    assert_eq!(last_dot_segment("photo.png"), "png");
    assert_eq!(last_dot_segment("name"), "name");
    assert_eq!(last_dot_segment("dot."), "");
}

#[test]
fn extension_filter_is_case_sensitive() {
    let exts: Vec<String> = vec![
        "gif".to_string(),
        "jpg".to_string(),
        "jpeg".to_string(),
        "png".to_string(),
    ];
    assert!(file_extension_filter("x.png", &exts));
    assert!(file_extension_filter("x.y.jpeg", &exts));
    assert!(!file_extension_filter("x.PNG", &exts));
    assert!(!file_extension_filter("x.webp", &exts));
    assert!(!file_extension_filter("plain", &exts));
    // A dotless name equal to an accepted extension passes: the filter
    // compares the segment after the last dot, which is the whole name.
    assert!(file_extension_filter("png", &exts));
}
