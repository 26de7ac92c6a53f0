use rvtf::convert::{mirror_path, tally, BatchReport};
use rvtf::path::{extension, file_name, with_extension};

#[test]
fn file_name_is_last_component() {
    assert_eq!(file_name("a/b/c.png"), "c.png");
    assert_eq!(file_name("c.png"), "c.png");
    assert_eq!(file_name("a/b/"), "b");
    assert_eq!(file_name("/"), "");
    assert_eq!(file_name(""), "");
}

#[test]
fn extension_of_paths() {
    assert_eq!(extension("a/b/c.png"), Some("png".to_string()));
    assert_eq!(extension("archive.tar.gz"), Some("gz".to_string()));
    assert_eq!(extension("a/b/c"), None);
    assert_eq!(extension(".hidden"), None);
    assert_eq!(extension("dir.d/file"), None);
    assert_eq!(extension("trailing."), Some(String::new()));
    assert_eq!(extension("a/.."), None);
    assert_eq!(extension(""), None);
}

#[test]
fn with_extension_replaces_or_adds() {
    assert_eq!(with_extension("c.png", "bmp"), "c.bmp");
    assert_eq!(with_extension("noext", "vtf"), "noext.vtf");
    assert_eq!(with_extension(".hidden", "png"), ".hidden.png");
    assert_eq!(with_extension("a.tar.gz", "zip"), "a.tar.zip");
    assert_eq!(with_extension("a.b", ""), "a");
    assert_eq!(with_extension("..", "png"), "..");
}

#[test]
fn mirror_path_keeps_directories() {
    let rel = vec!["a".to_string(), "b".to_string(), "c.png".to_string()];
    assert_eq!(
        mirror_path(&rel, "bmp"),
        vec!["a".to_string(), "b".to_string(), "c.bmp".to_string()]
    );
}

#[test]
fn mirror_path_top_level_file() {
    let rel = vec!["wall.vtf".to_string()];
    assert_eq!(mirror_path(&rel, "png"), vec!["wall.png".to_string()]);
    assert_eq!(mirror_path(&Vec::new(), "png"), Vec::<String>::new());
}

#[test]
fn tally_counts_one_failure() {
    let outcomes = vec![true, true, false, true];
    assert_eq!(tally(&outcomes), BatchReport { converted: 3, failed: 1 });
}

#[test]
fn tally_of_nothing() {
    assert_eq!(tally(&Vec::new()), BatchReport { converted: 0, failed: 0 });
}

#[test]
fn mirrored_file_takes_format_extension() {
    let rel = vec!["a".to_string(), "b".to_string(), "c.png".to_string()];
    let out = mirror_path(&rel, "bmp");
    assert_eq!(extension(&out.join("/")), Some("bmp".to_string()));
    assert_eq!(extension(&with_extension(".hidden", "vtf")), Some("vtf".to_string()));
}

#[test]
fn trailing_dot_component_is_skipped() {
    assert_eq!(file_name("pic.png/."), "pic.png");
    assert_eq!(extension("pic.png/."), Some("png".to_string()));
    assert_eq!(extension("a/b.tga/./"), Some("tga".to_string()));
    assert_eq!(extension("."), None);
}
