use ultimate_tex::image_file::Container;
use ultimate_tex::paths::{
    ascii_lower, eq_ignore_ascii_case, extension, file_name, file_stem, join, parent,
};
use ultimate_tex::text::decimal;
use std::path::Path;

#[test]
fn file_name_is_the_last_component() {
    assert_eq!(file_name("textures/stage/def_001_col.nutexb"), "def_001_col.nutexb");
    assert_eq!(file_name("a.png"), "a.png");
    assert_eq!(file_name("/a.png"), "a.png");
    assert_eq!(file_name("folder/"), "");
    assert_eq!(file_name(""), "");
}

#[test]
fn file_stem_drops_the_last_extension() {
    assert_eq!(file_stem("a.png"), "a");
    assert_eq!(file_stem("a.b.png"), "a.b");
    assert_eq!(file_stem("noext"), "noext");
    assert_eq!(file_stem("a."), "a");
    assert_eq!(file_stem(""), "");
}

#[test]
fn file_stem_keeps_a_leading_dot() {
    assert_eq!(file_stem(".hidden"), ".hidden");
    assert_eq!(file_stem(".hidden.png"), ".hidden");
}

#[test]
fn extension_is_what_follows_the_last_dot() {
    assert_eq!(extension("a.png"), "png");
    assert_eq!(extension("a.b.PNG"), "PNG");
    assert_eq!(extension("noext"), "");
    assert_eq!(extension(".hidden"), "");
    assert_eq!(extension("a."), "");
}

#[test]
fn parent_is_the_folder() {
    assert_eq!(parent("a/b/c.png"), Some("a/b".to_string()));
    assert_eq!(parent("c.png"), Some(String::new()));
    assert_eq!(parent("/c.png"), Some("/".to_string()));
    assert_eq!(parent("/"), None);
    assert_eq!(parent(""), None);
}

#[test]
fn join_puts_one_separator_between() {
    assert_eq!(join("out", "a.png"), "out/a.png");
    assert_eq!(join("out/", "a.png"), "out/a.png");
    assert_eq!(join("", "a.png"), "a.png");
    assert_eq!(join("/", "a.png"), "/a.png");
}

#[test]
fn lower_case_of_ascii_only() {
    assert_eq!(ascii_lower('A'), 'a');
    assert_eq!(ascii_lower('Z'), 'z');
    assert_eq!(ascii_lower('a'), 'a');
    assert_eq!(ascii_lower('1'), '1');
    assert_eq!(ascii_lower('É'), 'É');
    assert!(eq_ignore_ascii_case("NuTeXb", "nutexb"));
    assert!(eq_ignore_ascii_case("dds", "dds"));
    assert!(!eq_ignore_ascii_case("dds", "DDS"));
    assert!(!eq_ignore_ascii_case("ddss", "dds"));
}

#[test]
fn container_goes_by_the_extension_in_any_case() {
    assert_eq!(Container::of_path("a.nutexb"), Container::Nutexb);
    assert_eq!(Container::of_path("dir.dds/a.NUTEXB"), Container::Nutexb);
    assert_eq!(Container::of_path("a.bntx"), Container::Bntx);
    assert_eq!(Container::of_path("a.Bntx"), Container::Bntx);
    assert_eq!(Container::of_path("a.dds"), Container::Dds);
    assert_eq!(Container::of_path("a.DDS"), Container::Dds);
}

#[test]
fn container_of_anything_else_is_an_image() {
    assert_eq!(Container::of_path("a.png"), Container::Image);
    assert_eq!(Container::of_path("a.tiff"), Container::Image);
    assert_eq!(Container::of_path("a.nutexb.png"), Container::Image);
    assert_eq!(Container::of_path("a"), Container::Image);
    assert_eq!(Container::of_path(".dds"), Container::Image);
    assert_eq!(Container::of_path("nutexb"), Container::Image);
}

#[test]
fn decimal_writing() {
    assert_eq!(decimal(0), "0");
    assert_eq!(decimal(7), "7");
    assert_eq!(decimal(10), "10");
    assert_eq!(decimal(12345), "12345");
    assert_eq!(decimal(usize::MAX), usize::MAX.to_string());
}

#[test]
fn plain_paths_split_as_the_standard_library_splits_them() {
    let paths = [
        "a.png",
        "textures/stage/def_001_col.nutexb",
        "/abs/dir.v2/b.DDS",
        "dir/a.b.c.tiff",
        "noext",
        "dir/noext",
        ".hidden",
        "dir/.hidden.png",
        "a.",
        "dir with spaces/file name.bntx",
    ];
    for path in paths {
        let std_path = Path::new(path);
        let name = file_name(path);
        assert_eq!(name, std_path.file_name().unwrap().to_string_lossy(), "{path}");
        assert_eq!(file_stem(&name), std_path.file_stem().unwrap().to_string_lossy(), "{path}");
        assert_eq!(
            extension(&name),
            std_path.extension().unwrap_or_default().to_string_lossy(),
            "{path}"
        );
        assert_eq!(
            parent(path),
            std_path.parent().map(|p| p.to_string_lossy().to_string()),
            "{path}"
        );
        assert_eq!(
            file_stem(&name),
            std_path.with_extension("").file_name().unwrap().to_string_lossy(),
            "{path}"
        );
    }
    for (folder, name) in [("out", "a.png"), ("out/", "a.png"), ("", "a.png"), ("/", "a.png")] {
        assert_eq!(join(folder, name), Path::new(folder).join(name).to_string_lossy(), "{folder}");
    }
}
