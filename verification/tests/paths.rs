use image_compressor::paths::{
    find_name, get_filename_and_extension, get_output_file_path, join_path, output_name,
    path_file_name, resolve_output_path, Operation, PathError,
};
use std::path::Path;

fn parts(input: &str) -> Option<(String, String)> {
    get_filename_and_extension(input)
}

fn owned(stem: &str, ext: &str) -> Option<(String, String)> {
    Some((stem.to_string(), ext.to_string()))
}

#[test]
fn file_name_is_the_last_segment() {
    assert_eq!(path_file_name("/a/b/photo.png"), Some("photo.png".to_string()));
    assert_eq!(path_file_name("photo.png"), Some("photo.png".to_string()));
    assert_eq!(path_file_name("photos"), Some("photos".to_string()));
    assert_eq!(path_file_name("../photos"), Some("photos".to_string()));
}

#[test]
fn file_name_skips_empty_and_dot_segments() {
    assert_eq!(path_file_name("photos/"), Some("photos".to_string()));
    assert_eq!(path_file_name("photos//"), Some("photos".to_string()));
    assert_eq!(path_file_name("photos/."), Some("photos".to_string()));
    assert_eq!(path_file_name("a//b/./"), Some("b".to_string()));
    assert_eq!(path_file_name("./photos"), Some("photos".to_string()));
}

#[test]
fn some_paths_have_no_file_name() {
    assert_eq!(path_file_name(""), None);
    assert_eq!(path_file_name("/"), None);
    assert_eq!(path_file_name("//"), None);
    assert_eq!(path_file_name("."), None);
    assert_eq!(path_file_name("./"), None);
    assert_eq!(path_file_name(".."), None);
    assert_eq!(path_file_name("a/.."), None);
    assert_eq!(path_file_name("a/../"), None);
}

#[test]
fn find_name_gives_the_span_in_characters() {
    assert_eq!(find_name("/a/b/photo.png"), Some((5, 14)));
    assert_eq!(find_name("photos/"), Some((0, 6)));
    assert_eq!(find_name("é/ü.png"), Some((2, 7)));
    assert_eq!(find_name(""), None);
}

#[test]
fn stem_and_extension_split_at_the_last_dot() {
    assert_eq!(parts("/a/b/photo.png"), owned("photo", "png"));
    assert_eq!(parts("photo.jpeg"), owned("photo", "jpeg"));
    assert_eq!(parts("archive.tar.gz"), owned("archive.tar", "gz"));
    assert_eq!(parts("dir.d/photo.JPG"), owned("photo", "JPG"));
    assert_eq!(parts("photo."), owned("photo", ""));
    assert_eq!(parts("a/.hidden.png"), owned(".hidden", "png"));
    assert_eq!(parts("bilder/größe.png"), owned("größe", "png"));
}

#[test]
fn names_without_extension_give_nothing() {
    assert_eq!(parts("photo"), None);
    assert_eq!(parts("/a/b.c/photo"), None);
    assert_eq!(parts(".hidden"), None);
    assert_eq!(parts(""), None);
    assert_eq!(parts("/"), None);
    assert_eq!(parts("a/.."), None);
}

#[test]
fn path_parts_agree_with_the_standard_library() {
    let inputs = [
        "/a/b/photo.png", "photo.png", "a/b", "a/b/", "a//b//", "a/./b/.", ".", "..", "", "/",
        "./x.y", "x.y.z", ".hidden", ".hidden.txt", "a.b/c", "a.b/c.d", "dir/..", "...", "a..b",
        "name.", "/root/../etc/x.conf", "ü/ö.ä",
    ];
    for input in inputs {
        let path = Path::new(input);
        let name = path.file_name().map(|n| n.to_str().unwrap().to_string());
        assert_eq!(path_file_name(input), name, "file name of {:?}", input);
        let expected = match (path.file_stem(), path.extension()) {
            (Some(stem), Some(ext)) => {
                Some((stem.to_str().unwrap().to_string(), ext.to_str().unwrap().to_string()))
            }
            _ => None,
        };
        assert_eq!(parts(input), expected, "stem and extension of {:?}", input);
    }
}

#[test]
fn join_puts_one_separator_between() {
    assert_eq!(join_path("/out", "b"), "/out/b");
    assert_eq!(join_path("/out/", "b"), "/out/b");
    assert_eq!(join_path("out/deep", "x.png"), "out/deep/x.png");
    assert_eq!(join_path("/", "x.png"), "/x.png");
}

#[test]
fn join_with_an_empty_side() {
    assert_eq!(join_path("", "x.png"), "x.png");
    assert_eq!(join_path("out", ""), "out/");
    assert_eq!(join_path("", ""), "");
}

#[test]
fn join_with_a_rooted_name_is_the_name() {
    assert_eq!(join_path("/out", "/etc/x"), "/etc/x");
    assert_eq!(join_path("", "/x"), "/x");
}

#[test]
fn join_agrees_with_the_standard_library() {
    let dirs = ["", "/", "out", "out/", "/a/b", "/a/b/", ".", "a//"];
    let names = ["x.png", "", "/abs", "b/c", "."];
    for dir in dirs {
        for name in names {
            let expected = Path::new(dir).join(name);
            assert_eq!(join_path(dir, name), expected.to_str().unwrap(), "{:?} + {:?}", dir, name);
        }
    }
}

#[test]
fn output_names_follow_the_operation() {
    assert_eq!(output_name("photo", "png", Operation::Resize), "photo_resized.png");
    assert_eq!(output_name("photo", "png", Operation::Compress), "photo_compressed.png");
    assert_eq!(output_name("photo", "png", Operation::Convert), "photo.webp");
    assert_eq!(output_name("photo", "", Operation::Compress), "photo_compressed.");
}

#[test]
fn output_file_path_in_a_directory() {
    let path = get_output_file_path("/a/b/photo.png", Some("/out"), None, "photo".into(), "png".into(), false);
    assert_eq!(path, Ok("/out/photo_compressed.png".to_string()));
    let path = get_output_file_path("/a/b/photo.png", Some("/out/"), None, "photo".into(), "png".into(), true);
    assert_eq!(path, Ok("/out/photo.webp".to_string()));
    let path = get_output_file_path("", Some("out"), None, "x".into(), "jpg".into(), false);
    assert_eq!(path, Ok("out/x_compressed.jpg".to_string()));
}

#[test]
fn output_file_path_of_a_batch_member_is_mirrored() {
    let path = get_output_file_path("/a/b/photo.png", Some("/out"), Some("b"), "photo".into(), "png".into(), true);
    assert_eq!(path, Ok("/out/b/photo.webp".to_string()));
    let path = get_output_file_path("/a/b/photo.png", Some("/out/"), Some("b"), "photo".into(), "png".into(), false);
    assert_eq!(path, Ok("/out/b/photo_compressed.png".to_string()));
    let path = get_output_file_path("pics/x.jpg", Some("out"), Some("pics"), "x".into(), "jpg".into(), false);
    assert_eq!(path, Ok("out/pics/x_compressed.jpg".to_string()));
}

#[test]
fn output_file_path_agrees_with_the_resolver() {
    for (input, root, batch, webp) in [
        ("/a/b/photo.png", Some("/out"), Some("b"), true),
        ("/a/b/photo.png", Some("/out"), None, false),
        ("/a/b/photo.png", None, None, true),
        ("photo.png", None, Some("b"), false),
    ] {
        let (stem, ext) = get_filename_and_extension(input).unwrap();
        let op = if webp { Operation::Convert } else { Operation::Compress };
        let resolved = resolve_output_path(input, root, batch, op).unwrap();
        assert_eq!(get_output_file_path(input, root, batch, stem, ext, webp), Ok(resolved.path));
    }
}

#[test]
fn output_file_path_beside_the_input() {
    let path = get_output_file_path("/a/b/photo.png", None, None, "photo".into(), "png".into(), false);
    assert_eq!(path, Ok("/a/b/photo_compressed.png".to_string()));
    let path = get_output_file_path("photo.png", None, None, "photo".into(), "png".into(), true);
    assert_eq!(path, Ok("photo.webp".to_string()));
    let path = get_output_file_path("/photo.png", None, None, "photo".into(), "png".into(), true);
    assert_eq!(path, Ok("/photo.webp".to_string()));
    let path = get_output_file_path("a/photo.png/", None, None, "photo".into(), "png".into(), false);
    assert_eq!(path, Ok("a/photo_compressed.png".to_string()));
    // without a directory the batch name changes nothing
    let path = get_output_file_path("a/photo.png", None, Some("a"), "photo".into(), "png".into(), false);
    assert_eq!(path, Ok("a/photo_compressed.png".to_string()));
}

#[test]
fn output_file_path_needs_a_file_name_without_a_directory() {
    assert_eq!(get_output_file_path("", None, None, "x".into(), "png".into(), false), Err(PathError::NoFileName));
    assert_eq!(get_output_file_path("/", None, None, "x".into(), "png".into(), true), Err(PathError::NoFileName));
    assert_eq!(get_output_file_path("a/..", None, Some("b"), "x".into(), "png".into(), true), Err(PathError::NoFileName));
}

#[test]
fn resolver_mirrors_the_batch_directory() {
    let out = resolve_output_path("/a/b/photo.png", Some("/out"), Some("b"), Operation::Convert).unwrap();
    assert_eq!(out.path, "/out/b/photo.webp");
    assert_eq!(out.directory, "/out/b");
}

#[test]
fn resolver_uses_the_root_for_a_single_file() {
    let out = resolve_output_path("/a/b/photo.png", Some("/out"), None, Operation::Compress).unwrap();
    assert_eq!(out.path, "/out/photo_compressed.png");
    assert_eq!(out.directory, "/out");
    let out = resolve_output_path("/a/b/photo.png", Some("/out"), None, Operation::Resize).unwrap();
    assert_eq!(out.path, "/out/photo_resized.png");
}

#[test]
fn resolver_writes_beside_the_input_without_a_root() {
    let out = resolve_output_path("/a/b/photo.png", None, None, Operation::Compress).unwrap();
    assert_eq!(out.path, "/a/b/photo_compressed.png");
    assert_eq!(out.directory, "/a/b/");
    let out = resolve_output_path("photo.jpg", None, Some("ignored"), Operation::Resize).unwrap();
    assert_eq!(out.path, "photo_resized.jpg");
    assert_eq!(out.directory, "");
}

#[test]
fn resolver_reports_what_is_missing() {
    let missing = |input: &str| resolve_output_path(input, Some("/out"), None, Operation::Convert).err();
    assert_eq!(missing(""), Some(PathError::NoFileName));
    assert_eq!(missing("/"), Some(PathError::NoFileName));
    assert_eq!(missing("a/.."), Some(PathError::NoFileName));
    assert_eq!(missing("a/photo"), Some(PathError::NoExtension));
    assert_eq!(missing(".hidden"), Some(PathError::NoExtension));
    assert_eq!(missing("a/photo.png"), None);
}
