use thumbcache::paths::{derive_thumbnail_key, generate_thumbnail_name, join_path};

#[test]
fn movie_path_yields_movie_png() {
    assert_eq!(generate_thumbnail_name("/a/b/movie.mp4"), "movie.png");
}

#[test]
fn same_stem_collides_across_directories_and_extensions() {
    let a = generate_thumbnail_name("/a/b/movie.mp4");
    let b = generate_thumbnail_name("/x/movie.mkv");
    assert_eq!(a, b);
    assert_eq!(b, "movie.png");
}

#[test]
fn bare_filename_needs_no_directory() {
    assert_eq!(generate_thumbnail_name("movie.avi"), "movie.png");
}

#[test]
fn only_the_final_extension_is_removed() {
    assert_eq!(generate_thumbnail_name("/d/archive.tar.mp4"), "archive.tar.png");
}

#[test]
fn hidden_file_keeps_its_whole_name_as_stem() {
    assert_eq!(generate_thumbnail_name("/a/.mp4"), ".mp4.png");
}

#[test]
fn filename_without_extension_is_its_own_stem() {
    assert_eq!(generate_thumbnail_name("dir/video"), "video.png");
}

#[test]
fn checked_derivation_rejects_paths_without_filename() {
    assert!(derive_thumbnail_key("").is_none());
    assert!(derive_thumbnail_key("/").is_none());
    assert!(derive_thumbnail_key("some/dir/").is_none());
}

#[test]
fn checked_derivation_accepts_ordinary_paths() {
    assert_eq!(derive_thumbnail_key("clip.wmv").unwrap(), "clip.png");
    assert_eq!(derive_thumbnail_key("/v/clip.mov").unwrap(), "clip.png");
}

#[test]
fn join_inserts_separator_only_when_missing() {
    assert_eq!(join_path("/cache", "movie.png"), "/cache/movie.png");
    assert_eq!(join_path("/cache/", "movie.png"), "/cache/movie.png");
    assert_eq!(join_path("", "movie.png"), "movie.png");
}
