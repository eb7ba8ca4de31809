use thumbcache::scan::{filter_video_entries, has_video_extension, str_eq, FsEntry};

fn file(path: &str) -> FsEntry {
    FsEntry { path: path.to_string(), is_file: true }
}

fn dir(path: &str) -> FsEntry {
    FsEntry { path: path.to_string(), is_file: false }
}

#[test]
fn extension_filter_is_exact_and_case_sensitive() {
    let entries = vec![
        dir("root"),
        file("root/a.mp4"),
        file("root/b.txt"),
        file("root/c.MP4"),
        file("root/d.avi"),
    ];
    let kept = filter_video_entries(&entries);
    assert_eq!(kept, vec!["root/a.mp4".to_string(), "root/d.avi".to_string()]);
}

#[test]
fn all_five_extensions_are_recognized() {
    assert!(has_video_extension("a.mp4"));
    assert!(has_video_extension("a.mkv"));
    assert!(has_video_extension("a.avi"));
    assert!(has_video_extension("a.mov"));
    assert!(has_video_extension("a.wmv"));
}

#[test]
fn near_misses_are_not_recognized() {
    assert!(!has_video_extension("a.wMv"));
    assert!(!has_video_extension("a.mp44"));
    assert!(!has_video_extension("a.mp"));
    assert!(!has_video_extension("video"));
    assert!(!has_video_extension(".mp4"));
    assert!(!has_video_extension("a.png"));
}

#[test]
fn deeply_nested_video_is_kept() {
    let entries = vec![
        dir("root"),
        dir("root/x"),
        dir("root/x/y"),
        dir("root/x/y/z"),
        file("root/x/y/z/v.mp4"),
    ];
    let kept = filter_video_entries(&entries);
    assert_eq!(kept, vec!["root/x/y/z/v.mp4".to_string()]);
}

#[test]
fn directories_named_like_videos_are_not_kept() {
    let entries = vec![dir("root/fake.mp4"), file("root/real.mkv")];
    let kept = filter_video_entries(&entries);
    assert_eq!(kept, vec!["root/real.mkv".to_string()]);
}

#[test]
fn traversal_order_and_duplicates_are_preserved() {
    let entries = vec![
        file("b.avi"),
        file("a.mp4"),
        file("b.avi"),
    ];
    let kept = filter_video_entries(&entries);
    assert_eq!(
        kept,
        vec!["b.avi".to_string(), "a.mp4".to_string(), "b.avi".to_string()]
    );
}

#[test]
fn string_equality_is_character_exact() {
    assert!(str_eq("mp4", "mp4"));
    assert!(!str_eq("mp4", "MP4"));
    assert!(!str_eq("mp4", "mp"));
    assert!(str_eq("", ""));
}
