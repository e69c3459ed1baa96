use photo_cycler::candidates::{
    entry_is_candidate, filter_candidates, has_photo_extension_lowered, is_photo_file_name,
    EntryInfo,
};

fn file(name: &str) -> EntryInfo {
    EntryInfo { name: name.to_string(), is_file: Some(true) }
}

fn dir(name: &str) -> EntryInfo {
    EntryInfo { name: name.to_string(), is_file: Some(false) }
}

#[test]
fn filter_keeps_photos_case_insensitively() {
    let entries = vec![file("a.jpg"), file("b.JPEG"), file("c.png"), dir("d")];
    assert_eq!(filter_candidates(&entries), vec![0, 1]);
}

#[test]
fn filter_of_empty_directory_is_empty() {
    let entries: Vec<EntryInfo> = vec![];
    assert_eq!(filter_candidates(&entries), Vec::<usize>::new());
}

#[test]
fn filter_skips_unknown_types_and_directories_named_like_photos() {
    let entries = vec![
        EntryInfo { name: "x.jpg".to_string(), is_file: None },
        dir("album.jpeg"),
        file("y.JpG"),
        file("z.jpg.txt"),
        file("jpg"),
        file(".jpeg"),
    ];
    assert_eq!(filter_candidates(&entries), vec![2, 5]);
}

#[test]
fn lowered_extension_check() {
    assert!(has_photo_extension_lowered("a.jpg"));
    assert!(has_photo_extension_lowered("a.jpeg"));
    assert!(!has_photo_extension_lowered("a.JPG"));
    assert!(!has_photo_extension_lowered("a.png"));
    assert!(!has_photo_extension_lowered(""));
}

#[test]
fn file_name_check_folds_case() {
    assert!(is_photo_file_name("Holiday.JPG"));
    assert!(is_photo_file_name("b.JpEg"));
    assert!(!is_photo_file_name("c.PNG"));
    assert!(!is_photo_file_name("jpeg"));
}

#[test]
fn entry_check_needs_regular_file() {
    assert!(entry_is_candidate(&file("a.jpg")));
    assert!(!entry_is_candidate(&dir("a.jpg")));
    assert!(!entry_is_candidate(&EntryInfo { name: "a.jpg".to_string(), is_file: None }));
}
