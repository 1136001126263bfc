use disk_watchdog::listing::{subdirectories, ListedEntry};

fn entry(path: &str, is_dir: bool) -> ListedEntry {
    ListedEntry { path: path.to_string(), is_dir }
}

#[test]
fn subdirectories_keeps_the_directories_in_listing_order() {
    let entries = vec![
        entry("/base/z", true),
        entry("/base/readme.txt", false),
        entry("/base/a", true),
        entry("/base/m", true),
        entry("/base/data.bin", false),
    ];
    assert_eq!(subdirectories(&entries), vec!["/base/z", "/base/a", "/base/m"]);
}

#[test]
fn subdirectories_of_an_empty_listing_is_empty() {
    let entries: Vec<ListedEntry> = Vec::new();
    assert_eq!(subdirectories(&entries), Vec::<String>::new());
}

#[test]
fn subdirectories_of_files_only_is_empty() {
    let entries = vec![entry("/base/a.txt", false), entry("/base/b.txt", false)];
    assert_eq!(subdirectories(&entries), Vec::<String>::new());
}

#[test]
fn subdirectories_keeps_a_path_that_is_listed_twice() {
    let entries = vec![entry("/base/a", true), entry("/base/a", true)];
    assert_eq!(subdirectories(&entries), vec!["/base/a", "/base/a"]);
}
