use dstui::files::{get_files, listed_before_or_equal, sort_files, text_le, FileAttributes};

fn entry(name: &str, kind: &str) -> FileAttributes {
    FileAttributes {
        filename: name.to_string(),
        filetype: kind.to_string(),
        filepath: format!("./{name}"),
    }
}

fn names(list: &[FileAttributes]) -> Vec<String> {
    list.iter().map(|f| f.filename.clone()).collect()
}

#[test]
fn the_listing_pins_dot_entries_and_puts_directories_first() {
    let read = vec![
        entry("zeta.torrent", "File"),
        entry("Alpha", "Dir"),
        entry("beta", "Dir"),
        entry("Gamma.txt", "File"),
        entry("alpha.txt", "File"),
        entry("link", "Symlink"),
    ];
    let listing = get_files(&read);
    assert_eq!(
        names(&listing),
        vec![".", "..", "Alpha", "beta", "alpha.txt", "Gamma.txt", "link", "zeta.torrent"]
    );
    assert_eq!(listing[0].filetype, "Dir");
    assert_eq!(listing[1].filetype, "Dir");
    assert_eq!(listing[2].filepath, "./Alpha");
}

#[test]
fn the_listing_of_an_empty_directory() {
    assert_eq!(names(&get_files(&vec![])), vec![".", ".."]);
    assert!(sort_files(&vec![]).is_empty());
}

#[test]
fn names_that_differ_only_in_case_keep_their_order() {
    let read = vec![entry("b", "File"), entry("A", "File"), entry("a", "File"), entry("B", "File")];
    assert_eq!(names(&sort_files(&read)), vec!["A", "a", "b", "B"]);
    let read = vec![entry("a", "File"), entry("A", "File")];
    assert_eq!(names(&sort_files(&read)), vec!["a", "A"]);
}

#[test]
fn the_listing_keeps_every_entry() {
    let read = vec![
        entry("x", "File"),
        entry("x", "File"),
        entry("..", "Dir"),
        entry(".", "Dir"),
        entry("x", "Dir"),
    ];
    let listing = sort_files(&read);
    assert_eq!(names(&listing), vec![".", "..", "x", "x", "x"]);
    assert_eq!(listing[2].filetype, "Dir");
    for (i, a) in listing.iter().enumerate() {
        for b in &listing[i..] {
            assert!(listed_before_or_equal(a, b));
        }
    }
}

#[test]
fn order_of_unicode_names() {
    let read = vec![entry("Édith", "File"), entry("zoo", "File"), entry("étude", "File"), entry("Zoo", "File")];
    assert_eq!(names(&sort_files(&read)), vec!["zoo", "Zoo", "Édith", "étude"]);
}

#[test]
fn dictionary_order_of_texts() {
    assert!(text_le("", ""));
    assert!(text_le("", "a"));
    assert!(!text_le("a", ""));
    assert!(text_le("a", "a"));
    assert!(text_le("a", "ab"));
    assert!(!text_le("ab", "a"));
    assert!(text_le("ab", "b"));
    assert!(!text_le("b", "ab"));
    assert!(text_le("Z", "a"));
    assert!(text_le(".", ".."));
    assert!(!text_le("..", "."));
    let words = ["", "a", "ab", "b", "é", "z", "zz", "日本"];
    for a in words {
        for b in words {
            assert_eq!(text_le(a, b), a <= b, "{a} {b}");
        }
    }
}
