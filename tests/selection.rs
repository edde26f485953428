use countroo::extension::file_extension;
use countroo::select::{select_files, WalkEntry};

fn file(name: &str) -> WalkEntry {
    WalkEntry { file_name: Some(name.to_string()), is_file: true }
}

fn exts(list: &[&str]) -> Vec<String> {
    list.iter().map(|e| e.to_string()).collect()
}

#[test]
fn extension_is_what_follows_the_last_dot() {
    assert_eq!(file_extension("main.rs"), Some("rs".to_string()));
    assert_eq!(file_extension("archive.tar.gz"), Some("gz".to_string()));
    assert_eq!(file_extension("trailing."), Some("".to_string()));
    assert_eq!(file_extension("Makefile"), None);
    assert_eq!(file_extension(".bashrc"), None);
    assert_eq!(file_extension(""), None);
}

#[test]
fn upper_case_configuration_matches_any_case() {
    let entries = vec![file("a.rs"), file("b.Rs"), file("c.RS"), file("d.py")];
    let sel = select_files(&entries, &exts(&["RS"]));
    let picked: Vec<usize> = sel.iter().map(|s| s.index).collect();
    assert_eq!(picked, vec![0, 1, 2]);
    assert_eq!(sel[1].extension, "Rs");
    assert_eq!(sel[2].extension, "RS");
}

#[test]
fn directories_and_unnamed_entries_are_skipped() {
    let entries = vec![
        WalkEntry { file_name: Some("src.rs".to_string()), is_file: false },
        WalkEntry { file_name: None, is_file: true },
        file("lib.rs"),
        file("rs"),
    ];
    let sel = select_files(&entries, &exts(&["rs"]));
    assert_eq!(sel.len(), 1);
    assert_eq!(sel[0].index, 2);
}

#[test]
fn no_configured_extension_selects_nothing() {
    let entries = vec![file("a.rs"), file("b.py"), file("c")];
    assert!(select_files(&entries, &Vec::new()).is_empty());
}

#[test]
fn non_matching_tree_selects_nothing() {
    let entries = vec![file("notes.md"), file("data.csv"), file("README")];
    assert!(select_files(&entries, &exts(&["rs", "py"])).is_empty());
}

#[test]
fn selection_keeps_walk_order() {
    let entries = vec![file("z.py"), file("a.txt"), file("m.rs"), file("b.py")];
    let sel = select_files(&entries, &exts(&["py", "rs"]));
    let picked: Vec<usize> = sel.iter().map(|s| s.index).collect();
    assert_eq!(picked, vec![0, 2, 3]);
}
