use countroo::aggregate::{aggregate, count_selected, extension_counts, file_lines, total_lines, FileLines};
use countroo::lines::count_lines_in_text;
use countroo::select::{select_files, SelectedFile, WalkEntry};

fn lines(ext: &str, n: usize) -> FileLines {
    FileLines { extension: ext.to_string(), lines: n }
}

fn lookup(counts: &[(String, usize)], ext: &str) -> Option<usize> {
    counts.iter().find(|(e, _)| e == ext).map(|(_, n)| *n)
}

#[test]
fn two_languages_total_and_per_extension() {
    let rs_text: String = (0..10).map(|i| format!("let x{} = {};\n", i, i)).collect();
    let py_text: String = (0..5).map(|i| format!("x{} = {}\n", i, i)).collect();
    let entries = vec![
        WalkEntry { file_name: Some("x.rs".to_string()), is_file: true },
        WalkEntry { file_name: Some("y.py".to_string()), is_file: true },
    ];
    let contents = vec![Some(rs_text), Some(py_text)];
    let sel = select_files(&entries, &vec!["rs".to_string(), "py".to_string()]);
    let files: Vec<FileLines> = sel
        .into_iter()
        .map(|s| file_lines(s.extension, &contents[s.index], false))
        .collect();
    let tally = aggregate(&files);
    assert_eq!(tally.total, 15);
    assert_eq!(tally.per_extension.len(), 2);
    assert_eq!(lookup(&tally.per_extension, "rs"), Some(10));
    assert_eq!(lookup(&tally.per_extension, "py"), Some(5));
}

#[test]
fn empty_run_counts_nothing() {
    let tally = aggregate(&Vec::new());
    assert_eq!(tally.total, 0);
    assert!(tally.per_extension.is_empty());
}

#[test]
fn same_extension_is_summed_once() {
    let files = vec![lines("rs", 3), lines("py", 4), lines("rs", 5)];
    let counts = extension_counts(&files);
    assert_eq!(counts, vec![("rs".to_string(), 8), ("py".to_string(), 4)]);
    assert_eq!(total_lines(&files), 12);
}

#[test]
fn extensions_differing_in_case_are_kept_apart() {
    let files = vec![lines("rs", 1), lines("RS", 2), lines("rs", 3)];
    let counts = extension_counts(&files);
    assert_eq!(lookup(&counts, "rs"), Some(4));
    assert_eq!(lookup(&counts, "RS"), Some(2));
    assert_eq!(counts.len(), 2);
}

#[test]
fn order_of_files_does_not_change_totals() {
    let files = vec![lines("rs", 7), lines("py", 2), lines("go", 0), lines("rs", 1)];
    let mut reversed = vec![lines("rs", 1), lines("go", 0), lines("py", 2), lines("rs", 7)];
    let a = aggregate(&files);
    let b = aggregate(&reversed);
    assert_eq!(a.total, b.total);
    for (ext, n) in a.per_extension.iter() {
        assert_eq!(lookup(&b.per_extension, ext), Some(*n));
    }
    assert_eq!(a.per_extension.len(), b.per_extension.len());
    reversed.swap(0, 3);
    assert_eq!(aggregate(&reversed).total, 10);
}

#[test]
fn recounting_gives_the_same_answer() {
    let text = "fn main() {\n\n    println!(\"hi\");\n}\n";
    let first = count_lines_in_text(text, false);
    let again = count_lines_in_text(text, false);
    assert_eq!(first, again);
    let files = vec![lines("rs", first), lines("toml", 2)];
    let a = aggregate(&files);
    let b = aggregate(&files);
    assert_eq!(a.total, b.total);
    assert_eq!(a.per_extension, b.per_extension);
}

#[test]
fn per_extension_totals_add_up() {
    let files = vec![lines("rs", 7), lines("py", 2), lines("RS", 4), lines("rs", 1)];
    let tally = aggregate(&files);
    let sum: usize = tally.per_extension.iter().map(|(_, n)| *n).sum();
    assert_eq!(sum, tally.total);
    assert_eq!(tally.total, 14);
}

#[test]
fn selected_reads_are_counted_in_order() {
    let sel = |i: usize, e: &str| SelectedFile { index: i, extension: e.to_string() };
    let reads = vec![
        (sel(0, "rs"), Some("a\n\nb\n".to_string())),
        (sel(3, "py"), None),
        (sel(4, "Rs"), Some(" \n".to_string())),
    ];
    let counted = count_selected(reads, false);
    let got: Vec<(String, usize)> = counted.into_iter().map(|f| (f.extension, f.lines)).collect();
    assert_eq!(got, vec![("rs".to_string(), 2), ("py".to_string(), 0), ("Rs".to_string(), 0)]);
}
