use countroo::aggregate::{file_lines, FileLines};
use countroo::colorizer::{AccentColor, LanguageBrandings, LanguageColorMapping};
use countroo::config::{Config, ConfigBuilder, LocCounterError};
use countroo::counter::{count_module_declarations, curated_extensions, CountRoo};
use countroo::output_adapters::{FileWriter, JsonWriter, StdoutWriter, TomlWriter, XmlWriter, YamlWriter};
use countroo::select::WalkEntry;

/// A small project held in memory: (file name, contents).
fn project() -> Vec<(&'static str, &'static str)> {
    vec![
        ("main.rs", "fn main() {\n\n    run();\n}\n"),
        ("lib.rs", "pub fn run() {}\n"),
        ("tool.py", "print(1)\n\n"),
        ("notes.md", "# notes\nsome\n"),
        ("config.toml", "[a]\nb = 1\n"),
    ]
}

/// A source folder that holds Rust files only.
fn rust_sources() -> Vec<(&'static str, &'static str)> {
    vec![
        ("lib.rs", "pub mod a;\n\npub fn f() -> u8 {\n    1\n}\n"),
        ("a.rs", "pub const A: u8 = 2;\n"),
    ]
}

/// Counts the in-memory project with the counter's configuration.
fn run(counter: &mut CountRoo) -> Result<usize, LocCounterError> {
    run_over(counter, project())
}

/// Counts `files` with the counter's configuration.
fn run_over(counter: &mut CountRoo, files: Vec<(&'static str, &'static str)>) -> Result<usize, LocCounterError> {
    let entries: Vec<WalkEntry> = files
        .iter()
        .map(|(name, _)| WalkEntry { file_name: Some(name.to_string()), is_file: true })
        .collect();
    let picked = counter.select_files(&entries);
    let counted: Vec<FileLines> = picked
        .into_iter()
        .map(|s| file_lines(s.extension, &Some(files[s.index].1.to_string()), counter.config.count_empty_lines))
        .collect();
    counter.count_lines_of_code(Ok(counted))
}

fn rust_only() -> Config {
    Config {
        project_src_path: "src".to_string(),
        config_path: None,
        extensions: vec!["rs".to_string()],
        count_empty_lines: false,
    }
}

#[test]
fn test_count_lines_of_code_for_certain_types_manual_construction() {
    let mut counter = CountRoo::new(rust_only());
    counter.use_curated_extensions();
    let result = run(&mut counter).unwrap();
    assert_ne!(result, 0);
    assert_eq!(result, 5);
}

#[test]
fn test_count_lines_of_code_for_certain_types_builder_pattern() {
    let config = ConfigBuilder::default()
        .project_path("src", true, "/w/src", "/w/src/src")
        .extension("rs")
        .count_empty_lines(false)
        .build()
        .unwrap();
    let mut counter = CountRoo::new(config);
    counter.use_curated_extensions();
    let result = run(&mut counter).unwrap();
    assert_ne!(result, 0);
}

#[test]
fn test_count_lines_of_code_for_all_types() {
    let mut counter = CountRoo::new(rust_only());
    let result = run(&mut counter).unwrap_or(0);
    assert_ne!(result, 0);
    assert_eq!(result, 4);
}

fn src_config() -> Config {
    Config::from_src_folder(Some("src".to_string()), "src/config.txt".to_string()).unwrap()
}

fn builder_config() -> Config {
    ConfigBuilder::default().project_path("src", true, "src", "src/src").extension("rs").count_empty_lines(false).build().unwrap()
}

fn default_config() -> Config {
    Config::from_str_vec(curated_extensions(), false, "src".to_string()).unwrap()
}

#[test]
fn test_different_types_count_is_different() {
    let mut counter = CountRoo::new(src_config());
    let mut counter2 = CountRoo::new(builder_config());
    let mut counter3 = CountRoo::new(default_config());

    let result1 = run(&mut counter).unwrap_or(0);
    counter.use_curated_extensions();
    let result2 = run(&mut counter).unwrap_or(0);
    assert_ne!(result1, result2);

    let result1 = run(&mut counter2).unwrap_or(0);
    counter2.use_curated_extensions();
    let result2 = run(&mut counter2).unwrap_or(0);
    assert_ne!(result1, result2);

    let result1 = run(&mut counter3).unwrap_or(0);
    counter3.use_curated_extensions();
    let result2 = run(&mut counter3).unwrap_or(0);
    assert_ne!(result1, result2);
}

#[test]
fn test_different_config_counts_are_equal_for_all_types() {
    let mut counter = CountRoo::new(src_config());
    let mut counter2 = CountRoo::new(builder_config());
    let mut counter3 = CountRoo::new(default_config());

    let result1 = run_over(&mut counter, rust_sources()).unwrap_or(0);
    let result2 = run_over(&mut counter2, rust_sources()).unwrap_or(0);
    let result3 = run_over(&mut counter3, rust_sources()).unwrap_or(0);

    assert_eq!(result1, result2);
    assert_eq!(result1, result3);
}

#[test]
fn test_different_config_counts_are_equal_for_certain_types() {
    let mut counter = CountRoo::new(src_config());
    let mut counter2 = CountRoo::new(builder_config());
    let mut counter3 = CountRoo::new(default_config());

    counter.use_curated_extensions();
    counter2.use_curated_extensions();
    counter3.use_curated_extensions();
    let result1 = run_over(&mut counter, rust_sources()).unwrap_or(0);
    let result2 = run_over(&mut counter2, rust_sources()).unwrap_or(0);
    let result3 = run_over(&mut counter3, rust_sources()).unwrap_or(0);

    assert_eq!(result1, result2);
    assert_eq!(result1, result3);
}

#[test]
fn running_total_accumulates() {
    let mut counter = CountRoo::new(rust_only());
    assert_eq!(run(&mut counter).unwrap(), 4);
    assert_eq!(run(&mut counter).unwrap(), 8);
    assert_eq!(counter.total_lines, 8);
}

#[test]
fn blank_lines_counted_when_asked() {
    let mut config = rust_only();
    config.count_empty_lines = true;
    let mut counter = CountRoo::new(config);
    assert_eq!(run(&mut counter).unwrap(), 5);
}

#[test]
fn failed_walk_fails_the_count() {
    let mut counter = CountRoo::new(rust_only());
    run(&mut counter).unwrap();
    let missing = std::io::Error::new(std::io::ErrorKind::NotFound, "no such directory");
    match counter.count_lines_of_code(Err(LocCounterError::IoError(missing))) {
        Err(LocCounterError::IoError(e)) => assert_eq!(e.kind(), std::io::ErrorKind::NotFound),
        other => panic!("expected an I/O error, got {:?}", other),
    }
    assert_eq!(counter.total_lines, 4);
}

#[test]
fn curated_list_has_common_languages() {
    let list = curated_extensions();
    assert_eq!(list.len(), 22);
    for e in ["py", "rs", "ts", "vue", "kt", "c"].iter() {
        assert!(list.iter().any(|x| x == e));
    }
}

#[test]
fn code_files_match_extensions_exactly() {
    let counter = CountRoo::new(rust_only());
    assert!(counter.is_code_file("main.rs"));
    assert!(!counter.is_code_file("MAIN.RS"));
    assert!(!counter.is_code_file("main"));
}

#[test]
fn extension_counts_of_the_project() {
    let counter = CountRoo::new(rust_only());
    let files = vec![
        FileLines { extension: "rs".to_string(), lines: 3 },
        FileLines { extension: "py".to_string(), lines: 1 },
    ];
    let counts = counter.calculate_extension_counts(&files);
    assert_eq!(counts, vec![("rs".to_string(), 3), ("py".to_string(), 1)]);
}

#[test]
fn brand_colors_fall_back_on_wildcard() {
    let brandings = LanguageBrandings::default();
    match brandings.color_for(".rs") {
        Some(AccentColor::Hex(h)) => assert!(h.starts_with('#')),
        None => panic!("no color for .rs"),
    }
    match brandings.color_for(".no-such-language") {
        Some(AccentColor::Hex(h)) => assert_eq!(h, "#cccccc"),
        None => panic!("no fallback color"),
    }
    let empty = LanguageBrandings::new(vec![LanguageColorMapping { extension: ".x", color: AccentColor::Hex("#010203") }]);
    assert!(empty.color_for(".y").is_none());
}

#[test]
fn writers_remember_their_targets() {
    let _ = StdoutWriter::new();
    assert_eq!(FileWriter::new("out.txt").file_path(), "out.txt");
    assert_eq!(JsonWriter::new("out.json").file_path(), "out.json");
    assert_eq!(XmlWriter::new("out.xml").file_path(), "out.xml");
    assert_eq!(TomlWriter::new("out.toml").file_path(), "out.toml");
    assert_eq!(YamlWriter::new("out.yaml").file_path(), "out.yaml");
}

#[test]
fn module_declarations_are_counted() {
    assert_eq!(count_module_declarations("mod a;\npub mod b;\nmod c {}\n"), 3);
    assert_eq!(count_module_declarations("model mods\tmod"), 0);
    assert_eq!(count_module_declarations(""), 0);
    assert_eq!(count_module_declarations("mod mod mod "), 3);
}

#[test]
fn code_files_of_a_walk() {
    let counter = CountRoo::new(rust_only());
    let entries = vec![
        WalkEntry { file_name: Some("a.rs".to_string()), is_file: true },
        WalkEntry { file_name: Some("b.RS".to_string()), is_file: true },
        WalkEntry { file_name: Some("dir.rs".to_string()), is_file: false },
        WalkEntry { file_name: None, is_file: true },
        WalkEntry { file_name: Some("c.rs".to_string()), is_file: true },
    ];
    assert_eq!(counter.count_code_files(&entries), 2);
}

fn hex<'a>(m: &LanguageColorMapping<'a>) -> &'a str {
    match m.color {
        AccentColor::Hex(h) => h,
    }
}

#[test]
fn brand_table_shape_and_known_colors() {
    let table = LanguageBrandings::default().color_map;
    let (last, rest) = table.split_last().unwrap();
    assert_eq!(last.extension, "*");
    assert_eq!(hex(last), "#cccccc");
    for (i, m) in rest.iter().enumerate() {
        assert!(m.extension.starts_with('.') && m.extension.len() > 1, "{}", m.extension);
        assert_eq!(m.extension, m.extension.to_lowercase());
        for n in rest[i + 1..].iter() {
            assert_ne!(m.extension, n.extension);
        }
    }
    for m in table.iter() {
        let h = hex(m);
        assert_eq!(h.len(), 7);
        assert!(h.starts_with('#') && h[1..].chars().all(|c| c.is_ascii_hexdigit()), "{}", h);
    }
    let b = LanguageBrandings::default();
    let color = |e: &str| match b.color_for(e) {
        Some(AccentColor::Hex(h)) => h,
        None => "",
    };
    assert_eq!(color(".rs"), "#dea584");
    assert_eq!(color(".py"), "#3572A5");
    assert_eq!(color(".go"), "#00ADD8");
    assert_eq!(color("*"), "#cccccc");
}
