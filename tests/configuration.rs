use countroo::config::{config_format_for, first_with_manifest, names_src_folder, names_src_folder_lowered, resolve_project_path, Config, ConfigBuilder, ConfigFormat, LocCounterError};

fn config_error_message(r: Result<ConfigFormat, LocCounterError>) -> String {
    match r {
        Err(LocCounterError::ConfigError(m)) => m,
        other => panic!("expected a configuration error, got {:?}", other),
    }
}

#[test]
fn test_builder_pattern_produces_same_object_with_extension() {
    let src_path = "/home/dev/countroo/src";
    let config = Config::builder()
        .project_path("src", true, src_path, "/home/dev/countroo/src/src")
        .extension("rs")
        .extension("py")
        .count_empty_lines(false)
        .build()
        .unwrap();

    let config2 = Config {
        project_src_path: src_path.to_string(),
        config_path: None,
        extensions: vec!["rs".to_string(), "py".to_string()],
        count_empty_lines: false,
    };

    assert_eq!(config.project_src_path, config2.project_src_path);
    assert_eq!(config.extensions, config2.extensions);
    assert_eq!(config.count_empty_lines, config2.count_empty_lines);
}

#[test]
fn test_builder_pattern_produces_same_object_with_extensions() {
    let src_path = "E:\\RustroverProjects\\countroo\\src";
    let config = Config::builder()
        .project_path("src", true, src_path, "E:\\RustroverProjects\\countroo\\src\\src")
        .extensions(vec!["rs", "py"])
        .count_empty_lines(false)
        .build()
        .unwrap();

    let config2 = Config {
        project_src_path: "E:\\RustroverProjects\\countroo\\src".to_string(),
        config_path: None,
        extensions: vec!["rs".to_string(), "py".to_string()],
        count_empty_lines: false,
    };

    assert_eq!(config.project_src_path, config2.project_src_path);
    assert_eq!(config.extensions, config2.extensions);
    assert_eq!(config.count_empty_lines, config2.count_empty_lines);
}

#[test]
fn builder_resolves_paths_against_src_folder() {
    let b = |p: &str, rel: bool| {
        Config::builder()
            .project_path(p, rel, "/w/src", &format!("/w/src/{}", p))
            .build()
            .unwrap()
            .project_src_path
    };
    assert_eq!(b("src", true), "/w/src");
    assert_eq!(b("Src", true), "/w/src");
    assert_eq!(b(".", true), "/w/src");
    assert_eq!(b("lib", true), "/w/src/lib");
    assert_eq!(b("/elsewhere", false), "/elsewhere");
    assert_eq!(resolve_project_path("bin", true, "/w/src", "/w/src/bin"), "/w/src/bin");
}

#[test]
fn builder_without_path_fails() {
    let r = ConfigBuilder::default().extension("rs").build();
    assert_eq!(r.unwrap_err(), "Project or workspace path is required");
}

#[test]
fn line_separated_list_skips_empty_lines() {
    let c = Config::from_line_separated_string("rs\n\ncs\r\ndart\ngo\njs\nts\n", true, "p".to_string()).unwrap();
    assert_eq!(c.extensions, vec!["rs", "cs", "dart", "go", "js", "ts"]);
    assert!(c.count_empty_lines);
    assert_eq!(c.project_src_path, "p");
    assert_eq!(c.config_path, None);
}

#[test]
fn line_separated_list_of_nothing() {
    let c = Config::from_line_separated_string("", false, "p".to_string()).unwrap();
    assert!(c.extensions.is_empty());
    let d = Config::from_line_separated_string("\n\r\n", false, "p".to_string()).unwrap();
    assert!(d.extensions.is_empty());
}

#[test]
fn vector_of_extensions_is_kept() {
    let c = Config::from_str_vec(vec!["rs".to_string(), "toml".to_string()], true, "q".to_string()).unwrap();
    assert_eq!(c.extensions, vec!["rs", "toml"]);
    assert!(c.count_empty_lines);
}

#[test]
fn located_src_folder_gives_rust_config() {
    let c = Config::from_src_folder(Some("/w/src".to_string()), "/w/src/config.txt".to_string()).unwrap();
    assert_eq!(c.project_src_path, "/w/src");
    assert_eq!(c.config_path, Some("/w/src/config.txt".to_string()));
    assert_eq!(c.extensions, vec!["rs"]);
    assert!(!c.count_empty_lines);
    match Config::from_src_folder(None, "config.txt".to_string()) {
        Err(LocCounterError::ConfigError(m)) => assert_eq!(m, "Unable to find src folder"),
        _ => panic!("expected a configuration error"),
    }
}

#[test]
fn unsupported_config_extension_is_rejected() {
    assert_eq!(config_error_message(config_format_for("settings.ini")), "Unsupported config file type");
    assert_eq!(config_error_message(config_format_for("settings")), "Invalid config file type");
    assert_eq!(config_error_message(config_format_for("settings.TOML")), "Unsupported config file type");
}

#[test]
fn config_formats_by_extension() {
    assert_eq!(config_format_for("a.toml").unwrap(), ConfigFormat::Toml);
    assert_eq!(config_format_for("a.yaml").unwrap(), ConfigFormat::Yaml);
    assert_eq!(config_format_for("a.yml").unwrap(), ConfigFormat::Yaml);
    assert_eq!(config_format_for("a.json").unwrap(), ConfigFormat::Json);
    assert_eq!(config_format_for("a.xml").unwrap(), ConfigFormat::Xml);
    assert_eq!(config_format_for("config.txt").unwrap(), ConfigFormat::Text);
}

#[test]
fn project_path_resolution_rule() {
    assert!(names_src_folder("src"));
    assert!(names_src_folder("SRC"));
    assert!(names_src_folder("."));
    assert!(!names_src_folder("lib"));
    assert!(names_src_folder_lowered(&"src".to_string()));
    assert!(!names_src_folder_lowered(&"Src".to_string()));
    assert_eq!(resolve_project_path("/abs/where", false, "/w/src", "/abs/where"), "/abs/where");
}

#[test]
fn error_messages_name_their_kind() {
    assert_eq!(LocCounterError::ConfigError("bad".to_string()).message(), "Configuration Error: bad");
    assert_eq!(LocCounterError::TomlError("t".to_string()).message(), "TOML Error: t");
    assert_eq!(LocCounterError::JsonError("j".to_string()).message(), "JSON Error: j");
    assert_eq!(LocCounterError::YamlError("y".to_string()).message(), "YAML Error: y");
    assert_eq!(LocCounterError::XmlError("x".to_string()).message(), "XML Error: x");
    let io = std::io::Error::new(std::io::ErrorKind::NotFound, "gone");
    assert_eq!(LocCounterError::IoError(io).message(), "IO Error: gone");
}

#[test]
fn nearest_manifest_wins() {
    assert_eq!(first_with_manifest(&vec![false, true, true]), Some(1));
    assert_eq!(first_with_manifest(&vec![true]), Some(0));
    assert_eq!(first_with_manifest(&vec![false, false]), None);
    assert_eq!(first_with_manifest(&Vec::new()), None);
}
