use distillate::config::{config_from_parts, parse_config, ConfigError};

#[test]
fn full_config_parses() {
    let text = "title = \"My Site\"\ncopyright = \"Me\"\ntemplate-path = \"tpl.html\"\n";
    let conf = parse_config(text).unwrap();
    assert_eq!(conf.title, "My Site");
    assert_eq!(conf.copyright, "Me");
    assert_eq!(conf.template_path, "tpl.html");
}

#[test]
fn missing_copyright_is_reported_by_name() {
    let text = "title = \"My Site\"\ntemplate-path = \"tpl.html\"\n";
    match parse_config(text) {
        Err(ConfigError::MissingKey(k)) => assert_eq!(k, "copyright"),
        other => panic!("expected a missing-key error, got {:?}", other),
    }
}

#[test]
fn missing_title_is_reported_by_name() {
    let text = "copyright = \"Me\"\ntemplate-path = \"tpl.html\"\n";
    match parse_config(text) {
        Err(ConfigError::MissingKey(k)) => assert_eq!(k, "title"),
        other => panic!("expected a missing-key error, got {:?}", other),
    }
}

#[test]
fn missing_template_path_is_reported_by_name() {
    let text = "title = \"t\"\ncopyright = \"c\"\n";
    match parse_config(text) {
        Err(ConfigError::MissingKey(k)) => assert_eq!(k, "template-path"),
        other => panic!("expected a missing-key error, got {:?}", other),
    }
}

#[test]
fn non_string_value_counts_as_missing() {
    let text = "title = 3\ncopyright = \"c\"\ntemplate-path = \"p\"\n";
    match parse_config(text) {
        Err(ConfigError::MissingKey(k)) => assert_eq!(k, "title"),
        other => panic!("expected a missing-key error, got {:?}", other),
    }
}

#[test]
fn keys_in_sub_tables_do_not_count() {
    let text = "[section]\ntitle = \"x\"\ncopyright = \"c\"\ntemplate-path = \"p\"\n";
    match parse_config(text) {
        Err(ConfigError::MissingKey(k)) => assert_eq!(k, "title"),
        other => panic!("expected a missing-key error, got {:?}", other),
    }
}

#[test]
fn unparseable_text_is_reported_with_a_message() {
    match parse_config("title = = nope") {
        Err(ConfigError::Unparseable(m)) => assert!(!m.is_empty()),
        other => panic!("expected an unparseable error, got {:?}", other),
    }
}

#[test]
fn parts_build_the_config() {
    let conf = config_from_parts(
        Some("t".to_owned()),
        Some("c".to_owned()),
        Some("p".to_owned()),
    )
    .unwrap();
    assert_eq!(conf.title, "t");
    assert_eq!(conf.copyright, "c");
    assert_eq!(conf.template_path, "p");
}

#[test]
fn first_missing_part_wins() {
    match config_from_parts(None, None, None) {
        Err(ConfigError::MissingKey(k)) => assert_eq!(k, "title"),
        other => panic!("expected a missing-key error, got {:?}", other),
    }
}
