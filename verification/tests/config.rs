use quickgc::config::Config;

#[test]
fn the_default_configuration_offers_the_usual_types() {
    let config = Config::create_default_config();
    assert_eq!(
        config.prefixes,
        vec![
            "build", "chore", "ci", "feat", "fix", "style", "refactor", "docs", "perf", "test",
            "revert"
        ]
    );
}

#[test]
fn the_configuration_holds_what_it_was_given() {
    let config = Config { prefixes: vec!["feat".to_string(), "fix".to_string()] };
    assert_eq!(config.prefixes.len(), 2);
    assert_eq!(config.prefixes[1], "fix");
}
