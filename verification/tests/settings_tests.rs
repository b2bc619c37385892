use bullhorn::settings::{
    Compare, Operation, Opts, Platforms, Settings, effective_platforms, process_config,
};

#[test]
fn main_apply_config() {}

#[test]
fn settings_apply_config() {
    let config = format!(
        "
            {devto}: {devto}
            {hashnode_token}: {hashnode_token}
            {hashnode_username}: {hashnode_username}
            ",
        devto = "DEVTO_API_TOKEN",
        hashnode_token = "HASHNODE_API_TOKEN",
        hashnode_username = "HASHNODE_USERNAME",
    );
    let mut opts: Opts = Default::default();
    process_config(&mut opts, &config).unwrap();
    assert_eq!(opts.devto_api_token, Some("DEVTO_API_TOKEN".to_owned()));
    assert_eq!(opts.hashnode_api_token, Some("HASHNODE_API_TOKEN".to_owned()));
    assert_eq!(opts.hashnode_username, Some("HASHNODE_USERNAME".to_owned()));
}

#[test]
fn command_line_values_win_over_config() {
    let mut opts: Opts = Default::default();
    opts.devto_api_token = Some("from-cli".to_owned());
    process_config(&mut opts, "DEVTO_API_TOKEN: from-file\nMEDIUM_API_TOKEN: m\n").unwrap();
    assert_eq!(opts.devto_api_token, Some("from-cli".to_owned()));
    assert_eq!(opts.medium_api_token, Some("m".to_owned()));
    assert_eq!(opts.tumblr_blog_id, None);
}

#[test]
fn bad_config_is_an_error() {
    let mut opts: Opts = Default::default();
    assert!(process_config(&mut opts, "key: [unclosed\n").is_err());
}

#[test]
fn defaults() {
    let settings = Settings::default();
    assert!(!settings.dry);
    assert!(!settings.draft);
    assert_eq!(settings.operation, Operation::Auto);
    assert_eq!(settings.compare, Compare::CanonicalUrl);
    assert_eq!(Operation::default(), Operation::Auto);
    assert_eq!(Compare::default(), Compare::CanonicalUrl);
}

#[test]
fn platform_selection() {
    let all = vec![Platforms::All];
    assert_eq!(
        effective_platforms(&all),
        vec![Platforms::Devto, Platforms::Hashnode, Platforms::Medium]
    );
    let none: Vec<Platforms> = vec![];
    assert_eq!(
        effective_platforms(&none),
        vec![Platforms::Devto, Platforms::Hashnode, Platforms::Medium]
    );
    let some = vec![Platforms::Tumblr, Platforms::Devto];
    assert_eq!(effective_platforms(&some), some);
}

#[test]
fn config_must_be_a_string_map() {
    // Valid YAML that is not a string-to-string map aborts the merge.
    let mut opts: Opts = Default::default();
    assert!(process_config(&mut opts, "- a\n- b\n").is_err());
    assert_eq!(opts.devto_api_token, None);
    // A map with a non-string value aborts too.
    let mut opts: Opts = Default::default();
    assert!(process_config(&mut opts, "DEVTO_API_TOKEN: [x, y]\n").is_err());
    assert_eq!(opts.devto_api_token, None);
}
