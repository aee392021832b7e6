use glone::config::{
    Auth, AuthType, Config, ConfigSource, GloneOptions, LoadStatus, Provider, SENTINEL,
};

fn token(username: &str, password: &str) -> Auth {
    Auth {
        kind: AuthType::Token,
        username: Some(username.to_string()),
        password: Some(password.to_string()),
        path: None,
    }
}

fn provider(name: &str) -> Provider {
    Provider {
        name: name.to_string(),
        url: format!("https://example/{}.git", name),
        branch: "main".to_string(),
        sync_dir: format!("/tmp/{}", name),
        auth: Auth { kind: AuthType::Public, username: None, password: None, path: None },
    }
}

#[test]
fn sentinel_is_an_underscore() {
    assert_eq!(SENTINEL, '_');
}

#[test]
fn token_with_marked_names_is_valid() {
    assert!(token("_GIT_USER", "_GIT_TOKEN").is_valid_cred());
    assert!(token("_", "_").is_valid_cred());
}

#[test]
fn token_with_an_unmarked_name_is_invalid() {
    assert!(!token("GIT_USER", "_GIT_TOKEN").is_valid_cred());
    assert!(!token("_GIT_USER", "GIT_TOKEN").is_valid_cred());
    assert!(!token("GIT_USER", "GIT_TOKEN").is_valid_cred());
    assert!(!token("G_", "_GIT_TOKEN").is_valid_cred());
}

#[test]
fn token_with_an_empty_name_is_invalid() {
    assert!(!token("", "_GIT_TOKEN").is_valid_cred());
    assert!(!token("_GIT_USER", "").is_valid_cred());
}

#[test]
fn ssh_path_is_the_configured_path() {
    let auth = Auth {
        kind: AuthType::Ssh,
        username: None,
        password: Some("not a path".to_string()),
        path: Some("/home/alice/.ssh/id_ed25519".to_string()),
    };
    assert_eq!(auth.get_ssh_path(), "/home/alice/.ssh/id_ed25519");
}

#[test]
fn config_keeps_its_providers_in_order() {
    let config = Config::new(vec![provider("b"), provider("a"), provider("c")]);
    let names: Vec<&str> = config.get_providers().iter().map(|p| p.name.as_str()).collect();
    assert_eq!(names, vec!["b", "a", "c"]);
    assert_eq!(config.get_providers()[1], provider("a"));
}

#[test]
fn options_live_under_the_configuration_directory() {
    let sep = std::path::MAIN_SEPARATOR;
    let options = GloneOptions::rooted_at("base");
    assert_eq!(options.config_dir_path, format!("base{}.glone", sep));
    assert_eq!(options.config_path, format!("base{}.glone{}config.yaml", sep, sep));
    assert_eq!(options.log_path, format!("base{}.glone{}app.log", sep, sep));
    assert_eq!(options.config, None);
}

#[test]
fn options_of_the_user_have_no_configuration_yet() {
    if let Some(options) = GloneOptions::new() {
        let sep = std::path::MAIN_SEPARATOR;
        assert_eq!(options.config, None);
        assert!(options.config_dir_path.ends_with(".glone"));
        assert_eq!(
            options.config_path,
            format!("{}{}config.yaml", options.config_dir_path, sep)
        );
        assert_eq!(options.log_path, format!("{}{}app.log", options.config_dir_path, sep));
        assert!(options.providers().is_empty());
    }
}

#[test]
fn directory_is_created_only_where_it_is_missing() {
    let options = GloneOptions::rooted_at("base");
    assert!(options.create_config_dir(false));
    assert!(!options.create_config_dir(true));
}

#[test]
fn file_is_created_only_in_an_existing_directory() {
    let options = GloneOptions::rooted_at("base");
    assert!(options.create_config_file(true, false));
    assert!(!options.create_config_file(true, true));
    assert!(!options.create_config_file(false, false));
    assert!(!options.create_config_file(false, true));
}

#[test]
fn unreadable_file_loads_nothing() {
    let mut options = GloneOptions::rooted_at("base");
    assert_eq!(options.load(ConfigSource::Unreadable), LoadStatus::Unreadable);
    assert_eq!(options.config, None);
    assert!(options.providers().is_empty());
}

#[test]
fn empty_file_loads_nothing() {
    let mut options = GloneOptions::rooted_at("base");
    let source = ConfigSource::Read { content: String::new(), parsed: None };
    assert_eq!(options.load(source), LoadStatus::Empty);
    assert_eq!(options.config, None);
}

#[test]
fn empty_file_is_not_taken_for_a_configuration() {
    let mut options = GloneOptions::rooted_at("base");
    let source = ConfigSource::Read {
        content: String::new(),
        parsed: Some(Config::new(vec![provider("a")])),
    };
    assert_eq!(options.load(source), LoadStatus::Empty);
    assert_eq!(options.config, None);
}

#[test]
fn unparsable_file_loads_nothing() {
    let mut options = GloneOptions::rooted_at("base");
    let source = ConfigSource::Read { content: "providers: 3".to_string(), parsed: None };
    assert_eq!(options.load(source), LoadStatus::Unparsable);
    assert_eq!(options.config, None);
    assert!(options.providers().is_empty());
}

#[test]
fn parsed_file_is_loaded() {
    let mut options = GloneOptions::rooted_at("base");
    let before = options.clone();
    let source = ConfigSource::Read {
        content: "providers: []".to_string(),
        parsed: Some(Config::new(vec![provider("a"), provider("b")])),
    };
    assert_eq!(options.load(source), LoadStatus::Loaded);
    assert_eq!(options.config, Some(Config::new(vec![provider("a"), provider("b")])));
    assert_eq!(options.providers(), &[provider("a"), provider("b")][..]);
    assert_eq!(options.config_dir_path, before.config_dir_path);
    assert_eq!(options.config_path, before.config_path);
    assert_eq!(options.log_path, before.log_path);
}

#[test]
fn failed_load_keeps_what_was_loaded() {
    let mut options = GloneOptions::rooted_at("base");
    let source = ConfigSource::Read {
        content: "providers: []".to_string(),
        parsed: Some(Config::new(vec![provider("a")])),
    };
    assert_eq!(options.load(source), LoadStatus::Loaded);
    assert_eq!(options.load(ConfigSource::Unreadable), LoadStatus::Unreadable);
    assert_eq!(options.providers(), &[provider("a")][..]);
}

#[test]
fn user_without_a_configuration_directory_has_no_options() {
    assert_eq!(GloneOptions::for_config_dir(None), None);
}

#[test]
fn user_with_a_configuration_directory_has_options_under_it() {
    let options = GloneOptions::for_config_dir(Some("base".to_string()));
    assert_eq!(options, Some(GloneOptions::rooted_at("base")));
    let sep = std::path::MAIN_SEPARATOR;
    assert_eq!(options.unwrap().config_dir_path, format!("base{}.glone", sep));
}
