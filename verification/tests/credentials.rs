use glone::config::{Auth, AuthType};
use glone::credentials::{Challenge, Credential, CredentialStrategy};
use glone::outcome::{CredentialError, SyncError};

fn auth(
    kind: AuthType,
    username: Option<&str>,
    password: Option<&str>,
    path: Option<&str>,
) -> Auth {
    Auth {
        kind,
        username: username.map(|s| s.to_string()),
        password: password.map(|s| s.to_string()),
        path: path.map(|s| s.to_string()),
    }
}

fn nothing_found() -> Challenge {
    Challenge {
        username_from_url: None,
        env_username: None,
        env_password: None,
        key_readable: false,
    }
}

fn environment() -> CredentialStrategy {
    CredentialStrategy::Environment {
        username_var: "_GIT_USER".to_string(),
        password_var: "_GIT_TOKEN".to_string(),
    }
}

fn ssh_key() -> CredentialStrategy {
    CredentialStrategy::SshKey { key_path: "/keys/id".to_string() }
}

#[test]
fn public_policy_is_anonymous() {
    let policy = auth(AuthType::Public, None, None, None);
    assert_eq!(CredentialStrategy::resolve(&policy), Ok(CredentialStrategy::Anonymous));
    let with_leftovers = auth(AuthType::Public, Some("_U"), Some("_P"), Some("/keys/id"));
    assert_eq!(CredentialStrategy::resolve(&with_leftovers), Ok(CredentialStrategy::Anonymous));
}

#[test]
fn marked_token_reads_the_environment() {
    let policy = auth(AuthType::Token, Some("_GIT_USER"), Some("_GIT_TOKEN"), None);
    let strategy = CredentialStrategy::resolve(&policy);
    assert_eq!(strategy, Ok(environment()));
    assert!(strategy.unwrap().reads_environment());
}

#[test]
fn unmarked_token_falls_back_to_anonymous() {
    let policy = auth(AuthType::Token, Some("GIT_USER"), Some("_GIT_TOKEN"), None);
    let strategy = CredentialStrategy::resolve(&policy);
    assert_eq!(strategy, Ok(CredentialStrategy::Anonymous));
    assert!(!strategy.unwrap().reads_environment());
    let other = auth(AuthType::Token, Some("_GIT_USER"), Some("GIT_TOKEN"), None);
    assert_eq!(CredentialStrategy::resolve(&other), Ok(CredentialStrategy::Anonymous));
}

#[test]
fn token_without_names_is_invalid() {
    let no_username = auth(AuthType::Token, None, Some("_GIT_TOKEN"), None);
    assert_eq!(CredentialStrategy::resolve(&no_username), Err(SyncError::ConfigInvalid));
    let no_password = auth(AuthType::Token, Some("_GIT_USER"), None, None);
    assert_eq!(CredentialStrategy::resolve(&no_password), Err(SyncError::ConfigInvalid));
}

#[test]
fn ssh_policy_uses_its_key() {
    let policy = auth(AuthType::Ssh, None, Some("/not/the/key"), Some("/keys/id"));
    assert_eq!(CredentialStrategy::resolve(&policy), Ok(ssh_key()));
    assert!(!ssh_key().reads_environment());
}

#[test]
fn ssh_policy_without_a_path_is_invalid() {
    let policy = auth(AuthType::Ssh, Some("_U"), Some("/not/the/key"), None);
    assert_eq!(CredentialStrategy::resolve(&policy), Err(SyncError::ConfigInvalid));
}

#[test]
fn anonymous_strategy_has_no_answer() {
    let found = Challenge {
        username_from_url: Some("git".to_string()),
        env_username: Some("alice".to_string()),
        env_password: Some("secret".to_string()),
        key_readable: true,
    };
    assert_eq!(CredentialStrategy::Anonymous.answer(found), Err(CredentialError::Required));
    assert_eq!(
        CredentialStrategy::Anonymous.answer(nothing_found()),
        Err(CredentialError::Required)
    );
}

#[test]
fn environment_strategy_answers_with_what_the_variables_hold() {
    let found = Challenge {
        env_username: Some("alice".to_string()),
        env_password: Some("secret".to_string()),
        ..nothing_found()
    };
    assert_eq!(
        environment().answer(found),
        Ok(Credential::UserPass { username: "alice".to_string(), password: "secret".to_string() })
    );
}

#[test]
fn environment_strategy_misses_an_unset_variable() {
    let no_password = Challenge { env_username: Some("alice".to_string()), ..nothing_found() };
    assert_eq!(environment().answer(no_password), Err(CredentialError::Missing));
    let no_username = Challenge { env_password: Some("secret".to_string()), ..nothing_found() };
    assert_eq!(environment().answer(no_username), Err(CredentialError::Missing));
    assert_eq!(environment().answer(nothing_found()), Err(CredentialError::Missing));
}

#[test]
fn ssh_strategy_answers_with_the_key_and_the_user_of_the_address() {
    let found = Challenge {
        username_from_url: Some("git".to_string()),
        key_readable: true,
        ..nothing_found()
    };
    assert_eq!(
        ssh_key().answer(found),
        Ok(Credential::SshKey { username: "git".to_string(), key_path: "/keys/id".to_string() })
    );
}

#[test]
fn ssh_strategy_is_rejected_without_a_readable_key() {
    let found = Challenge { username_from_url: Some("git".to_string()), ..nothing_found() };
    assert_eq!(ssh_key().answer(found), Err(CredentialError::Rejected));
}

#[test]
fn ssh_strategy_is_rejected_without_a_user_name() {
    let found = Challenge { key_readable: true, ..nothing_found() };
    assert_eq!(ssh_key().answer(found), Err(CredentialError::Rejected));
}

#[test]
fn strategy_clones_to_itself() {
    assert_eq!(environment().clone(), environment());
    assert_eq!(ssh_key().clone(), ssh_key());
    assert_eq!(CredentialStrategy::Anonymous.clone(), CredentialStrategy::Anonymous);
}

#[test]
fn credential_failures_map_to_run_failures() {
    assert_eq!(SyncError::from_credential(CredentialError::Missing), SyncError::CredentialMissing);
    assert_eq!(SyncError::from_credential(CredentialError::Rejected), SyncError::AuthRejected);
    assert_eq!(SyncError::from_credential(CredentialError::Required), SyncError::AuthRequired);
}
