//! From the credential policy of a provider to the credentials that answer a
//! challenge of the remote.
//!
//! A policy is resolved once into a strategy, a plain value that travels with
//! the transfer request. When the remote challenges, the caller gathers what
//! the strategy reads (the environment, the key file) and the strategy
//! answers with credentials or with the reason why there are none.

use vstd::prelude::*;
use crate::config::{Auth, AuthType, AuthView};
use crate::outcome::{CredentialError, SyncError};

verus! {

/// How a transfer answers a challenge for credentials.
#[derive(Debug, PartialEq, Eq)]
pub enum CredentialStrategy {
    /// No credentials: a challenge fails the transfer.
    Anonymous,
    /// A user name and a password, each read from the environment variable
    /// named here at the time of the challenge.
    Environment { username_var: String, password_var: String },
    /// The private key at this path, without a passphrase, under the user
    /// name that the address of the remote gives.
    SshKey { key_path: String },
}

/// The mathematical model of a [`CredentialStrategy`].
pub enum CredentialStrategyView {
    Anonymous,
    Environment { username_var: Seq<char>, password_var: Seq<char> },
    SshKey { key_path: Seq<char> },
}

impl View for CredentialStrategy {
    type V = CredentialStrategyView;

    open spec fn view(&self) -> CredentialStrategyView {
        match self {
            CredentialStrategy::Anonymous => CredentialStrategyView::Anonymous,
            CredentialStrategy::Environment { username_var, password_var } => {
                CredentialStrategyView::Environment {
                    username_var: username_var@,
                    password_var: password_var@,
                }
            },
            CredentialStrategy::SshKey { key_path } => CredentialStrategyView::SshKey {
                key_path: key_path@,
            },
        }
    }
}

impl Clone for CredentialStrategy {
    fn clone(&self) -> (r: Self)
        ensures
            r@ == self@,
    {
        match self {
            CredentialStrategy::Anonymous => CredentialStrategy::Anonymous,
            CredentialStrategy::Environment { username_var, password_var } => {
                CredentialStrategy::Environment {
                    username_var: username_var.clone(),
                    password_var: password_var.clone(),
                }
            },
            CredentialStrategy::SshKey { key_path } => CredentialStrategy::SshKey {
                key_path: key_path.clone(),
            },
        }
    }
}

/// What the caller found when the remote challenged: the user name in the
/// address of the remote, the values of the two environment variables of an
/// [`CredentialStrategy::Environment`] strategy, and whether the key of an
/// [`CredentialStrategy::SshKey`] strategy can be read. What the strategy
/// does not read is left at `None` or `false`.
#[derive(Clone, Debug, PartialEq, Eq)]
pub struct Challenge {
    pub username_from_url: Option<String>,
    pub env_username: Option<String>,
    pub env_password: Option<String>,
    pub key_readable: bool,
}

/// The mathematical model of a [`Challenge`].
pub struct ChallengeView {
    pub username_from_url: Option<Seq<char>>,
    pub env_username: Option<Seq<char>>,
    pub env_password: Option<Seq<char>>,
    pub key_readable: bool,
}

impl View for Challenge {
    type V = ChallengeView;

    open spec fn view(&self) -> ChallengeView {
        ChallengeView {
            username_from_url: self.username_from_url.deep_view(),
            env_username: self.env_username.deep_view(),
            env_password: self.env_password.deep_view(),
            key_readable: self.key_readable,
        }
    }
}

/// Credentials to hand to the transport.
#[derive(Clone, Debug, PartialEq, Eq)]
pub enum Credential {
    UserPass { username: String, password: String },
    SshKey { username: String, key_path: String },
}

/// The mathematical model of a [`Credential`].
pub enum CredentialView {
    UserPass { username: Seq<char>, password: Seq<char> },
    SshKey { username: Seq<char>, key_path: Seq<char> },
}

impl View for Credential {
    type V = CredentialView;

    open spec fn view(&self) -> CredentialView {
        match self {
            Credential::UserPass { username, password } => CredentialView::UserPass {
                username: username@,
                password: password@,
            },
            Credential::SshKey { username, key_path } => CredentialView::SshKey {
                username: username@,
                key_path: key_path@,
            },
        }
    }
}

/// The strategy that a policy stands for.
///
/// A token whose variable names do not both carry the sentinel gets no
/// strategy of its own and falls back to anonymous transport. A policy that
/// lacks a field its kind reads is invalid.
pub open spec fn resolve_strategy(auth: AuthView) -> Result<CredentialStrategyView, SyncError> {
    if !auth.well_formed() {
        Err(SyncError::ConfigInvalid)
    } else {
        match auth.kind {
            AuthType::Token => if auth.valid_cred() {
                Ok(
                    CredentialStrategyView::Environment {
                        username_var: auth.username->0,
                        password_var: auth.password->0,
                    },
                )
            } else {
                Ok(CredentialStrategyView::Anonymous)
            },
            AuthType::Ssh => Ok(CredentialStrategyView::SshKey { key_path: auth.path->0 }),
            AuthType::Public => Ok(CredentialStrategyView::Anonymous),
        }
    }
}

/// What a strategy answers to a challenge.
pub open spec fn answer_challenge(
    strategy: CredentialStrategyView,
    found: ChallengeView,
) -> Result<CredentialView, CredentialError> {
    match strategy {
        CredentialStrategyView::Anonymous => Err(CredentialError::Required),
        CredentialStrategyView::Environment { .. } => {
            if found.env_username is Some && found.env_password is Some {
                Ok(
                    CredentialView::UserPass {
                        username: found.env_username->0,
                        password: found.env_password->0,
                    },
                )
            } else {
                Err(CredentialError::Missing)
            }
        },
        CredentialStrategyView::SshKey { key_path } => {
            if found.key_readable && found.username_from_url is Some {
                Ok(CredentialView::SshKey { username: found.username_from_url->0, key_path })
            } else {
                Err(CredentialError::Rejected)
            }
        },
    }
}

impl CredentialStrategy {
    /// Resolves the policy of a provider.
    pub fn resolve(auth: &Auth) -> (r: Result<CredentialStrategy, SyncError>)
        ensures
            match r {
                Ok(s) => resolve_strategy(auth@) == Ok::<CredentialStrategyView, SyncError>(s@),
                Err(e) => resolve_strategy(auth@) == Err::<CredentialStrategyView, SyncError>(e),
            },
    {
        match auth.kind {
            AuthType::Token => {
                if auth.username.is_none() || auth.password.is_none() {
                    return Err(SyncError::ConfigInvalid);
                }
                if auth.is_valid_cred() {
                    let username_var = auth.username.as_ref().unwrap().clone();
                    let password_var = auth.password.as_ref().unwrap().clone();
                    Ok(CredentialStrategy::Environment { username_var, password_var })
                } else {
                    Ok(CredentialStrategy::Anonymous)
                }
            },
            AuthType::Ssh => {
                if auth.path.is_none() {
                    return Err(SyncError::ConfigInvalid);
                }
                Ok(CredentialStrategy::SshKey { key_path: auth.get_ssh_path().clone() })
            },
            AuthType::Public => Ok(CredentialStrategy::Anonymous),
        }
    }

    /// Whether answering a challenge takes a look at the environment.
    pub fn reads_environment(&self) -> (r: bool)
        ensures
            r == (self@ is Environment),
    {
        match self {
            CredentialStrategy::Environment { .. } => true,
            _ => false,
        }
    }

    /// Answers a challenge of the remote from what the caller found.
    pub fn answer(&self, found: Challenge) -> (r: Result<Credential, CredentialError>)
        ensures
            match r {
                Ok(c) => answer_challenge(self@, found@) == Ok::<CredentialView, CredentialError>(
                    c@,
                ),
                Err(e) => answer_challenge(self@, found@) == Err::<CredentialView, CredentialError>(
                    e,
                ),
            },
    {
        match self {
            CredentialStrategy::Anonymous => Err(CredentialError::Required),
            CredentialStrategy::Environment { .. } => {
                match (found.env_username, found.env_password) {
                    (Some(username), Some(password)) => Ok(
                        Credential::UserPass { username, password },
                    ),
                    _ => Err(CredentialError::Missing),
                }
            },
            CredentialStrategy::SshKey { key_path } => {
                if !found.key_readable {
                    return Err(CredentialError::Rejected);
                }
                match found.username_from_url {
                    Some(username) => Ok(
                        Credential::SshKey { username, key_path: key_path.clone() },
                    ),
                    None => Err(CredentialError::Rejected),
                }
            },
        }
    }
}

} // verus!
