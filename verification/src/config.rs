//! The declarative side of a run: which repositories to keep in step, with
//! which credentials, and where the list of them is kept.

use vstd::prelude::*;
use vstd::string::*;

verus! {

/// Names of environment variables that hold credentials start with this
/// character.
pub const SENTINEL: char = '_';

/// Whether `name` may name an environment variable that holds a credential.
pub open spec fn has_sentinel(name: Seq<char>) -> bool {
    name.len() > 0 && name[0] == SENTINEL
}

/// The kind of credentials a provider asks for.
#[derive(Clone, Copy, Debug, PartialEq, Eq, Structural)]
pub enum AuthType {
    Token,
    Ssh,
    Public,
}

/// The credential policy of one provider.
///
/// `kind` decides which of the other fields are read: `username` and
/// `password` for a token, where they name environment variables and hold no
/// secret themselves, and `path`, the private key, for SSH.
#[derive(Clone, Debug, PartialEq, Eq)]
pub struct Auth {
    pub kind: AuthType,
    pub username: Option<String>,
    pub password: Option<String>,
    pub path: Option<String>,
}

/// The mathematical model of an [`Auth`].
pub struct AuthView {
    pub kind: AuthType,
    pub username: Option<Seq<char>>,
    pub password: Option<Seq<char>>,
    pub path: Option<Seq<char>>,
}

impl AuthView {
    /// Every field that `kind` reads is there.
    pub open spec fn well_formed(self) -> bool {
        match self.kind {
            AuthType::Token => self.username is Some && self.password is Some,
            AuthType::Ssh => self.path is Some,
            AuthType::Public => true,
        }
    }

    /// Both variable names carry the sentinel.
    pub open spec fn valid_cred(self) -> bool
        recommends
            self.username is Some,
            self.password is Some,
    {
        has_sentinel(self.username->0) && has_sentinel(self.password->0)
    }
}

impl View for Auth {
    type V = AuthView;

    open spec fn view(&self) -> AuthView {
        AuthView {
            kind: self.kind,
            username: self.username.deep_view(),
            password: self.password.deep_view(),
            path: self.path.deep_view(),
        }
    }
}

impl DeepView for Auth {
    type V = AuthView;

    open spec fn deep_view(&self) -> AuthView {
        self@
    }
}

/// Whether `name` starts with the sentinel.
fn starts_with_sentinel(name: &str) -> (r: bool)
    ensures
        r == has_sentinel(name@),
{
    !name.is_empty() && name.get_char(0) == SENTINEL
}

impl Auth {
    /// Whether both variable names of a token carry the sentinel. Only then
    /// may the variables be read.
    pub fn is_valid_cred(&self) -> (r: bool)
        requires
            self.username is Some,
            self.password is Some,
        ensures
            r == self@.valid_cred(),
    {
        let username = self.username.as_ref().unwrap();
        let password = self.password.as_ref().unwrap();
        starts_with_sentinel(username.as_str()) && starts_with_sentinel(password.as_str())
    }

    /// The path of the private key of an SSH policy.
    pub fn get_ssh_path(&self) -> (r: &String)
        requires
            self.path is Some,
        ensures
            Some(*r) == self.path,
    {
        self.path.as_ref().unwrap()
    }
}

/// One repository to keep in step with its remote.
#[derive(Clone, Debug, PartialEq, Eq)]
pub struct Provider {
    /// The label under which progress is reported.
    pub name: String,
    /// The address of the remote.
    pub url: String,
    /// The branch to track.
    pub branch: String,
    /// Where the local checkout lives.
    pub sync_dir: String,
    pub auth: Auth,
}

/// The mathematical model of a [`Provider`].
pub struct ProviderView {
    pub name: Seq<char>,
    pub url: Seq<char>,
    pub branch: Seq<char>,
    pub sync_dir: Seq<char>,
    pub auth: AuthView,
}

impl View for Provider {
    type V = ProviderView;

    open spec fn view(&self) -> ProviderView {
        ProviderView {
            name: self.name@,
            url: self.url@,
            branch: self.branch@,
            sync_dir: self.sync_dir@,
            auth: self.auth@,
        }
    }
}

impl DeepView for Provider {
    type V = ProviderView;

    open spec fn deep_view(&self) -> ProviderView {
        self@
    }
}

/// The providers of one run, in the order in which they are processed.
#[derive(Clone, Debug, PartialEq, Eq)]
pub struct Config {
    providers: Vec<Provider>,
}

impl View for Config {
    type V = Seq<ProviderView>;

    closed spec fn view(&self) -> Seq<ProviderView> {
        self.providers.deep_view()
    }
}

impl Config {
    pub fn new(providers: Vec<Provider>) -> (r: Config)
        ensures
            r@ == providers.deep_view(),
    {
        Config { providers }
    }

    pub fn get_providers(&self) -> (r: &Vec<Provider>)
        ensures
            r.deep_view() == self@,
    {
        &self.providers
    }
}

/// The path that the platform makes of `child` adjoined to `base`.
pub uninterp spec fn joined_path(base: Seq<char>, child: Seq<char>) -> Seq<char>;

/// `std::path::Path::join`, on paths given as text: the result is `child`
/// adjoined to `base` under the rules of the platform, a path that depends
/// on the two arguments and on nothing else.
#[verifier::external_body]
fn join_path(base: &str, child: &str) -> (r: String)
    ensures
        r@ == joined_path(base@, child@),
{
    std::path::Path::new(base).join(child).to_string_lossy().into_owned()
}

/// `dirs::config_dir`: the directory in which the user keeps configuration,
/// as the environment of the process tells it. `None` where the platform
/// names none or the name is not Unicode text. Nothing is claimed of the
/// directory that comes back.
#[verifier::external_body]
fn user_config_dir() -> (r: Option<String>) {
    match dirs::config_dir() {
        Some(dir) => dir.into_os_string().into_string().ok(),
        None => None,
    }
}

/// The directory of the program under the configuration directory of the
/// user.
pub const CONFIG_PATH: &'static str = ".glone";

/// The configuration file in that directory.
pub const CONFIG_FILE: &'static str = "config.yaml";

/// The log in that directory.
pub const LOG_FILE: &'static str = "app.log";

/// What reading the configuration file gave.
#[derive(Clone, Debug, PartialEq, Eq)]
pub enum ConfigSource {
    /// The file could not be read.
    Unreadable,
    /// The file holds `content`, and `parsed` is the configuration that a
    /// parser made of it, if it could.
    Read { content: String, parsed: Option<Config> },
}

/// How loading the configuration went.
#[derive(Clone, Copy, Debug, PartialEq, Eq, Structural)]
pub enum LoadStatus {
    Loaded,
    Unreadable,
    Empty,
    Unparsable,
}

/// Where the program keeps its configuration and its log, and the
/// configuration once it is loaded.
#[derive(Clone, Debug, PartialEq, Eq)]
pub struct GloneOptions {
    pub config_dir_path: String,
    pub config_path: String,
    pub log_path: String,
    pub config: Option<Config>,
}

impl GloneOptions {
    /// The options hold the paths that belong to the configuration
    /// directory of a user whose configuration lives under `base`.
    pub open spec fn rooted(&self, base: Seq<char>) -> bool {
        &&& self.config_dir_path@ == joined_path(base, CONFIG_PATH@)
        &&& self.config_path@ == joined_path(self.config_dir_path@, CONFIG_FILE@)
        &&& self.log_path@ == joined_path(self.config_dir_path@, LOG_FILE@)
    }

    /// The providers to process: those of the loaded configuration, and none
    /// while there is no configuration.
    pub open spec fn providers_view(&self) -> Seq<ProviderView> {
        match self.config {
            Some(c) => c@,
            None => Seq::empty(),
        }
    }

    /// The status that loading from `source` ends with.
    pub open spec fn status_of(source: ConfigSource) -> LoadStatus {
        match source {
            ConfigSource::Unreadable => LoadStatus::Unreadable,
            ConfigSource::Read { content, parsed } => if content@.len() == 0 {
                LoadStatus::Empty
            } else if parsed is None {
                LoadStatus::Unparsable
            } else {
                LoadStatus::Loaded
            },
        }
    }

    /// The options of a user whose configuration lives under `base`, with no
    /// configuration loaded.
    pub fn rooted_at(base: &str) -> (r: GloneOptions)
        ensures
            r.rooted(base@),
            r.config is None,
    {
        let config_dir_path = join_path(base, CONFIG_PATH);
        let config_path = join_path(config_dir_path.as_str(), CONFIG_FILE);
        let log_path = join_path(config_dir_path.as_str(), LOG_FILE);
        GloneOptions { config_dir_path, config_path, log_path, config: None }
    }

    /// The options of the current user, or `None` where the platform names
    /// no configuration directory or names one that is not Unicode text.
    pub fn new() -> (r: Option<GloneOptions>)
        ensures
            r matches Some(o) ==> o.config is None && exists|base: Seq<char>| #[trigger]
                o.rooted(base),
    {
        GloneOptions::for_config_dir(user_config_dir())
    }

    /// The options of a user whose configuration directory is `dir`: those
    /// rooted at the directory where there is one, with no configuration
    /// loaded, and `None` where there is none.
    pub fn for_config_dir(dir: Option<String>) -> (r: Option<GloneOptions>)
        ensures
            dir is None ==> r is None,
            dir matches Some(base) ==> r matches Some(o) && o.rooted(base@) && o.config is None,
    {
        match dir {
            Some(base) => Some(GloneOptions::rooted_at(base.as_str())),
            None => None,
        }
    }

    /// Whether the configuration directory has to be created: it has, unless
    /// it exists.
    pub fn create_config_dir(&self, dir_exists: bool) -> (create: bool)
        ensures
            create == !dir_exists,
    {
        !dir_exists
    }

    /// Whether an empty configuration file has to be created: it has, where
    /// the directory is there and the file is not.
    pub fn create_config_file(&self, dir_exists: bool, file_exists: bool) -> (create: bool)
        ensures
            create == (dir_exists && !file_exists),
    {
        dir_exists && !file_exists
    }

    /// Takes in what reading the configuration file gave. A file that could
    /// be read, is not empty and could be parsed gives the configuration;
    /// anything else leaves the options as they were.
    pub fn load(&mut self, source: ConfigSource) -> (status: LoadStatus)
        ensures
            status == Self::status_of(source),
            final(self).config_dir_path == old(self).config_dir_path,
            final(self).config_path == old(self).config_path,
            final(self).log_path == old(self).log_path,
            final(self).config == if status == LoadStatus::Loaded {
                source->parsed
            } else {
                old(self).config
            },
    {
        match source {
            ConfigSource::Unreadable => LoadStatus::Unreadable,
            ConfigSource::Read { content, parsed } => {
                if content.as_str().is_empty() {
                    return LoadStatus::Empty;
                }
                match parsed {
                    Some(config) => {
                        self.config = Some(config);
                        LoadStatus::Loaded
                    },
                    None => LoadStatus::Unparsable,
                }
            },
        }
    }

    /// The providers to process, in order: none while no configuration is
    /// loaded.
    pub fn providers(&self) -> (r: &[Provider])
        ensures
            r.deep_view() == self.providers_view(),
    {
        match &self.config {
            Some(c) => c.get_providers().as_slice(),
            None => &[],
        }
    }
}

} // verus!
