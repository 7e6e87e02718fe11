//! The configuration of the service, put together from the command line and
//! the environment.

use crate::text::same_text;
use vstd::prelude::*;

verus! {

/// The model the classifier uses unless another is named.
pub const DEFAULT_MODEL: &'static str = "google/gemini-2.5-flash-preview-05-20";

/// The variable with the key of the messaging platform.
pub const TELEGRAM_BOT_API_KEY_ENV: &'static str = "TELEGRAM_BOT_API_KEY";

/// The variable with the key of the classifier.
pub const OPENROUTER_API_KEY_ENV: &'static str = "OPENROUTER_API_KEY";

/// The variable with the secret that every webhook request must give.
pub const TELEGRAM_WEBHOOK_SECRET_ENV: &'static str = "TELEGRAM_WEBHOOK_SECRET";

/// What the command line gave.
#[derive(Debug, PartialEq, Eq)]
pub struct Cli {
    pub env_file: Option<String>,
    pub db_file: Option<String>,
    pub ai_model: String,
    pub webhook_url: Option<String>,
    pub webhook_listen_addr: Option<String>,
}

/// Why no configuration could be made.
#[derive(Debug, Clone, Copy, PartialEq, Eq, Structural)]
pub enum ConfigError {
    /// No default place for the database is known.
    NoDataDir,
    /// The key of the messaging platform is not set.
    TelegramKeyNotSet,
    /// The key of the classifier is not set.
    OpenrouterKeyNotSet,
}

/// The configuration of the service.
#[derive(Debug, PartialEq, Eq)]
pub struct Config {
    tg_bot_api_key: String,
    openrouter_api_key: String,
    db_file: String,
    default_model: String,
    webhook_url: Option<String>,
    webhook_listen_addr: Option<String>,
    webhook_secret_token: Option<String>,
}

/// The mathematical content of a [`Config`].
pub struct ConfigView {
    pub tg_bot_api_key: Seq<char>,
    pub openrouter_api_key: Seq<char>,
    pub db_file: Seq<char>,
    pub default_model: Seq<char>,
    pub webhook_url: Option<Seq<char>>,
    pub webhook_listen_addr: Option<Seq<char>>,
    pub webhook_secret_token: Option<Seq<char>>,
}

/// The text of an optional string.
pub open spec fn optional_view(text: Option<String>) -> Option<Seq<char>> {
    match text {
        Some(t) => Some(t@),
        None => None,
    }
}

impl View for Config {
    type V = ConfigView;

    closed spec fn view(&self) -> ConfigView {
        ConfigView {
            tg_bot_api_key: self.tg_bot_api_key@,
            openrouter_api_key: self.openrouter_api_key@,
            db_file: self.db_file@,
            default_model: self.default_model@,
            webhook_url: optional_view(self.webhook_url),
            webhook_listen_addr: optional_view(self.webhook_listen_addr),
            webhook_secret_token: optional_view(self.webhook_secret_token),
        }
    }
}

impl ConfigView {
    /// The configuration with nothing set but the model.
    pub open spec fn initial() -> ConfigView {
        ConfigView {
            tg_bot_api_key: Seq::empty(),
            openrouter_api_key: Seq::empty(),
            db_file: Seq::empty(),
            default_model: DEFAULT_MODEL@,
            webhook_url: None,
            webhook_listen_addr: None,
            webhook_secret_token: None,
        }
    }

    /// The configuration after the variable `name` was seen with `value`:
    /// the three variables of the service set their field, any other
    /// changes nothing.
    pub open spec fn with_variable(self, name: Seq<char>, value: Seq<char>) -> ConfigView {
        if name == TELEGRAM_BOT_API_KEY_ENV@ {
            ConfigView { tg_bot_api_key: value, ..self }
        } else if name == OPENROUTER_API_KEY_ENV@ {
            ConfigView { openrouter_api_key: value, ..self }
        } else if name == TELEGRAM_WEBHOOK_SECRET_ENV@ {
            ConfigView { webhook_secret_token: Some(value), ..self }
        } else {
            self
        }
    }

    /// The configuration after the variables were seen in order: a later
    /// one overrides an earlier one of the same name.
    pub open spec fn with_variables(self, variables: Seq<(Seq<char>, Seq<char>)>) -> ConfigView
        decreases variables.len(),
    {
        if variables.len() == 0 {
            self
        } else {
            self.with_variables(variables.drop_last()).with_variable(
                variables.last().0,
                variables.last().1,
            )
        }
    }

    /// What is wrong with the configuration, if anything: both keys must be
    /// set, and the key of the messaging platform is looked at first.
    pub open spec fn fault(self) -> Option<ConfigError> {
        if self.tg_bot_api_key.len() == 0 {
            Some(ConfigError::TelegramKeyNotSet)
        } else if self.openrouter_api_key.len() == 0 {
            Some(ConfigError::OpenrouterKeyNotSet)
        } else {
            None
        }
    }
}

/// The configuration from its sources, before the keys are looked at: the
/// database is where the command line says or else at the default place;
/// the variables of the process come first and those of the environment
/// file, where one was read, override them.
pub open spec fn assembled(
    cli: Cli,
    default_db_file: Seq<char>,
    process_env: Seq<(Seq<char>, Seq<char>)>,
    file_env: Option<Seq<(Seq<char>, Seq<char>)>>,
) -> ConfigView {
    let base = ConfigView {
        db_file: match cli.db_file {
            Some(path) => path@,
            None => default_db_file,
        },
        webhook_url: optional_view(cli.webhook_url),
        webhook_listen_addr: optional_view(cli.webhook_listen_addr),
        ..ConfigView::initial()
    };
    let seen = base.with_variables(process_env);
    match file_env {
        Some(variables) => seen.with_variables(variables),
        None => seen,
    }
}

/// The names and values of a list of variables, as sequences of characters.
pub open spec fn pairs_view(variables: Seq<(String, String)>) -> Seq<(Seq<char>, Seq<char>)> {
    Seq::new(variables.len(), |i: int| (variables[i].0@, variables[i].1@))
}

/// The variables of an optional list.
pub open spec fn optional_pairs_view(variables: Option<Vec<(String, String)>>) -> Option<
    Seq<(Seq<char>, Seq<char>)>,
> {
    match variables {
        Some(list) => Some(pairs_view(list@)),
        None => None,
    }
}

fn clone_optional(text: &Option<String>) -> (copy: Option<String>)
    ensures
        copy == *text,
{
    match text {
        Some(t) => Some(t.clone()),
        None => None,
    }
}

impl Default for Config {
    fn default() -> (config: Self)
        ensures
            config@ == ConfigView::initial(),
    {
        Config {
            tg_bot_api_key: String::new(),
            openrouter_api_key: String::new(),
            db_file: String::new(),
            default_model: DEFAULT_MODEL.to_owned(),
            webhook_url: None,
            webhook_listen_addr: None,
            webhook_secret_token: None,
        }
    }
}

impl Config {
    fn is_tg_key_not_set(&self) -> (b: bool)
        ensures
            b == (self@.tg_bot_api_key.len() == 0),
    {
        self.tg_bot_api_key.as_str().unicode_len() == 0
    }

    fn is_openrouter_not_set(&self) -> (b: bool)
        ensures
            b == (self@.openrouter_api_key.len() == 0),
    {
        self.openrouter_api_key.as_str().unicode_len() == 0
    }

    pub fn is_webhook_active(&self) -> (b: bool)
        ensures
            b == self@.webhook_url is Some,
    {
        self.webhook_url.is_some()
    }

    pub fn tg_bot_api_key(&self) -> (key: &str)
        ensures
            key@ == self@.tg_bot_api_key,
    {
        self.tg_bot_api_key.as_str()
    }

    pub fn openrouter_api_key(&self) -> (key: &str)
        ensures
            key@ == self@.openrouter_api_key,
    {
        self.openrouter_api_key.as_str()
    }

    pub fn db_file(&self) -> (path: &str)
        ensures
            path@ == self@.db_file,
    {
        self.db_file.as_str()
    }

    pub fn default_model(&self) -> (model: &str)
        ensures
            model@ == self@.default_model,
    {
        self.default_model.as_str()
    }

    pub fn webhook_url(&self) -> (url: Option<&str>)
        ensures
            crate::webhook::slice_view(url) == self@.webhook_url,
    {
        match &self.webhook_url {
            Some(url) => Some(url.as_str()),
            None => None,
        }
    }

    pub fn webhook_listen_addr(&self) -> (addr: Option<&str>)
        ensures
            crate::webhook::slice_view(addr) == self@.webhook_listen_addr,
    {
        match &self.webhook_listen_addr {
            Some(addr) => Some(addr.as_str()),
            None => None,
        }
    }

    pub fn webhook_secret_token(&self) -> (token: Option<&str>)
        ensures
            crate::webhook::slice_view(token) == self@.webhook_secret_token,
    {
        match &self.webhook_secret_token {
            Some(token) => Some(token.as_str()),
            None => None,
        }
    }

    /// Takes one variable of the environment into the configuration.
    pub fn apply_variable(&mut self, name: &str, value: &str)
        ensures
            final(self)@ == old(self)@.with_variable(name@, value@),
    {
        if same_text(name, TELEGRAM_BOT_API_KEY_ENV) {
            self.tg_bot_api_key = value.to_owned();
        } else if same_text(name, OPENROUTER_API_KEY_ENV) {
            self.openrouter_api_key = value.to_owned();
        } else if same_text(name, TELEGRAM_WEBHOOK_SECRET_ENV) {
            self.webhook_secret_token = Some(value.to_owned());
        }
    }

    /// Takes the variables of one environment into the configuration, in
    /// order.
    pub fn apply_variables(&mut self, variables: &Vec<(String, String)>)
        ensures
            final(self)@ == old(self)@.with_variables(pairs_view(variables@)),
    {
        let ghost all = pairs_view(variables@);
        let mut i: usize = 0;
        assert(all.take(0) =~= Seq::empty());
        while i < variables.len()
            invariant
                i <= variables@.len(),
                all == pairs_view(variables@),
                self@ == old(self)@.with_variables(all.take(i as int)),
            decreases variables@.len() - i,
        {
            assert(all.take(i + 1).drop_last() =~= all.take(i as int));
            assert(all.take(i + 1).last() == (variables@[i as int].0@, variables@[i as int].1@));
            self.apply_variable(variables[i].0.as_str(), variables[i].1.as_str());
            i += 1;
        }
        assert(all.take(variables@.len() as int) =~= all);
    }

    /// Puts the configuration together from what the command line, the
    /// process and the environment file gave. `default_db_file` is the place
    /// of the database under the user's data directory, where there is one.
    pub fn from_env(
        cli: &Cli,
        default_db_file: Option<String>,
        process_env: &Vec<(String, String)>,
        file_env: &Option<Vec<(String, String)>>,
    ) -> (r: Result<Config, ConfigError>)
        ensures
            match r {
                Ok(config) => default_db_file is Some && config@ == assembled(
                    *cli,
                    default_db_file->0@,
                    pairs_view(process_env@),
                    optional_pairs_view(*file_env),
                ) && config@.fault() is None,
                Err(e) => if default_db_file is None {
                    e == ConfigError::NoDataDir
                } else {
                    assembled(
                        *cli,
                        default_db_file->0@,
                        pairs_view(process_env@),
                        optional_pairs_view(*file_env),
                    ).fault() == Some(e)
                },
            },
    {
        let mut config = Config::default();
        let default_db_file = match default_db_file {
            Some(path) => path,
            None => {
                return Err(ConfigError::NoDataDir);
            },
        };
        config.db_file = match &cli.db_file {
            Some(path) => path.clone(),
            None => default_db_file,
        };
        config.webhook_url = clone_optional(&cli.webhook_url);
        config.webhook_listen_addr = clone_optional(&cli.webhook_listen_addr);
        config.apply_variables(process_env);
        match file_env {
            Some(variables) => {
                config.apply_variables(variables);
            },
            None => {},
        }
        if config.is_tg_key_not_set() {
            Err(ConfigError::TelegramKeyNotSet)
        } else if config.is_openrouter_not_set() {
            Err(ConfigError::OpenrouterKeyNotSet)
        } else {
            Ok(config)
        }
    }
}

} // verus!
