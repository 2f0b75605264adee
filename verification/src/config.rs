//! The settings of the agent and where each of them is taken from.
use vstd::prelude::*;
use crate::locator::{hub_address_of, opt_pair, read_url, url_normal_form};
use crate::text::opt_text;

verus! {

/// The settings that the agent runs with.
#[derive(Debug, PartialEq)]
pub struct Config {
    /// The URL of the hub, in its normal form.
    pub hass_url: String,
    /// The access token for the hub.
    pub hass_token: String,
    /// Where the record is persisted.
    pub state_file: String,
}

/// The settings as plain text.
pub struct ConfigView {
    pub hass_url: Seq<char>,
    pub hass_token: Seq<char>,
    pub state_file: Seq<char>,
}

impl View for Config {
    type V = ConfigView;

    open spec fn view(&self) -> ConfigView {
        ConfigView {
            hass_url: self.hass_url@,
            hass_token: self.hass_token@,
            state_file: self.state_file@,
        }
    }
}

/// Why the settings are not complete.
#[derive(Debug, Clone, Copy, PartialEq, Eq, Structural)]
pub enum ConfigError {
    /// No source names the URL of the hub.
    MissingUrl,
    /// What is given as the URL of the hub is no URL.
    InvalidUrl,
    /// No source names the access token.
    MissingToken,
}

/// The three places that a setting may come from.
#[derive(Debug, PartialEq)]
pub struct Setting {
    /// The value given on the command line.
    pub flag: Option<String>,
    /// The value of the environment variable.
    pub environment: Option<String>,
    /// The value in the `.env` file.
    pub dotenv: Option<String>,
}

/// The sources of a setting as plain text.
pub struct SettingView {
    pub flag: Option<Seq<char>>,
    pub environment: Option<Seq<char>>,
    pub dotenv: Option<Seq<char>>,
}

impl View for Setting {
    type V = SettingView;

    open spec fn view(&self) -> SettingView {
        SettingView {
            flag: opt_text(self.flag),
            environment: opt_text(self.environment),
            dotenv: opt_text(self.dotenv),
        }
    }
}

/// The value of a setting: the command line wins over the environment, the
/// environment over the `.env` file.
pub open spec fn resolved(setting: SettingView) -> Option<Seq<char>> {
    match setting.flag {
        Some(value) => Some(value),
        None => match setting.environment {
            Some(value) => Some(value),
            None => setting.dotenv,
        },
    }
}

/// The state file where no source names one.
pub open spec fn default_state_file() -> Seq<char> {
    "haars.json"@
}

/// The state file that the sources give: the one they name, or the default.
pub open spec fn state_file_or_default(path: Option<Seq<char>>) -> Seq<char> {
    match path {
        Some(p) => p,
        None => default_state_file(),
    }
}

/// The settings that the sources give, or what is wrong with them. The URL
/// is looked at first, the token second.
pub open spec fn loaded_config(
    url: SettingView,
    token: SettingView,
    state_file: SettingView,
) -> Result<ConfigView, ConfigError> {
    match resolved(url) {
        None => Err(ConfigError::MissingUrl),
        Some(url_text) => match url_normal_form(url_text) {
            None => Err(ConfigError::InvalidUrl),
            Some(hass_url) => match resolved(token) {
                None => Err(ConfigError::MissingToken),
                Some(hass_token) => Ok(
                    ConfigView {
                        hass_url,
                        hass_token,
                        state_file: state_file_or_default(resolved(state_file)),
                    },
                ),
            },
        },
    }
}

/// Whether the sources give what the agent cannot run without: a URL of the
/// hub that is a URL, and an access token.
pub open spec fn sources_suffice(url: SettingView, token: SettingView) -> bool {
    &&& resolved(url) matches Some(text) && url_normal_form(text) is Some
    &&& resolved(token) is Some
}

/// The view of settings or of what is wrong with them.
pub open spec fn config_result(r: Result<Config, ConfigError>) -> Result<ConfigView, ConfigError> {
    match r {
        Ok(config) => Ok(config@),
        Err(e) => Err(e),
    }
}

impl Setting {
    /// The value of the setting, taken from the first source that has one.
    pub fn resolve(self) -> (value: Option<String>)
        ensures
            opt_text(value) == resolved(self@),
    {
        match self.flag {
            Some(value) => Some(value),
            None => match self.environment {
                Some(value) => Some(value),
                None => self.dotenv,
            },
        }
    }

    /// The value of the setting, left where it is.
    pub fn value(&self) -> (value: Option<&str>)
        ensures
            match value {
                Some(text) => resolved(self@) == Some(text@),
                None => resolved(self@) is None,
            },
    {
        match &self.flag {
            Some(value) => Some(value.as_str()),
            None => match &self.environment {
                Some(value) => Some(value.as_str()),
                None => match &self.dotenv {
                    Some(value) => Some(value.as_str()),
                    None => None,
                },
            },
        }
    }
}

impl Config {
    /// The settings with the given URL and token; the state file is the
    /// default where none is named.
    pub fn complete(
        hass_url: String,
        hass_token: String,
        state_file: Option<String>,
    ) -> (config: Config)
        ensures
            config@ == (ConfigView {
                hass_url: hass_url@,
                hass_token: hass_token@,
                state_file: state_file_or_default(opt_text(state_file)),
            }),
    {
        let state_file = match state_file {
            Some(path) => path,
            None => String::from_str("haars.json"),
        };
        Config { hass_url, hass_token, state_file }
    }

    /// The settings that the sources give. The sources must name the URL of
    /// the hub, which must be a URL, and the access token: without them
    /// there are no settings and the agent cannot run.
    pub fn from_sources(url: Setting, token: Setting, state_file: Setting) -> (config: Config)
        requires
            sources_suffice(url@, token@),
        ensures
            loaded_config(url@, token@, state_file@) == Ok::<ConfigView, ConfigError>(config@),
    {
        let url_text = url.resolve().unwrap();
        let hass_url = read_url(url_text.as_str()).unwrap().text;
        let hass_token = token.resolve().unwrap();
        Config::complete(hass_url, hass_token, state_file.resolve())
    }

    /// Protocol and address that the session reaches the hub by: the
    /// scheme of the hub's URL, and its host with the port where the URL
    /// names one. `None` where the URL names no host.
    pub fn hub_address(&self) -> (address: Option<(String, String)>)
        ensures
            opt_pair(address) == hub_address_of(self@.hass_url),
    {
        match read_url(self.hass_url.as_str()) {
            Some(parts) => parts.hub_address(),
            None => None,
        }
    }
}

/// Puts the settings together from their sources, or says what is wrong
/// with the sources. The URL of the hub and the access token must be given;
/// the state file has a default.
pub fn load_config(
    url: Setting,
    token: Setting,
    state_file: Setting,
) -> (config: Result<Config, ConfigError>)
    ensures
        config_result(config) == loaded_config(url@, token@, state_file@),
        config is Ok <==> sources_suffice(url@, token@),
{
    match url.value() {
        Some(text) => {
            if read_url(text).is_none() {
                return Err(ConfigError::InvalidUrl);
            }
        },
        None => { return Err(ConfigError::MissingUrl); },
    }
    if token.value().is_none() {
        return Err(ConfigError::MissingToken);
    }
    Ok(Config::from_sources(url, token, state_file))
}

} // verus!
