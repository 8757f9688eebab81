//! What a run is configured with.

use crate::error::Error;
use vstd::prelude::*;

verus! {

/// The configuration of a run: the API key, the domain and the record name
/// to keep up to date, and, optionally, the address to publish in place of
/// the one this host is seen under.
#[derive(Debug, Clone, PartialEq, Eq)]
pub struct Settings {
    pub api_key: String,
    pub domain: String,
    pub record: String,
    pub ip: Option<String>,
}

/// What `Settings` stands for.
pub struct SettingsView {
    pub api_key: Seq<char>,
    pub domain: Seq<char>,
    pub record: Seq<char>,
    pub ip: Option<Seq<char>>,
}

impl View for Settings {
    type V = SettingsView;

    open spec fn view(&self) -> SettingsView {
        SettingsView {
            api_key: self.api_key@,
            domain: self.domain@,
            record: self.record@,
            ip: match self.ip {
                Some(ip) => Some(ip@),
                None => None,
            },
        }
    }
}

/// The settings that stand in for a configuration file that does not
/// exist: every text empty, no address.
pub open spec fn default_settings() -> SettingsView {
    SettingsView { api_key: Seq::empty(), domain: Seq::empty(), record: Seq::empty(), ip: None }
}

impl Default for Settings {
    fn default() -> (settings: Settings)
        ensures
            settings@ == default_settings(),
    {
        Settings { api_key: String::new(), domain: String::new(), record: String::new(), ip: None }
    }
}

/// What was found at the path of the configuration file.
#[derive(Debug, Clone, PartialEq, Eq)]
pub enum ConfigFile {
    /// Nothing exists at the path.
    Missing,
    /// A file exists and its content is not a configuration.
    Malformed,
    /// A file exists and holds these settings.
    Parsed(Settings),
}

/// What loading yields as the contracts see it.
pub open spec fn load_result_view(result: Result<Settings, Error>) -> Result<SettingsView, Error> {
    match result {
        Ok(settings) => Ok(settings@),
        Err(e) => Err(e),
    }
}

/// The settings that a configuration file stands for. A file need not
/// exist: a missing one gives the default settings, not an error.
pub open spec fn loaded_settings(file: ConfigFile) -> Result<SettingsView, Error> {
    match file {
        ConfigFile::Missing => Ok(default_settings()),
        ConfigFile::Malformed => Err(Error::ConfigParse),
        ConfigFile::Parsed(settings) => Ok(settings@),
    }
}

impl Settings {
    /// The settings to run with, from what was found at the path of the
    /// configuration file.
    pub fn load(file: ConfigFile) -> (result: Result<Settings, Error>)
        ensures
            load_result_view(result) == loaded_settings(file),
    {
        match file {
            ConfigFile::Missing => Ok(Settings::default()),
            ConfigFile::Malformed => Err(Error::ConfigParse),
            ConfigFile::Parsed(settings) => Ok(settings),
        }
    }
}

} // verus!
