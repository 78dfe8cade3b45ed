//! The relay's configuration: the schedules and the two stagger flags. The
//! caller stores it; these functions decide what a load or a save amounts to.
use vstd::prelude::*;

use crate::schedule::{duplicate_schedules, schedules_view};
use crate::types::{Schedule, ScheduleView};

verus! {

/// Where the configuration is kept, relative to the working directory.
pub const CONFIG_FILE_PATH: &'static str = ".config.toml";

#[derive(Debug)]
pub enum ServerError {
    InvalidConfig,
    InvalidTOML,
    FailedToCreateFile(String),
    FailedToWriteToFile(String),
}

pub ghost enum ServerErrorView {
    InvalidConfig,
    InvalidTOML,
    FailedToCreateFile(Seq<char>),
    FailedToWriteToFile(Seq<char>),
}

impl View for ServerError {
    type V = ServerErrorView;

    open spec fn view(&self) -> ServerErrorView {
        match self {
            ServerError::InvalidConfig => ServerErrorView::InvalidConfig,
            ServerError::InvalidTOML => ServerErrorView::InvalidTOML,
            ServerError::FailedToCreateFile(p) => ServerErrorView::FailedToCreateFile(p@),
            ServerError::FailedToWriteToFile(p) => ServerErrorView::FailedToWriteToFile(p@),
        }
    }
}

pub open spec fn error_text(e: ServerErrorView) -> Seq<char> {
    match e {
        ServerErrorView::InvalidConfig => "Invalid configuration file"@,
        ServerErrorView::InvalidTOML => "Invalid TOML"@,
        ServerErrorView::FailedToCreateFile(p) => "Failed to create file: "@ + p,
        ServerErrorView::FailedToWriteToFile(p) => "Failed to write to file: "@ + p,
    }
}

impl ServerError {
    /// The error's text as a user sees it.
    pub fn message(&self) -> (r: String)
        ensures
            r@ == error_text(self@),
    {
        match self {
            ServerError::InvalidConfig => String::from_str("Invalid configuration file"),
            ServerError::InvalidTOML => String::from_str("Invalid TOML"),
            ServerError::FailedToCreateFile(path) => {
                let mut text = String::from_str("Failed to create file: ");
                text.append(path.as_str());
                text
            },
            ServerError::FailedToWriteToFile(path) => {
                let mut text = String::from_str("Failed to write to file: ");
                text.append(path.as_str());
                text
            },
        }
    }
}

#[derive(Debug)]
pub struct Config {
    pub schedules: Vec<Schedule>,
    pub stagger_on: bool,
    pub stagger_zones: bool,
}

pub ghost struct ConfigView {
    pub schedules: Seq<ScheduleView>,
    pub stagger_on: bool,
    pub stagger_zones: bool,
}

impl View for Config {
    type V = ConfigView;

    open spec fn view(&self) -> ConfigView {
        ConfigView {
            schedules: schedules_view(self.schedules@),
            stagger_on: self.stagger_on,
            stagger_zones: self.stagger_zones,
        }
    }
}

impl Default for Config {
    /// No schedules, staggering off.
    fn default() -> (r: Config)
        ensures
            r@.schedules == Seq::<ScheduleView>::empty(),
            !r@.stagger_on,
            !r@.stagger_zones,
    {
        let r = Config { schedules: Vec::new(), stagger_on: false, stagger_zones: false };
        assert(r@.schedules =~= Seq::<ScheduleView>::empty());
        r
    }
}

/// What reading the stored configuration produced.
pub enum StoredConfig {
    /// No configuration was ever stored.
    Missing,
    /// The store exists but could not be read.
    Unreadable,
    /// The stored text is not a valid configuration.
    Malformed,
    /// The stored configuration.
    Parsed(Config),
}

/// What storing the configuration ran into.
#[derive(Debug, Clone, Copy, PartialEq, Eq, Structural)]
pub enum SaveOutcome {
    Saved,
    /// The configuration could not be turned into TOML.
    NotSerialized,
    /// The file could not be created.
    NotCreated,
    /// The file could not be written.
    NotWritten,
}

impl Config {
    /// The configuration to start with: the stored one; the default one when
    /// none was ever stored; `InvalidConfig` when the store cannot be read
    /// or does not hold a valid configuration.
    pub fn load(stored: StoredConfig) -> (r: Result<Config, ServerError>)
        ensures
            match stored {
                StoredConfig::Missing => r is Ok && r->Ok_0@.schedules.len() == 0 && !r->Ok_0@.stagger_on
                    && !r->Ok_0@.stagger_zones,
                StoredConfig::Unreadable => r is Err && r->Err_0@ == ServerErrorView::InvalidConfig,
                StoredConfig::Malformed => r is Err && r->Err_0@ == ServerErrorView::InvalidConfig,
                StoredConfig::Parsed(c) => r is Ok && r->Ok_0@ == c@,
            },
    {
        match stored {
            StoredConfig::Missing => Ok(Config::default()),
            StoredConfig::Unreadable => Err(ServerError::InvalidConfig),
            StoredConfig::Malformed => Err(ServerError::InvalidConfig),
            StoredConfig::Parsed(c) => Ok(c),
        }
    }

    /// The result of storing the configuration at `CONFIG_FILE_PATH`, given
    /// what the store ran into.
    pub fn save(&self, outcome: SaveOutcome) -> (r: Result<(), ServerError>)
        ensures
            match outcome {
                SaveOutcome::Saved => r is Ok,
                SaveOutcome::NotSerialized => r is Err && r->Err_0@ == ServerErrorView::InvalidTOML,
                SaveOutcome::NotCreated => r is Err && r->Err_0@ == ServerErrorView::FailedToCreateFile(
                    CONFIG_FILE_PATH@,
                ),
                SaveOutcome::NotWritten => r is Err && r->Err_0@ == ServerErrorView::FailedToWriteToFile(
                    CONFIG_FILE_PATH@,
                ),
            },
    {
        match outcome {
            SaveOutcome::Saved => Ok(()),
            SaveOutcome::NotSerialized => Err(ServerError::InvalidTOML),
            SaveOutcome::NotCreated => Err(ServerError::FailedToCreateFile(String::from_str(CONFIG_FILE_PATH))),
            SaveOutcome::NotWritten => Err(ServerError::FailedToWriteToFile(String::from_str(CONFIG_FILE_PATH))),
        }
    }

    /// Replaces every schedule at once.
    pub fn set_schedules(&mut self, schedules: Vec<Schedule>)
        ensures
            final(self)@ == (ConfigView { schedules: schedules_view(schedules@), ..old(self)@ }),
    {
        self.schedules = schedules;
    }

    pub fn set_stagger_on(&mut self, stagger_on: bool)
        ensures
            final(self)@ == (ConfigView { stagger_on, ..old(self)@ }),
    {
        self.stagger_on = stagger_on;
    }

    pub fn set_stagger_zones(&mut self, stagger_zones: bool)
        ensures
            final(self)@ == (ConfigView { stagger_zones, ..old(self)@ }),
    {
        self.stagger_zones = stagger_zones;
    }

    /// A copy of the configuration.
    pub fn duplicate(&self) -> (r: Config)
        ensures
            r@ == self@,
    {
        Config {
            schedules: duplicate_schedules(&self.schedules),
            stagger_on: self.stagger_on,
            stagger_zones: self.stagger_zones,
        }
    }
}

} // verus!
