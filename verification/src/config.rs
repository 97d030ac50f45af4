//! The configuration document and the rules by which it is loaded.

use vstd::prelude::*;

verus! {

/// The settings a user can edit.
#[derive(Debug, Clone, PartialEq, Eq)]
pub struct Config {
    /// Playback volume in percent, from 0 to 100, applied to both sounds.
    pub volume: u32,
    /// Whether a desktop notification is shown for each transition.
    pub notification: bool,
    /// Path of the sound played when a device is attached.
    pub connect_sound: String,
    /// Template of the notification body.
    pub notify_message: String,
    /// Path of the sound played when a device is detached.
    pub disconnect_sound: String,
}

/// Mathematical content of a [`Config`].
pub struct ConfigView {
    pub volume: nat,
    pub notification: bool,
    pub connect_sound: Seq<char>,
    pub notify_message: Seq<char>,
    pub disconnect_sound: Seq<char>,
}

impl ConfigView {
    /// Whether the volume is a percentage.
    pub open spec fn volume_in_range(self) -> bool {
        self.volume <= 100
    }
}

impl View for Config {
    type V = ConfigView;

    open spec fn view(&self) -> ConfigView {
        ConfigView {
            volume: self.volume as nat,
            notification: self.notification,
            connect_sound: self.connect_sound@,
            notify_message: self.notify_message@,
            disconnect_sound: self.disconnect_sound@,
        }
    }
}

/// What was found where the configuration document is kept.
#[derive(Debug, Clone, PartialEq, Eq)]
pub enum Stored {
    /// No file could be read.
    Missing,
    /// A file was read, but its content is not a configuration document.
    Malformed,
    /// A file was read and its content is this document.
    Document(Config),
}

/// The outcome of loading the configuration.
///
/// The caller shows `notice` if there is one, creates the directories above
/// the document if `create_directories` is set, and then writes `config`
/// back in every case, so that the document on disk is the one in use.
#[derive(Debug, Clone, PartialEq, Eq)]
pub struct Loaded {
    /// The settings in effect.
    pub config: Config,
    /// Whether the directories above the document have to be created.
    pub create_directories: bool,
    /// What to tell the user, if the stored document was not used.
    pub notice: Option<String>,
}

impl Config {
    /// The settings used when no usable document exists.
    pub open spec fn default_view() -> ConfigView {
        ConfigView {
            volume: 100,
            notification: true,
            connect_sound: "connect.wav"@,
            notify_message: "Device: ${devnode}"@,
            disconnect_sound: "disconnect.wav"@,
        }
    }
}

impl Config {
    /// Decides which settings are in effect. A stored document is used as it
    /// is. A missing or malformed one is replaced by the default settings as
    /// a whole, with a notice; only a missing one asks for the directories
    /// to be created.
    pub fn load(stored: Stored) -> (loaded: Loaded)
        ensures
            match stored {
                Stored::Missing => {
                    &&& loaded.config@ == Config::default_view()
                    &&& loaded.create_directories
                    &&& loaded.notice matches Some(text)
                    &&& text@ == "Config file not found, using default config"@
                },
                Stored::Malformed => {
                    &&& loaded.config@ == Config::default_view()
                    &&& !loaded.create_directories
                    &&& loaded.notice matches Some(text)
                    &&& text@ == "Invalid config file, using default config"@
                },
                Stored::Document(config) => {
                    &&& loaded.config == config
                    &&& !loaded.create_directories
                    &&& loaded.notice is None
                },
            },
    {
        match stored {
            Stored::Missing => Loaded {
                config: Config::default(),
                create_directories: true,
                notice: Some(String::from_str("Config file not found, using default config")),
            },
            Stored::Malformed => Loaded {
                config: Config::default(),
                create_directories: false,
                notice: Some(String::from_str("Invalid config file, using default config")),
            },
            Stored::Document(config) => Loaded {
                config,
                create_directories: false,
                notice: None,
            },
        }
    }
}

impl Default for Config {
    fn default() -> (config: Self)
        ensures
            config@ == Config::default_view(),
            config@.volume_in_range(),
    {
        Config {
            volume: 100,
            notification: true,
            connect_sound: String::from_str("connect.wav"),
            notify_message: String::from_str("Device: ${devnode}"),
            disconnect_sound: String::from_str("disconnect.wav"),
        }
    }
}

} // verus!
