//! Configuration: the providers and the playback settings, and where the
//! configuration lives.
use vstd::prelude::*;
use crate::cache::{join_path, path_join};
use crate::text::concat3;

verus! {

/// How the TUI starts playback.
#[derive(Debug, Clone, Copy, PartialEq, Eq, Structural)]
pub enum PlayMode {
    Mpv,
    MpvInTerminal,
}

impl PlayMode {
    /// The name shown in the configuration screen.
    pub fn label(&self) -> (r: &'static str)
        ensures
            r@ == match *self {
                PlayMode::Mpv => "MPV"@,
                PlayMode::MpvInTerminal => "MPV in Terminal"@,
            },
    {
        match self {
            PlayMode::Mpv => "MPV",
            PlayMode::MpvInTerminal => "MPV in Terminal",
        }
    }

    /// The other mode (the configuration screen toggles between the two).
    pub fn toggled(&self) -> (r: PlayMode)
        ensures
            r != *self,
    {
        match self {
            PlayMode::Mpv => PlayMode::MpvInTerminal,
            PlayMode::MpvInTerminal => PlayMode::Mpv,
        }
    }
}

/// Playback settings.
#[derive(Debug, Clone, Copy)]
pub struct Settings {
    pub play_mode: PlayMode,
    pub use_ts_for_live: bool,
}

impl Default for Settings {
    fn default() -> (r: Settings)
        ensures
            r.play_mode == PlayMode::Mpv,
            !r.use_ts_for_live,
    {
        Settings { play_mode: PlayMode::Mpv, use_ts_for_live: false }
    }
}

/// One provider's connection details.
#[derive(Debug)]
pub struct ProviderConfig {
    pub id: Option<String>,
    pub name: Option<String>,
    pub url: String,
    pub username: String,
    pub password: String,
}

impl Clone for ProviderConfig {
    fn clone(&self) -> (r: Self)
        ensures
            r == *self,
    {
        ProviderConfig {
            id: self.id.clone(),
            name: self.name.clone(),
            url: self.url.clone(),
            username: self.username.clone(),
            password: self.password.clone(),
        }
    }
}

impl ProviderConfig {
    /// The name commands show: the configured name, else `username@url`.
    pub open spec fn display_name_of(self) -> Seq<char> {
        match self.name {
            Some(n) => n@,
            None => self.username@ + "@"@ + self.url@,
        }
    }

    /// The name the menus show: the configured name, else the URL.
    pub open spec fn label_of(self) -> Seq<char> {
        match self.name {
            Some(n) => n@,
            None => self.url@,
        }
    }

    /// The configured name, else `username@url`.
    pub fn display_name(&self) -> (r: String)
        ensures
            r@ == self.display_name_of(),
    {
        match &self.name {
            Some(n) => n.clone(),
            None => concat3(self.username.as_str(), "@", self.url.as_str()),
        }
    }

    /// The configured name, else the URL.
    pub fn label(&self) -> (r: String)
        ensures
            r@ == self.label_of(),
    {
        match &self.name {
            Some(n) => n.clone(),
            None => self.url.clone(),
        }
    }
}

/// The whole configuration.
#[derive(Debug)]
pub struct Config {
    pub providers: Vec<ProviderConfig>,
    pub settings: Settings,
}

/// The URL of the example provider written by default.
pub open spec fn example_url() -> Seq<char> {
    "https://your-server.com:port/player_api.php"@
}

/// The user name of the example provider written by default.
pub open spec fn example_username() -> Seq<char> {
    "your-username"@
}

impl Default for Config {
    /// One example provider and the default settings.
    fn default() -> (r: Config)
        ensures
            r.providers@.len() == 1,
            r.providers@[0].id is None,
            r.providers@[0].name matches Some(n) && n@ == "Example Provider"@,
            r.providers@[0].url@ == example_url(),
            r.providers@[0].username@ == example_username(),
            r.providers@[0].password@ == "your-password"@,
            r.settings.play_mode == PlayMode::Mpv,
            !r.settings.use_ts_for_live,
    {
        let mut providers = Vec::new();
        providers.push(ProviderConfig {
            id: None,
            name: Some(String::from_str("Example Provider")),
            url: String::from_str("https://your-server.com:port/player_api.php"),
            username: String::from_str("your-username"),
            password: String::from_str("your-password"),
        });
        Config { providers, settings: Settings::default() }
    }
}

impl Config {
    /// `<home>/.config/iptv`.
    pub open spec fn config_dir_of(home: Seq<char>) -> Seq<char> {
        path_join(path_join(home, ".config"@), "iptv"@)
    }

    /// The default configuration directory, `~/.config/iptv`, given the home
    /// directory (`None` when it is unknown).
    pub fn default_config_dir(home: Option<&str>) -> (r: Option<String>)
        ensures
            match home {
                Some(h) => r matches Some(d) && d@ == Self::config_dir_of(h@),
                None => r is None,
            },
    {
        match home {
            Some(h) => {
                let c = join_path(h, ".config");
                Some(join_path(c.as_str(), "iptv"))
            },
            None => None,
        }
    }

    /// The default configuration file, `~/.config/iptv/config.toml`.
    pub fn default_config_path(home: Option<&str>) -> (r: Option<String>)
        ensures
            match home {
                Some(h) => r matches Some(p) && p@ == path_join(Self::config_dir_of(h@), "config.toml"@),
                None => r is None,
            },
    {
        match Self::default_config_dir(home) {
            Some(d) => Some(join_path(d.as_str(), "config.toml")),
            None => None,
        }
    }
}

} // verus!
