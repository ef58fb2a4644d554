//! The console's configuration: where Redis, Yunzai and NapCat live, and how
//! the window behaves. Reading and writing the JSON file is the host's part;
//! this module holds the values, their defaults and how they change.
use vstd::prelude::*;

verus! {

/// Paths of the external programs and their log directories.
#[derive(Debug, Clone)]
pub struct AppPaths {
    /// The Redis server executable.
    pub redis_exe: String,
    /// The Redis configuration file.
    pub redis_conf: String,
    /// The Yunzai backend directory (holds `app.js`).
    pub yunzai_dir: String,
    /// The `node.exe` that runs Yunzai.
    pub yunzai_node: String,
    /// The NapCat directory (holds `launcher.bat`).
    pub napcat_dir: String,
    /// NapCat's log directory.
    pub napcat_log_dir: String,
    /// Yunzai's log directory.
    pub yunzai_log_dir: String,
}

/// The placeholder paths a first start begins with.
pub open spec fn default_paths_spec(p: AppPaths) -> bool {
    &&& p.redis_exe@ == "C:\\TRSSYUNZAI\\redis-windows-7.0.4\\redis-server.exe"@
    &&& p.redis_conf@ == "C:\\TRSSYUNZAI\\redis-windows-7.0.4\\redis.conf"@
    &&& p.yunzai_dir@ == "C:\\TRSSYUNZAI\\Yunzai-Bot"@
    &&& p.yunzai_node@ == "C:\\Users\\<USERNAME>\\AppData\\Local\\nvm\\v20.11.1\\node.exe"@
    &&& p.napcat_dir@ == "C:\\NapCat.Shell"@
    &&& p.napcat_log_dir@ == "C:\\NapCat.Shell\\napcat\\logs"@
    &&& p.yunzai_log_dir@ == "C:\\TRSSYUNZAI\\Yunzai-Bot\\logs"@
}

impl Default for AppPaths {
    fn default() -> (p: Self)
        ensures
            default_paths_spec(p),
    {
        AppPaths {
            redis_exe: String::from_str("C:\\TRSSYUNZAI\\redis-windows-7.0.4\\redis-server.exe"),
            redis_conf: String::from_str("C:\\TRSSYUNZAI\\redis-windows-7.0.4\\redis.conf"),
            yunzai_dir: String::from_str("C:\\TRSSYUNZAI\\Yunzai-Bot"),
            yunzai_node: String::from_str("C:\\Users\\<USERNAME>\\AppData\\Local\\nvm\\v20.11.1\\node.exe"),
            napcat_dir: String::from_str("C:\\NapCat.Shell"),
            napcat_log_dir: String::from_str("C:\\NapCat.Shell\\napcat\\logs"),
            yunzai_log_dir: String::from_str("C:\\TRSSYUNZAI\\Yunzai-Bot\\logs"),
        }
    }
}

/// Behaviour settings.
#[derive(Debug, Clone)]
pub struct AppSettings {
    /// What closing the window does: `minimize_to_tray` (default) or `exit`.
    pub close_action: String,
    /// Start with the system.
    pub autostart: bool,
    /// Start every service when the console starts.
    pub auto_start_on_launch: bool,
    /// Start NapCat with administrator rights.
    pub napcat_elevated: bool,
}

pub open spec fn default_settings_spec(s: AppSettings) -> bool {
    &&& s.close_action@ == "minimize_to_tray"@
    &&& !s.autostart
    &&& !s.auto_start_on_launch
    &&& s.napcat_elevated
}

impl Default for AppSettings {
    fn default() -> (s: Self)
        ensures
            default_settings_spec(s),
    {
        AppSettings {
            close_action: String::from_str("minimize_to_tray"),
            autostart: false,
            auto_start_on_launch: false,
            napcat_elevated: true,
        }
    }
}

impl AppSettings {
    /// Closing the window quits the console only when `close_action` is
    /// exactly `exit`; any other value hides the window to the tray.
    pub fn close_exits(&self) -> (r: bool)
        ensures
            r == (self.close_action@ == "exit"@),
    {
        crate::text::str_eq(self.close_action.as_str(), "exit")
    }
}

/// The whole configuration.
#[derive(Debug, Clone)]
pub struct AppConfig {
    pub paths: AppPaths,
    pub settings: AppSettings,
}

pub open spec fn default_config_spec(c: AppConfig) -> bool {
    default_paths_spec(c.paths) && default_settings_spec(c.settings)
}

impl Default for AppConfig {
    fn default() -> (c: Self)
        ensures
            default_config_spec(c),
    {
        AppConfig { paths: AppPaths::default(), settings: AppSettings::default() }
    }
}

/// What became of an attempt to read the configuration file.
pub enum ConfigSource {
    /// There is no file.
    Missing,
    /// The file exists but could not be read.
    Unreadable,
    /// The file was read but is not a valid configuration.
    Unparsable,
    /// The file held this configuration.
    Parsed(AppConfig),
}

impl AppConfig {
    /// The configuration in effect after reading the file: what it held, or
    /// the defaults when it is missing, unreadable or not a configuration.
    pub fn load(source: ConfigSource) -> (c: AppConfig)
        ensures
            match source {
                ConfigSource::Parsed(p) => c == p,
                _ => default_config_spec(c),
            },
    {
        match source {
            ConfigSource::Parsed(p) => p,
            _ => AppConfig::default(),
        }
    }

    /// `update_paths`: the paths are replaced; the settings only when new ones are given.
    pub fn apply_update(&mut self, paths: AppPaths, settings: Option<AppSettings>)
        ensures
            final(self).paths == paths,
            final(self).settings == (match settings {
                Some(s) => s,
                None => old(self).settings,
            }),
    {
        self.paths = paths;
        match settings {
            Some(s) => {
                self.settings = s;
            },
            None => {},
        }
    }
}

} // verus!
