use vstd::prelude::*;

verus! {

/// Loads and saves the application configuration file. Nothing is persisted
/// yet: loading gives the default configuration and saving succeeds.
pub struct ConfigManager {}

/// The application configuration record.
#[derive(Debug, Clone)]
pub struct AppConfig {}

impl ConfigManager {
    pub fn new() -> (r: Self) {
        ConfigManager {}
    }

    pub fn load_config(&self) -> (r: Result<AppConfig, String>)
        ensures
            r is Ok,
    {
        Ok(AppConfig {})
    }

    pub fn save_config(&self, config: &AppConfig) -> (r: Result<(), String>)
        ensures
            r is Ok,
    {
        Ok(())
    }

    /// The value under `key`: no key holds one yet.
    pub fn get<T>(&self, key: &str) -> (r: Option<T>)
        ensures
            r is None,
    {
        None
    }

    pub fn set<T>(&mut self, key: &str, value: T) -> (r: Result<(), String>)
        ensures
            r is Ok,
    {
        Ok(())
    }
}

impl Default for AppConfig {
    fn default() -> (r: Self) {
        AppConfig {}
    }
}

impl Default for ConfigManager {
    fn default() -> (r: Self) {
        ConfigManager::new()
    }
}

/// Loads and saves user preferences. Nothing is persisted yet: loading
/// gives the default preferences and saving succeeds.
pub struct SettingsManager {}

/// The user preferences record.
#[derive(Debug, Clone)]
pub struct UserSettings {}

impl SettingsManager {
    pub fn new() -> (r: Self) {
        SettingsManager {}
    }

    pub fn load_settings(&self) -> (r: Result<UserSettings, String>)
        ensures
            r is Ok,
    {
        Ok(UserSettings {})
    }

    pub fn save_settings(&self, settings: &UserSettings) -> (r: Result<(), String>)
        ensures
            r is Ok,
    {
        Ok(())
    }

    /// The preference under `key`: no key holds one yet.
    pub fn get_setting<T>(&self, key: &str) -> (r: Option<T>)
        ensures
            r is None,
    {
        None
    }

    pub fn set_setting<T>(&mut self, key: &str, value: T) -> (r: Result<(), String>)
        ensures
            r is Ok,
    {
        Ok(())
    }
}

impl Default for UserSettings {
    fn default() -> (r: Self) {
        UserSettings {}
    }
}

impl Default for SettingsManager {
    fn default() -> (r: Self) {
        SettingsManager::new()
    }
}

} // verus!
