//! Settings registry: shared, low-frequency configuration.
//!
//! A single registry per running process carries cross-cutting user
//! preferences that any rendering pass may read without an entity handle.
//! It is installed exactly once before first use; a second initialization
//! is reported but harmless (the first value wins). Per-widget state never
//! lives here — that always goes through the entity store.
//!
//! Rather than ambient global state, the registry is an explicit value the
//! composition root owns and threads to whoever needs it, keeping it under
//! the same single-threaded ordering discipline as the entity store.

use vstd::prelude::*;

use crate::CoreError;

verus! {

/// The user preferences the gallery exposes.
pub struct Settings {
    pub notifications: bool,
    pub username: String,
}

impl Default for Settings {
    /// Notifications off, no username.
    fn default() -> (s: Settings)
        ensures
            !s.notifications,
            s.username@ == Seq::<char>::empty(),
    {
        Settings { notifications: false, username: String::new() }
    }
}

/// Holder of the process-wide [`Settings`] value.
pub struct SettingsRegistry {
    value: Option<Settings>,
}

impl SettingsRegistry {
    /// Whether [`SettingsRegistry::init`] has run.
    pub closed spec fn initialized(&self) -> bool {
        self.value is Some
    }

    /// The installed settings.
    pub closed spec fn settings(&self) -> Settings
        recommends
            self.initialized(),
    {
        self.value.unwrap()
    }

    /// A registry with nothing installed yet.
    pub fn new() -> (registry: SettingsRegistry)
        ensures
            !registry.initialized(),
    {
        SettingsRegistry { value: None }
    }

    /// Installs the initial settings. A second call reports
    /// `AlreadyInitialized` and keeps the first value, so initialization
    /// is idempotent rather than fatal.
    pub fn init(&mut self, initial: Settings) -> (r: Result<(), CoreError>)
        ensures
            final(self).initialized(),
            !old(self).initialized() ==> r is Ok && final(self).settings() == initial,
            old(self).initialized() ==> (r matches Err(e) && e == CoreError::AlreadyInitialized)
                && *final(self) == *old(self),
    {
        match &self.value {
            Some(_) => Err(CoreError::AlreadyInitialized),
            None => {
                self.value = Some(initial);
                Ok(())
            },
        }
    }

    /// Borrows the settings; reports `NotFound` before initialization.
    pub fn get(&self) -> (r: Result<&Settings, CoreError>)
        ensures
            self.initialized() ==> (r matches Ok(s) && *s == self.settings()),
            !self.initialized() ==> (r matches Err(e) && e == CoreError::NotFound),
    {
        match &self.value {
            Some(s) => Ok(s),
            None => Err(CoreError::NotFound),
        }
    }

    /// Replaces the settings wholesale; reports `NotFound` before
    /// initialization.
    pub fn set(&mut self, settings: Settings) -> (r: Result<(), CoreError>)
        ensures
            old(self).initialized() ==> r is Ok && final(self).initialized() && final(self).settings() == settings,
            !old(self).initialized() ==> (r matches Err(e) && e == CoreError::NotFound) && *final(self) == *old(self),
    {
        match &self.value {
            Some(_) => {
                self.value = Some(settings);
                Ok(())
            },
            None => Err(CoreError::NotFound),
        }
    }

    /// Flips the notifications preference; reports `NotFound` before
    /// initialization.
    pub fn set_notifications(&mut self, on: bool) -> (r: Result<(), CoreError>)
        ensures
            old(self).initialized() ==> r is Ok && final(self).initialized() && final(self).settings() == (Settings { notifications: on, ..old(self).settings() }),
            !old(self).initialized() ==> (r matches Err(e) && e == CoreError::NotFound) && *final(self) == *old(self),
    {
        match &mut self.value {
            Some(s) => {
                s.notifications = on;
                Ok(())
            },
            None => Err(CoreError::NotFound),
        }
    }

    /// Replaces the username preference; reports `NotFound` before
    /// initialization.
    pub fn set_username(&mut self, username: String) -> (r: Result<(), CoreError>)
        ensures
            old(self).initialized() ==> r is Ok && final(self).initialized() && final(self).settings() == (Settings { username, ..old(self).settings() }),
            !old(self).initialized() ==> (r matches Err(e) && e == CoreError::NotFound) && *final(self) == *old(self),
    {
        match &mut self.value {
            Some(s) => {
                s.username = username;
                Ok(())
            },
            None => Err(CoreError::NotFound),
        }
    }
}

} // verus!
