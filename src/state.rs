//! The application context: the configuration and the connection cache,
//! created once at start-up and passed to whatever needs them.
use vstd::prelude::*;

use crate::cache::Gitlabs;
use crate::config::{Config, ConfigError};

verus! {

/// Configuration and connection cache.
pub struct AppState<C> {
    pub config: Config,
    pub gitlabs: Gitlabs<C>,
}

impl<C> AppState<C> {
    pub open spec fn config_spec(&self) -> Config {
        self.config
    }

    /// The context at start-up: the loaded configuration and an empty cache.
    pub fn init(config: Config) -> (r: Self)
        ensures
            r.config_spec() == config,
            r.gitlabs.wf(),
            r.gitlabs.clients() == Map::<Seq<char>, nat>::empty(),
    {
        AppState { config, gitlabs: Gitlabs::new() }
    }

    pub fn config(&self) -> (r: &Config)
        ensures
            *r == self.config_spec(),
    {
        &self.config
    }

    /// The connection cache.
    pub fn gitlabs(&self) -> (r: &Gitlabs<C>)
        ensures
            *r == self.gitlabs,
    {
        &self.gitlabs
    }

    /// Commits `new` once writing it succeeded (`persisted`); when writing
    /// failed the previous configuration stays and the failure is returned.
    pub fn replace_config(&mut self, new: Config, persisted: Result<(), ConfigError>) -> (r: Result<
        (),
        ConfigError,
    >)
        ensures
            r == persisted,
            persisted is Ok ==> final(self).config_spec() == new,
            persisted is Err ==> final(self).config_spec() == old(self).config_spec(),
            final(self).gitlabs == old(self).gitlabs,
    {
        if persisted.is_ok() {
            self.config = new;
        }
        persisted
    }
}

} // verus!
