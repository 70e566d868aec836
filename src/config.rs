use vstd::prelude::*;

verus! {

/// How the project collection is persisted.
#[derive(Debug, Clone, Copy, PartialEq, Eq, Structural)]
pub enum PersistenceMode {
    JSON,
}

/// Settings of the tracker.
#[derive(Debug, Clone, Copy, PartialEq, Eq, Structural)]
pub struct Config {
    pub persistence_mode: PersistenceMode,
}

impl Config {
    /// The settings used when no configuration was found.
    pub open spec fn spec_default() -> Config {
        Config { persistence_mode: PersistenceMode::JSON }
    }

    pub fn default() -> (r: Config)
        ensures
            r == Config::spec_default(),
    {
        Config { persistence_mode: PersistenceMode::JSON }
    }
}

/// The configuration in effect, given what was read from the configuration
/// source: `None` when there was nothing to read.
pub fn config_or_default(found: Option<Config>) -> (r: Config)
    ensures
        found is None ==> r == Config::spec_default(),
        found is Some ==> r == found->Some_0,
{
    match found {
        Some(c) => c,
        None => Config::default(),
    }
}

} // verus!
